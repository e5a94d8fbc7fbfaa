use vstd::prelude::*;

use super::key::KeyCode;

verus! {

/// A direction in which the cursor moves.
#[derive(Debug, Clone, Copy, PartialEq, Eq, Structural)]
#[non_exhaustive]
pub enum Direction {
    Up,
    Down,
    Left,
    Right,
}

/// The direction of an arrow key.
pub open spec fn spec_direction_of(code: KeyCode) -> Direction
    recommends
        code.is_arrow(),
{
    match code {
        KeyCode::Right => Direction::Right,
        KeyCode::Left => Direction::Left,
        KeyCode::Up => Direction::Up,
        _ => Direction::Down,
    }
}

impl Direction {
    /// The direction of an arrow key; only arrow keys have one.
    pub fn from_key_code(value: KeyCode) -> (d: Direction)
        requires
            value.is_arrow(),
        ensures
            d == spec_direction_of(value),
    {
        match value {
            KeyCode::Right => Direction::Right,
            KeyCode::Left => Direction::Left,
            KeyCode::Up => Direction::Up,
            _ => Direction::Down,
        }
    }

    /// The direction's name, as it is shown to the user.
    pub fn name(&self) -> (s: &'static str)
        ensures
            s@ == spec_direction_name(*self),
    {
        match self {
            Direction::Up => "Up",
            Direction::Down => "Down",
            Direction::Left => "Left",
            Direction::Right => "Right",
        }
    }
}

/// The name of a direction.
pub open spec fn spec_direction_name(d: Direction) -> Seq<char> {
    match d {
        Direction::Up => "Up"@,
        Direction::Down => "Down"@,
        Direction::Left => "Left"@,
        Direction::Right => "Right"@,
    }
}

} // verus!
