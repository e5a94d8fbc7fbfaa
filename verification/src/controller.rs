//! The first controller's commands and key bindings, and the controller modules.
use vstd::prelude::*;

pub mod command;
pub mod controller_impl;
pub mod direction;
pub mod input;
pub mod key;

use key::{KeyCode, KeyEvent};

verus! {

/// The commands of the first controller.
#[derive(Debug, Clone, PartialEq)]
pub enum Command {
    NoCommand,
    Copy,
    RegexTransform,
    RegexFilter,
    Edit,
    SqlQuery,
    IllegalOperation,
    Quit,
    Sort,
    Save,
    Move(Direction),
    NextTable,
    PrevTable,
    ExactSearch,
    TextToInt,
    IntToText,
    DeleteColumn,
    RenameColumn,
    Join(Join),
}

/// A command of the first controller with the message that came with it.
#[derive(Debug)]
pub struct CommandWrapper {
    pub command: Command,
    pub message: Option<String>,
}

impl CommandWrapper {
    pub fn new(command: Command, message: Option<String>) -> (w: Self)
        ensures
            w.command == command,
            w.message == message,
    {
        Self { command, message }
    }
}

/// A join of two tables on pairs of columns.
#[derive(Debug, PartialEq)]
pub struct Join {
    pub tables: (String, String),
    /// Pairs of column names to join on.
    pub conditions: Vec<(String, String)>,
    pub join_type: JoinType,
}

impl Clone for Join {
    fn clone(&self) -> (j: Self)
        ensures
            j.tables.0@ == self.tables.0@,
            j.tables.1@ == self.tables.1@,
            j.conditions@.len() == self.conditions@.len(),
            forall|i: int| 0 <= i < self.conditions@.len() ==> {
                &&& (#[trigger] j.conditions@[i]).0@ == self.conditions@[i].0@
                &&& j.conditions@[i].1@ == self.conditions@[i].1@
            },
            j.join_type == self.join_type,
    {
        let mut conditions: Vec<(String, String)> = Vec::new();
        let mut i: usize = 0;
        while i < self.conditions.len()
            invariant
                i <= self.conditions@.len(),
                conditions@.len() == i,
                forall|k: int| 0 <= k < i ==> {
                    &&& (#[trigger] conditions@[k]).0@ == self.conditions@[k].0@
                    &&& conditions@[k].1@ == self.conditions@[k].1@
                },
            decreases self.conditions@.len() - i,
        {
            let left = self.conditions[i].0.clone();
            let right = self.conditions[i].1.clone();
            conditions.push((left, right));
            i = i + 1;
        }
        Join {
            tables: (self.tables.0.clone(), self.tables.1.clone()),
            conditions,
            join_type: self.join_type,
        }
    }
}

/// Outer Join is Left Outer Join.
/// Cross Join is cartesian product of the two tables.
#[derive(Debug, PartialEq, Clone, Copy)]
pub enum JoinType {
    Inner,
    Outer,
    Cross,
}

#[derive(Debug, Clone, Copy, PartialEq, Eq, Structural)]
pub enum Direction {
    Up,
    Down,
    Left,
    Right,
}

/// The commands of the first controller after which the table has to be fetched again.
pub open spec fn spec_first_requires_updating_view(c: Command) -> bool {
    !(c is NoCommand || c is IllegalOperation || c is Save || c is Quit || c is Move)
}

/// The direction of an arrow key in the first controller.
pub open spec fn spec_first_direction_of(code: KeyCode) -> Direction {
    match code {
        KeyCode::Right => Direction::Right,
        KeyCode::Left => Direction::Left,
        KeyCode::Up => Direction::Up,
        _ => Direction::Down,
    }
}

/// The command that a key runs in the first controller.
pub open spec fn spec_first_command_of_key(key: KeyEvent) -> Command {
    match key.code {
        KeyCode::Char(c) => {
            if c == 'r' {
                Command::RegexTransform
            } else if c == 'e' {
                Command::Edit
            } else if c == 'w' {
                Command::Sort
            } else if c == 'a' {
                Command::Save
            } else if c == 'q' {
                Command::SqlQuery
            } else if c == 'f' {
                Command::RegexFilter
            } else if c == 'c' {
                if key.control { Command::Quit } else { Command::Copy }
            } else if c == 's' {
                if key.control { Command::Save } else { Command::Sort }
            } else if c == '/' {
                Command::ExactSearch
            } else if c == '#' {
                Command::TextToInt
            } else if c == '$' {
                Command::IntToText
            } else if c == 'X' {
                Command::DeleteColumn
            } else if c == 'R' {
                Command::RenameColumn
            } else {
                Command::NoCommand
            }
        },
        KeyCode::Right => if key.control { Command::NextTable } else { Command::Move(Direction::Right) },
        KeyCode::Left => if key.control { Command::PrevTable } else { Command::Move(Direction::Left) },
        KeyCode::Up => Command::Move(Direction::Up),
        KeyCode::Down => Command::Move(Direction::Down),
        _ => Command::NoCommand,
    }
}

impl Command {
    pub fn requires_updating_view(&self) -> (b: bool)
        ensures
            b == spec_first_requires_updating_view(*self),
    {
        match self {
            Command::Copy
            | Command::RegexTransform
            | Command::Edit
            | Command::SqlQuery
            | Command::Sort
            | Command::NextTable
            | Command::PrevTable
            | Command::TextToInt
            | Command::IntToText
            | Command::DeleteColumn
            | Command::RenameColumn
            | Command::ExactSearch
            | Command::Join(_)
            | Command::RegexFilter => true,
            Command::NoCommand
            | Command::IllegalOperation
            | Command::Save
            | Command::Quit
            | Command::Move(_) => false,
        }
    }

    /// The command that a key runs.
    pub fn from_key(key_event: KeyEvent) -> (c: Command)
        ensures
            c == spec_first_command_of_key(key_event),
    {
        match key_event.code {
            KeyCode::Char('r') => Command::RegexTransform,
            KeyCode::Char('e') => Command::Edit,
            KeyCode::Right | KeyCode::Left | KeyCode::Up | KeyCode::Down => {
                if key_event.control {
                    match key_event.code {
                        KeyCode::Right => return Command::NextTable,
                        KeyCode::Left => return Command::PrevTable,
                        _ => (),
                    }
                }
                Command::Move(Direction::from_key_code(key_event.code))
            },
            KeyCode::Char('w') => Command::Sort,
            KeyCode::Char('a') => Command::Save,
            KeyCode::Char('q') => Command::SqlQuery,
            KeyCode::Char('f') => Command::RegexFilter,
            KeyCode::Char('c') => {
                if key_event.control {
                    Command::Quit
                } else {
                    Command::Copy
                }
            },
            KeyCode::Char('s') => {
                if key_event.control {
                    Command::Save
                } else {
                    Command::Sort
                }
            },
            KeyCode::Char('/') => Command::ExactSearch,
            KeyCode::Char('#') => Command::TextToInt,
            KeyCode::Char('$') => Command::IntToText,
            KeyCode::Char('X') => Command::DeleteColumn,
            KeyCode::Char('R') => Command::RenameColumn,
            _ => Command::NoCommand,
        }
    }
}

impl Direction {
    /// The direction of an arrow key; only arrow keys have one.
    pub fn from_key_code(value: KeyCode) -> (d: Direction)
        requires
            value.is_arrow(),
        ensures
            d == spec_first_direction_of(value),
    {
        match value {
            KeyCode::Right => Direction::Right,
            KeyCode::Left => Direction::Left,
            KeyCode::Up => Direction::Up,
            _ => Direction::Down,
        }
    }
}

} // verus!
