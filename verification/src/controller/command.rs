use vstd::prelude::*;

use super::direction::{spec_direction_name, spec_direction_of, Direction};
use super::key::{KeyCode, KeyEvent};

verus! {

/// A command that waits for the user's input before it runs.
#[derive(Debug, Clone)]
pub struct QueuedCommand {
    pub command: Command,
    pub inputs: Vec<String>,
}

impl QueuedCommand {
    pub fn new(command: Command) -> (q: Self)
        ensures
            q.command == command,
            q.inputs@.len() == 0,
    {
        Self { command, inputs: Vec::new() }
    }
}

impl Default for QueuedCommand {
    fn default() -> (q: Self)
        ensures
            q.command == Command::NoCommand,
            q.inputs@.len() == 0,
    {
        QueuedCommand::new(Command::NoCommand)
    }
}

/// The last command that ran, with an optional message for the status line.
#[derive(Debug, Clone)]
pub struct PreviousCommand {
    pub command: Command,
    pub message: Option<String>,
}

impl PreviousCommand {
    pub fn new(command: Command, message: Option<String>) -> (p: Self)
        ensures
            p.command == command,
            p.message == message,
    {
        Self { command, message }
    }
}

#[derive(Debug, Clone, Copy, PartialEq, Eq, Structural)]
pub enum Command {
    NoCommand,
    Copy,
    RegexTransform,
    RegexFilter,
    Edit,
    SqlQuery,
    IllegalOperation,
    Quit,
    Sort,
    Save,
    Move(Direction),
    NextTable,
    PrevTable,
    ExactSearch,
    TextToInt,
    IntToText,
    DeleteColumn,
    DeleteTable,
    MathOperation,
    RenameTable,
    EnterMetadataTable,
    RenameColumn,
}

#[derive(Debug, Clone, Copy, PartialEq, Eq, Structural)]
pub enum MetadataTblCommand {
    NoCommand,
    IllegalOperation,
    Move(Direction),
    LeaveMetadataTable,
    JoinMark,
    Join,
    Quit,
}

/// The commands after which the table on screen has to be fetched again.
pub open spec fn spec_requires_updating_view(c: Command) -> bool {
    !(c is NoCommand || c is IllegalOperation || c is Save || c is Quit || c is Move)
}

/// The commands that ask the user for input before they run.
pub open spec fn spec_needs_input(c: Command) -> bool {
    c is RegexTransform || c is Save || c is RegexFilter || c is Edit || c is ExactSearch
        || c is SqlQuery || c is RenameColumn || c is MathOperation || c is RenameTable
}

/// The label of a command on the status line.
pub open spec fn spec_command_label(c: Command) -> Seq<char> {
    match c {
        Command::NoCommand => "None"@,
        Command::Copy => "Copy"@,
        Command::RegexTransform => "Regex Transform"@,
        Command::RegexFilter => "Regex Filter"@,
        Command::Edit => "Edit"@,
        Command::SqlQuery => "Sql Query"@,
        Command::IllegalOperation => "Illegal Operation"@,
        Command::Quit => "Quit"@,
        Command::Sort => "Sort"@,
        Command::Save => "Save"@,
        Command::Move(dir) => "Move "@ + spec_direction_name(dir),
        Command::NextTable => "Next Table"@,
        Command::PrevTable => "Prev Table"@,
        Command::ExactSearch => "Exact Search"@,
        Command::TextToInt => "Text to Int"@,
        Command::IntToText => "Int to Text"@,
        Command::DeleteColumn => "Delete Column"@,
        Command::MathOperation => "Math Operation"@,
        Command::DeleteTable => "Delete Table"@,
        Command::RenameTable => "Rename Table"@,
        Command::RenameColumn => "Rename Column"@,
        Command::EnterMetadataTable => "Showing table of tables(metadata)"@,
    }
}

/// The command that a key runs in normal mode.
pub open spec fn spec_command_of_key(key: KeyEvent) -> Command {
    match key.code {
        KeyCode::Char(c) => {
            if c == 't' {
                Command::RegexTransform
            } else if c == 'e' {
                Command::Edit
            } else if c == 'w' {
                Command::Sort
            } else if c == 'a' {
                Command::Save
            } else if c == 'q' {
                Command::SqlQuery
            } else if c == 'f' {
                Command::RegexFilter
            } else if c == 'c' {
                if key.control { Command::Quit } else { Command::Copy }
            } else if c == 's' {
                if key.control { Command::Save } else { Command::Sort }
            } else if c == '/' {
                Command::ExactSearch
            } else if c == '#' {
                Command::TextToInt
            } else if c == '$' {
                Command::IntToText
            } else if c == 'X' {
                Command::DeleteColumn
            } else if c == 'D' {
                Command::DeleteTable
            } else if c == 'r' {
                Command::RenameColumn
            } else if c == 'R' {
                Command::RenameTable
            } else if c == 'm' {
                Command::MathOperation
            } else if c == 'M' {
                Command::EnterMetadataTable
            } else {
                Command::NoCommand
            }
        },
        KeyCode::Right => if key.control { Command::NextTable } else { Command::Move(Direction::Right) },
        KeyCode::Left => if key.control { Command::PrevTable } else { Command::Move(Direction::Left) },
        KeyCode::Up => Command::Move(Direction::Up),
        KeyCode::Down => Command::Move(Direction::Down),
        _ => Command::NoCommand,
    }
}

/// The command that a key runs while the table of tables is shown.
pub open spec fn spec_metadata_command_of_key(key: KeyEvent) -> MetadataTblCommand {
    if key.code.is_arrow() {
        MetadataTblCommand::Move(spec_direction_of(key.code))
    } else if key.code == KeyCode::Char('c') && key.control {
        MetadataTblCommand::Quit
    } else {
        MetadataTblCommand::NoCommand
    }
}

impl Command {
    pub fn requires_updating_view(&self) -> (b: bool)
        ensures
            b == spec_requires_updating_view(*self),
    {
        match self {
            Command::Copy
            | Command::RegexTransform
            | Command::Edit
            | Command::SqlQuery
            | Command::Sort
            | Command::NextTable
            | Command::PrevTable
            | Command::TextToInt
            | Command::IntToText
            | Command::DeleteColumn
            | Command::RenameTable
            | Command::RenameColumn
            | Command::ExactSearch
            | Command::EnterMetadataTable
            | Command::DeleteTable
            | Command::MathOperation
            | Command::RegexFilter => true,
            Command::NoCommand
            | Command::IllegalOperation
            | Command::Save
            | Command::Quit
            | Command::Move(_) => false,
        }
    }

    /// Whether the command first asks the user for input.
    pub fn needs_input(&self) -> (b: bool)
        ensures
            b == spec_needs_input(*self),
    {
        match self {
            Command::RegexTransform
            | Command::Save
            | Command::RegexFilter
            | Command::Edit
            | Command::ExactSearch
            | Command::SqlQuery
            | Command::RenameColumn
            | Command::MathOperation
            | Command::RenameTable => true,
            _ => false,
        }
    }

    /// The label of the command on the status line.
    pub fn as_str(&self) -> (s: String)
        ensures
            s@ == spec_command_label(*self),
    {
        match self {
            Command::NoCommand => String::from_str("None"),
            Command::Copy => String::from_str("Copy"),
            Command::RegexTransform => String::from_str("Regex Transform"),
            Command::RegexFilter => String::from_str("Regex Filter"),
            Command::Edit => String::from_str("Edit"),
            Command::SqlQuery => String::from_str("Sql Query"),
            Command::IllegalOperation => String::from_str("Illegal Operation"),
            Command::Quit => String::from_str("Quit"),
            Command::Sort => String::from_str("Sort"),
            Command::Save => String::from_str("Save"),
            Command::Move(dir) => {
                let mut s = String::from_str("Move ");
                s.append(dir.name());
                s
            },
            Command::NextTable => String::from_str("Next Table"),
            Command::PrevTable => String::from_str("Prev Table"),
            Command::ExactSearch => String::from_str("Exact Search"),
            Command::TextToInt => String::from_str("Text to Int"),
            Command::IntToText => String::from_str("Int to Text"),
            Command::DeleteColumn => String::from_str("Delete Column"),
            Command::MathOperation => String::from_str("Math Operation"),
            Command::DeleteTable => String::from_str("Delete Table"),
            Command::RenameTable => String::from_str("Rename Table"),
            Command::RenameColumn => String::from_str("Rename Column"),
            Command::EnterMetadataTable => String::from_str("Showing table of tables(metadata)"),
        }
    }

    /// The command that a key runs in normal mode.
    pub fn from_key(key_event: KeyEvent) -> (c: Command)
        ensures
            c == spec_command_of_key(key_event),
    {
        match key_event.code {
            KeyCode::Char('t') => Command::RegexTransform,
            KeyCode::Char('e') => Command::Edit,
            KeyCode::Right | KeyCode::Left | KeyCode::Up | KeyCode::Down => {
                if key_event.control {
                    match key_event.code {
                        KeyCode::Right => return Command::NextTable,
                        KeyCode::Left => return Command::PrevTable,
                        _ => (),
                    }
                }
                Command::Move(Direction::from_key_code(key_event.code))
            },
            KeyCode::Char('w') => Command::Sort,
            KeyCode::Char('a') => Command::Save,
            KeyCode::Char('q') => Command::SqlQuery,
            KeyCode::Char('f') => Command::RegexFilter,
            KeyCode::Char('c') => {
                if key_event.control {
                    Command::Quit
                } else {
                    Command::Copy
                }
            },
            KeyCode::Char('s') => {
                if key_event.control {
                    Command::Save
                } else {
                    Command::Sort
                }
            },
            KeyCode::Char('/') => Command::ExactSearch,
            KeyCode::Char('#') => Command::TextToInt,
            KeyCode::Char('$') => Command::IntToText,
            KeyCode::Char('X') => Command::DeleteColumn,
            KeyCode::Char('D') => Command::DeleteTable,
            KeyCode::Char('r') => Command::RenameColumn,
            KeyCode::Char('R') => Command::RenameTable,
            KeyCode::Char('m') => Command::MathOperation,
            KeyCode::Char('M') => Command::EnterMetadataTable,
            _ => Command::NoCommand,
        }
    }
}

impl MetadataTblCommand {
    /// The command that a key runs while the table of tables is shown.
    pub fn from_key(key_event: KeyEvent) -> (c: MetadataTblCommand)
        ensures
            c == spec_metadata_command_of_key(key_event),
    {
        match key_event.code {
            KeyCode::Right | KeyCode::Left | KeyCode::Up | KeyCode::Down => {
                MetadataTblCommand::Move(Direction::from_key_code(key_event.code))
            },
            KeyCode::Char('c') => {
                if key_event.control {
                    MetadataTblCommand::Quit
                } else {
                    MetadataTblCommand::NoCommand
                }
            },
            _ => MetadataTblCommand::NoCommand,
        }
    }
}

/// Exactly the commands that ask for input are queued, and every one of them
/// changes what the table shows except `Save`.
pub proof fn lemma_queued_commands_update_view(c: Command)
    ensures
        spec_needs_input(c) && c != Command::Save ==> spec_requires_updating_view(c),
        c is Move ==> !spec_requires_updating_view(c) && !spec_needs_input(c),
{
}

} // verus!
