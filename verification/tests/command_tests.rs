use dataman::controller::command::{Command, MetadataTblCommand, PreviousCommand, QueuedCommand};
use dataman::controller::direction::Direction;
use dataman::controller::key::{KeyCode, KeyEvent};
use dataman::controller::{
    Command as FirstCommand, CommandWrapper, Direction as FirstDirection,
};

fn press(code: KeyCode) -> KeyEvent {
    KeyEvent { code, control: false, press: true }
}

fn press_with_control(code: KeyCode) -> KeyEvent {
    KeyEvent { code, control: true, press: true }
}

#[test]
fn keys_map_to_commands() {
    assert_eq!(Command::from_key(press(KeyCode::Char('t'))), Command::RegexTransform);
    assert_eq!(Command::from_key(press(KeyCode::Char('e'))), Command::Edit);
    assert_eq!(Command::from_key(press(KeyCode::Char('w'))), Command::Sort);
    assert_eq!(Command::from_key(press(KeyCode::Char('a'))), Command::Save);
    assert_eq!(Command::from_key(press(KeyCode::Char('q'))), Command::SqlQuery);
    assert_eq!(Command::from_key(press(KeyCode::Char('f'))), Command::RegexFilter);
    assert_eq!(Command::from_key(press(KeyCode::Char('c'))), Command::Copy);
    assert_eq!(Command::from_key(press_with_control(KeyCode::Char('c'))), Command::Quit);
    assert_eq!(Command::from_key(press(KeyCode::Char('s'))), Command::Sort);
    assert_eq!(Command::from_key(press_with_control(KeyCode::Char('s'))), Command::Save);
    assert_eq!(Command::from_key(press(KeyCode::Char('/'))), Command::ExactSearch);
    assert_eq!(Command::from_key(press(KeyCode::Char('#'))), Command::TextToInt);
    assert_eq!(Command::from_key(press(KeyCode::Char('$'))), Command::IntToText);
    assert_eq!(Command::from_key(press(KeyCode::Char('X'))), Command::DeleteColumn);
    assert_eq!(Command::from_key(press(KeyCode::Char('D'))), Command::DeleteTable);
    assert_eq!(Command::from_key(press(KeyCode::Char('r'))), Command::RenameColumn);
    assert_eq!(Command::from_key(press(KeyCode::Char('R'))), Command::RenameTable);
    assert_eq!(Command::from_key(press(KeyCode::Char('m'))), Command::MathOperation);
    assert_eq!(Command::from_key(press(KeyCode::Char('M'))), Command::EnterMetadataTable);
    assert_eq!(Command::from_key(press(KeyCode::Char('z'))), Command::NoCommand);
    assert_eq!(Command::from_key(press(KeyCode::Enter)), Command::NoCommand);
}

#[test]
fn arrows_move_or_switch_tables() {
    assert_eq!(Command::from_key(press(KeyCode::Up)), Command::Move(Direction::Up));
    assert_eq!(Command::from_key(press(KeyCode::Down)), Command::Move(Direction::Down));
    assert_eq!(Command::from_key(press(KeyCode::Left)), Command::Move(Direction::Left));
    assert_eq!(Command::from_key(press(KeyCode::Right)), Command::Move(Direction::Right));
    assert_eq!(Command::from_key(press_with_control(KeyCode::Right)), Command::NextTable);
    assert_eq!(Command::from_key(press_with_control(KeyCode::Left)), Command::PrevTable);
    assert_eq!(Command::from_key(press_with_control(KeyCode::Up)), Command::Move(Direction::Up));
}

#[test]
fn command_labels() {
    assert_eq!(Command::NoCommand.as_str(), "None");
    assert_eq!(Command::RegexTransform.as_str(), "Regex Transform");
    assert_eq!(Command::Move(Direction::Left).as_str(), "Move Left");
    assert_eq!(Command::Move(Direction::Down).as_str(), "Move Down");
    assert_eq!(Command::TextToInt.as_str(), "Text to Int");
    assert_eq!(
        Command::EnterMetadataTable.as_str(),
        "Showing table of tables(metadata)"
    );
    assert_eq!(Direction::Right.name(), "Right");
}

#[test]
fn commands_that_update_the_view() {
    assert!(Command::Copy.requires_updating_view());
    assert!(Command::RegexFilter.requires_updating_view());
    assert!(Command::DeleteTable.requires_updating_view());
    assert!(!Command::Move(Direction::Up).requires_updating_view());
    assert!(!Command::Quit.requires_updating_view());
    assert!(!Command::Save.requires_updating_view());
    assert!(!Command::NoCommand.requires_updating_view());
    assert!(!Command::IllegalOperation.requires_updating_view());
}

#[test]
fn queued_commands_need_input_and_update_the_view() {
    let all = [
        Command::NoCommand,
        Command::Copy,
        Command::RegexTransform,
        Command::RegexFilter,
        Command::Edit,
        Command::SqlQuery,
        Command::IllegalOperation,
        Command::Quit,
        Command::Sort,
        Command::Save,
        Command::Move(Direction::Up),
        Command::NextTable,
        Command::PrevTable,
        Command::ExactSearch,
        Command::TextToInt,
        Command::IntToText,
        Command::DeleteColumn,
        Command::DeleteTable,
        Command::MathOperation,
        Command::RenameTable,
        Command::EnterMetadataTable,
        Command::RenameColumn,
    ];
    for c in all {
        if c.needs_input() && c != Command::Save {
            assert!(c.requires_updating_view());
        }
    }
    assert!(Command::Edit.needs_input());
    assert!(Command::RenameTable.needs_input());
    assert!(!Command::Copy.needs_input());
}

#[test]
fn metadata_table_keys() {
    assert_eq!(
        MetadataTblCommand::from_key(press(KeyCode::Up)),
        MetadataTblCommand::Move(Direction::Up)
    );
    assert_eq!(
        MetadataTblCommand::from_key(press_with_control(KeyCode::Char('c'))),
        MetadataTblCommand::Quit
    );
    assert_eq!(
        MetadataTblCommand::from_key(press(KeyCode::Char('c'))),
        MetadataTblCommand::NoCommand
    );
}

#[test]
fn new_commands_hold_their_parts() {
    let q = QueuedCommand::new(Command::Edit);
    assert_eq!(q.command, Command::Edit);
    assert!(q.inputs.is_empty());
    let d = QueuedCommand::default();
    assert_eq!(d.command, Command::NoCommand);
    let p = PreviousCommand::new(Command::Copy, Some("done".to_string()));
    assert_eq!(p.command, Command::Copy);
    assert_eq!(p.message.as_deref(), Some("done"));
}

#[test]
fn first_controller_key_bindings() {
    assert_eq!(FirstCommand::from_key(press(KeyCode::Char('r'))), FirstCommand::RegexTransform);
    assert_eq!(FirstCommand::from_key(press(KeyCode::Char('R'))), FirstCommand::RenameColumn);
    assert_eq!(FirstCommand::from_key(press_with_control(KeyCode::Char('c'))), FirstCommand::Quit);
    assert_eq!(
        FirstCommand::from_key(press(KeyCode::Down)),
        FirstCommand::Move(FirstDirection::Down)
    );
    assert_eq!(FirstCommand::from_key(press_with_control(KeyCode::Left)), FirstCommand::PrevTable);
    assert_eq!(FirstCommand::from_key(press(KeyCode::Char('x'))), FirstCommand::NoCommand);
    assert!(FirstCommand::Sort.requires_updating_view());
    assert!(!FirstCommand::Move(FirstDirection::Up).requires_updating_view());
    assert_eq!(FirstDirection::from_key_code(KeyCode::Left), FirstDirection::Left);
    let w = CommandWrapper::new(FirstCommand::Copy, None);
    assert_eq!(w.command, FirstCommand::Copy);
    assert!(w.message.is_none());
}

#[test]
fn direction_of_arrow_keys() {
    assert_eq!(Direction::from_key_code(KeyCode::Right), Direction::Right);
    assert_eq!(Direction::from_key_code(KeyCode::Up), Direction::Up);
}
