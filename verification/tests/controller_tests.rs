use dataman::controller::command::{Command, QueuedCommand};
use dataman::controller::controller_impl::{Controller, EditingOutcome, Step};
use dataman::controller::input::{Event, InputMode};
use dataman::controller::key::{KeyCode, KeyEvent, TerminalEvent};
use dataman::model::database::Database;
use rusqlite::Connection;

fn people_controller() -> Controller {
    let conn = Connection::open_in_memory().unwrap();
    conn.execute_batch(
        "CREATE TABLE people (id INTEGER PRIMARY KEY, name TEXT, age TEXT);
         INSERT INTO people (name, age) VALUES ('henrik', '35'), ('john', '40'), ('anna', '28');",
    )
    .unwrap();
    Controller::new(Database::new(conn).unwrap())
}

fn key(code: KeyCode) -> TerminalEvent {
    TerminalEvent::Key(KeyEvent { code, control: false, press: true })
}

fn control_key(code: KeyCode) -> TerminalEvent {
    TerminalEvent::Key(KeyEvent { code, control: true, press: true })
}

fn type_text(controller: &mut Controller, text: &str) {
    for c in text.chars() {
        controller.handle_editing_event(key(KeyCode::Char(c))).unwrap();
    }
}

#[test]
fn typing_and_deleting_characters() {
    let mut controller = people_controller();
    controller.enter_char('a');
    controller.enter_char('c');
    controller.move_cursor_left();
    controller.enter_char('b');
    assert_eq!(controller.database.input, "abc");
    assert_eq!(controller.database.character_index, 2);
    controller.delete_char();
    assert_eq!(controller.database.input, "ac");
    assert_eq!(controller.database.character_index, 1);
    controller.move_cursor_right();
    controller.move_cursor_right();
    assert_eq!(controller.database.character_index, 2);
    controller.reset_cursor();
    controller.delete_char();
    assert_eq!(controller.database.input, "ac");
    controller.reset_input();
    assert_eq!(controller.database.input, "");
}

#[test]
fn insert_then_delete_gives_back_the_input() {
    let mut controller = people_controller();
    for c in "héllo".chars() {
        controller.enter_char(c);
    }
    controller.database.character_index = 2;
    controller.enter_char('ß');
    assert_eq!(controller.database.input, "héßllo");
    controller.delete_char();
    assert_eq!(controller.database.input, "héllo");
    assert_eq!(controller.database.character_index, 2);
    assert_eq!(controller.byte_index(), 3);
    assert_eq!(controller.clamp_cursor(99), 5);
}

#[test]
fn keys_that_need_input_start_editing() {
    let mut controller = people_controller();
    assert_eq!(controller.next_step(), Step::ReadNormalKey);
    controller.handle_normal_event(key(KeyCode::Char('q')), 10).unwrap();
    assert_eq!(controller.database.last_command.command, Command::SqlQuery);
    assert_eq!(controller.database.input_mode_state_machine.get_state(), InputMode::Editing);
    assert_eq!(controller.next_step(), Step::ReadEditingKey);
    type_text(&mut controller, "UPDATE people SET age = '41' WHERE id = 2;");
    controller.handle_editing_event(key(KeyCode::Enter)).unwrap();
    assert_eq!(controller.next_step(), Step::ExecuteQueued);
    controller.finish_queued_command(10).unwrap();
    assert_eq!(controller.database.input_mode_state_machine.get_state(), InputMode::Normal);
    assert!(controller.database.queued_command.is_none());
    assert_eq!(controller.database.get_cell(2, "age").unwrap(), "41");
}

#[test]
fn regex_transform_takes_two_inputs() {
    let mut controller = people_controller();
    controller.handle_normal_event(key(KeyCode::Right), 10).unwrap();
    controller.handle_normal_event(key(KeyCode::Char('t')), 10).unwrap();
    type_text(&mut controller, "(h)(e)");
    controller.handle_editing_event(key(KeyCode::Enter)).unwrap();
    assert_eq!(controller.database.input_mode_state_machine.get_state(), InputMode::Editing);
    type_text(&mut controller, "$2$1");
    controller.handle_editing_event(key(KeyCode::Enter)).unwrap();
    assert_eq!(controller.database.input_mode_state_machine.get_state(), InputMode::Finish);
    controller.finish_queued_command(10).unwrap();
    let derived: String = controller
        .database
        .connection
        .query_row("SELECT derivedname FROM people WHERE id = 1", [], |row| row.get(0))
        .unwrap();
    assert_eq!(derived, "ehnrik");
}

#[test]
fn aborting_input_drops_the_command() {
    let mut controller = people_controller();
    controller.handle_normal_event(key(KeyCode::Char('e')), 10).unwrap();
    type_text(&mut controller, "xyz");
    let outcome = controller.handle_editing_event(control_key(KeyCode::Char('c'))).unwrap();
    assert_eq!(outcome, EditingOutcome::Done);
    assert_eq!(controller.database.input, "");
    assert_eq!(controller.next_step(), Step::ResetAborted);
    controller.abort_input().unwrap();
    assert!(controller.database.queued_command.is_none());
    assert_eq!(controller.database.last_command.message.as_deref(), Some("Aborted input"));
    assert_eq!(controller.next_step(), Step::ReadNormalKey);
}

#[test]
fn escape_aborts_and_tab_opens_the_editor() {
    let mut controller = people_controller();
    controller.handle_normal_event(key(KeyCode::Char('/')), 10).unwrap();
    let outcome = controller.handle_editing_event(key(KeyCode::Tab)).unwrap();
    assert_eq!(outcome, EditingOutcome::OpenExternalEditor);
    assert_eq!(controller.next_step(), Step::ExternalEditor);
    controller.finish_external_editor(Some("john".to_string())).unwrap();
    assert_eq!(controller.database.input, "john");
    assert_eq!(controller.database.character_index, 4);
    assert_eq!(controller.database.input_mode_state_machine.get_state(), InputMode::Editing);
    controller.handle_editing_event(key(KeyCode::Esc)).unwrap();
    assert_eq!(controller.database.input_mode_state_machine.get_state(), InputMode::Abort);
}

#[test]
fn exact_search_reports_whether_it_matched() {
    let mut controller = people_controller();
    controller.handle_normal_event(key(KeyCode::Right), 10).unwrap();
    controller.exact_search(vec!["anna".to_string()], 10).unwrap();
    assert_eq!(controller.database.last_command.command, Command::ExactSearch);
    assert_eq!(controller.database.last_command.message.as_deref(), Some("Match found"));
    controller.exact_search(vec!["nobody".to_string()], 10).unwrap();
    assert_eq!(controller.database.last_command.message.as_deref(), Some("No match found"));
    assert!(controller.exact_search(Vec::new(), 10).is_err());
}

#[test]
fn other_events_are_illegal_operations() {
    let mut controller = people_controller();
    controller.handle_normal_event(TerminalEvent::Other, 10).unwrap();
    assert_eq!(controller.database.last_command.command, Command::IllegalOperation);
    assert_eq!(controller.database.last_command.message.as_deref(), Some("Could not poll"));
    assert!(!controller.database.slice.is_unchanged());
}

#[test]
fn quit_is_remembered() {
    let mut controller = people_controller();
    controller.handle_normal_event(control_key(KeyCode::Char('c')), 10).unwrap();
    assert!(controller.should_quit());
}

#[test]
fn failing_commands_are_shown() {
    let mut controller = people_controller();
    controller.handle_normal_event(key(KeyCode::Char('X')), 10).unwrap();
    assert_eq!(controller.database.last_command.command, Command::IllegalOperation);
    controller.handle_normal_event(key(KeyCode::Right), 10).unwrap();
    controller.handle_normal_event(key(KeyCode::Char('X')), 10).unwrap();
    assert_eq!(controller.database.last_command.command, Command::DeleteColumn);
    assert_eq!(
        controller.database.last_command.message.as_deref(),
        Some("Deleted column name")
    );
    let mut other = people_controller();
    other.database.header_idx = 9;
    other.handle_normal_event(key(KeyCode::Char('c')), 10).unwrap();
    assert_eq!(other.database.last_command.command, Command::IllegalOperation);
}

#[test]
fn copy_and_conversions() {
    let mut controller = people_controller();
    controller.handle_normal_event(key(KeyCode::Left), 10).unwrap();
    controller.copy().unwrap();
    assert_eq!(controller.database.last_command.command, Command::Copy);
    controller.text_to_int().unwrap();
    assert_eq!(controller.database.last_command.command, Command::TextToInt);
    let headers = controller.database.get_headers("people").unwrap();
    assert_eq!(headers, vec!["id", "name", "age", "derivedage", "INT_age"]);
    let (heads, rows) = controller.get_headers_and_rows(2).unwrap();
    assert_eq!(heads.len(), 5);
    assert_eq!(rows.len(), 2);
}

#[test]
fn rename_table_starts_with_the_old_name() {
    let mut controller = people_controller();
    controller.handle_normal_event(key(KeyCode::Char('R')), 10).unwrap();
    assert_eq!(controller.database.input, "people");
    assert_eq!(controller.database.character_index, 6);
    controller.rename_table(vec!["folk".to_string()]).unwrap();
    assert_eq!(controller.database.get_current_table_name().unwrap(), "folk");
}

#[test]
fn save_needs_a_file_name() {
    let mut controller = people_controller();
    assert!(controller.save_file_name().is_err());
    let mut q = QueuedCommand::new(Command::Save);
    q.inputs.push("out.sqlite".to_string());
    controller.database.queued_command = Some(q);
    assert_eq!(controller.save_file_name().unwrap(), "out.sqlite");
}

#[test]
fn finishing_without_a_command_fails() {
    let mut controller = people_controller();
    assert!(controller.finish_queued_command(10).is_err());
    controller.database.input_mode_state_machine.transition(Event::StartEditing).unwrap();
    assert_eq!(controller.next_step(), Step::EditingWithoutCommand);
}

#[test]
fn regex_transform_extracts_the_first_word() {
    let conn = Connection::open_in_memory().unwrap();
    conn.execute_batch(
        "CREATE TABLE names (id INTEGER PRIMARY KEY, full TEXT);
         INSERT INTO names (full) VALUES ('henrik zenkert'), ('john doe');",
    )
    .unwrap();
    let mut controller = Controller::new(Database::new(conn).unwrap());
    controller.handle_normal_event(key(KeyCode::Right), 10).unwrap();
    controller
        .regex_transform(vec![r"^(\w+)".to_string(), String::new()])
        .unwrap();
    let first: String = controller
        .database
        .connection
        .query_row("SELECT derivedfull FROM names WHERE id = 2", [], |row| row.get(0))
        .unwrap();
    assert_eq!(first, "john");
}

#[test]
fn logic_operation_then_text_then_filter() {
    let mut controller = people_controller();
    controller.handle_normal_event(key(KeyCode::Left), 10).unwrap();
    controller.handle_normal_event(key(KeyCode::Char('m')), 10).unwrap();
    type_text(&mut controller, "age > 30");
    controller.handle_editing_event(key(KeyCode::Enter)).unwrap();
    controller.finish_queued_command(10).unwrap();
    assert_eq!(
        controller.database.get_headers("people").unwrap(),
        vec!["id", "name", "age", "age > 30"]
    );
    controller.handle_normal_event(key(KeyCode::Right), 10).unwrap();
    controller.handle_normal_event(key(KeyCode::Char('$')), 10).unwrap();
    controller.handle_normal_event(key(KeyCode::Right), 10).unwrap();
    assert_eq!(controller.database.get_current_header().unwrap(), "TEXT_age > 30");
    controller.handle_normal_event(key(KeyCode::Char('f')), 10).unwrap();
    type_text(&mut controller, "1");
    controller.handle_editing_event(key(KeyCode::Enter)).unwrap();
    controller.finish_queued_command(10).unwrap();
    assert_eq!(controller.database.get_current_table_name().unwrap(), "peopleRegexFiltered");
    assert_eq!(controller.database.count_rows(), Some(2));
}

#[test]
fn regex_transform_without_capture_group_takes_one_input() {
    let mut controller = people_controller();
    controller.handle_normal_event(key(KeyCode::Right), 10).unwrap();
    controller.handle_normal_event(key(KeyCode::Char('t')), 10).unwrap();
    type_text(&mut controller, "n.*");
    controller.handle_editing_event(key(KeyCode::Enter)).unwrap();
    assert_eq!(controller.database.input_mode_state_machine.get_state(), InputMode::Finish);
    assert_eq!(
        controller.database.queued_command.as_ref().unwrap().inputs,
        vec!["n.*".to_string()]
    );
    assert_eq!(controller.database.input, "");
    assert_eq!(controller.database.character_index, 0);
    controller.finish_queued_command(10).unwrap();
    let derived: String = controller
        .database
        .connection
        .query_row("SELECT derivedname FROM people WHERE id = 1", [], |row| row.get(0))
        .unwrap();
    assert_eq!(derived, "nrik");
}
