//! The controller: what each key does, in normal mode and while the user types.
use vstd::prelude::*;
use vstd::string::StrSliceExecFns;

use crate::error::{error_text, AppError, AppResult};
use crate::model::database::{
    cell_answered, cell_update_sent, filtered_into_new_table, spec_copy_column_query, name_exchange, read_column,
    read_current_header, read_name, row_id_read, selected_index, row_views, spec_page_query, same_but_logs, same_editing_state,
    sent_after, sent_tried, spec_math_operation_query, spec_moved, spec_sort_order,
    Database, SqlExchange,
};
use crate::model::regexping::{
    spec_regex_no_capture_group_transform_query, spec_regex_with_capture_group_transform_query,
};
use crate::model::sql_queries::{
    spec_convert_into, spec_delete_column_query, spec_rename_column_query, spec_rename_table_query,
};
use crate::model::datarow::DataTable;
use crate::model::regexping::{capture_group_slots, regex_capture_slots, regex_is_valid, validate_regex};
use crate::text::{push_char, string_views};

use super::command::{
    spec_command_of_key, spec_needs_input, spec_requires_updating_view, Command, PreviousCommand,
    QueuedCommand,
};
use super::direction::Direction;
use super::input::{next_mode, Event, InputMode};
use super::key::{KeyCode, KeyEvent, TerminalEvent};

verus! {

pub struct Controller {
    pub database: Database,
}

/// What the controller has to do next, by the mode of the input line.
#[derive(Debug, Clone, Copy, PartialEq, Eq, Structural)]
pub enum Step {
    /// Run the command whose input is complete.
    ExecuteQueued,
    /// Read a key for the input line.
    ReadEditingKey,
    /// Read a key for a command.
    ReadNormalKey,
    /// Drop the aborted input.
    ResetAborted,
    /// The input is in the external editor.
    ExternalEditor,
    /// Editing without a command that waits for the input.
    EditingWithoutCommand,
}

/// What handling a key in the input line asks of the caller.
#[derive(Debug, Clone, Copy, PartialEq, Eq, Structural)]
pub enum EditingOutcome {
    /// Nothing more.
    Done,
    /// Open the external editor on the input, then call `finish_external_editor`.
    OpenExternalEditor,
}

/// A copy of a list of strings.
fn clone_strings(v: &Vec<String>) -> (r: Vec<String>)
    ensures
        r@ == v@,
{
    let mut r: Vec<String> = Vec::new();
    let mut i: usize = 0;
    while i < v.len()
        invariant
            i <= v@.len(),
            r@ == v@.take(i as int),
        decreases v@.len() - i,
    {
        r.push(v[i].clone());
        assert(r@ =~= v@.take(i + 1));
        i = i + 1;
    }
    assert(v@.take(v@.len() as int) =~= v@);
    r
}

/// The first input of a command; a command without input is an error.
fn first_input(inputs: &Vec<String>) -> (r: AppResult<&String>)
    ensures
        r matches Ok(s) ==> inputs@.len() > 0 && s@ == inputs@[0]@,
        r is Err <==> inputs@.len() == 0,
{
    if inputs.len() == 0 {
        Err(AppError::Other(String::from_str("no input given")))
    } else {
        Ok(&inputs[0])
    }
}

/// Whether the first input of a command is followed by a second: the pattern of a
/// regex transform that is valid and has a capture group asks for its transformation.
pub open spec fn waits_for_second_input(command: Command, inputs_given: nat, input: Seq<char>) -> bool {
    command == Command::RegexTransform && inputs_given == 0 && regex_is_valid(input)
        && regex_capture_slots(input) > 1
}

/// The log after a cell was edited to `content`: the current column `header` was
/// read, then the key `n` of the selected row `selected`, then the cell in that row
/// and column, then the table's name `t`; last, the update of that column of table
/// `t` was handed to SQLite with `content` and the key bound to it.
pub open spec fn cell_edited(
    o: Seq<SqlExchange>,
    f: Seq<SqlExchange>,
    rowid: u16,
    header_idx: u16,
    selected: nat,
    content: Seq<char>,
) -> bool {
    exists|
        m1: Seq<SqlExchange>,
        m2: Seq<SqlExchange>,
        m3: Seq<SqlExchange>,
        header: Seq<char>,
        t2: Seq<char>,
        n: i64,
        id: i32,
        cell: Seq<char>,
        t: Seq<char>,
    |
        #![trigger read_current_header(o, m1, rowid, header_idx, header), row_id_read(m1, m2, rowid, t2, selected, n), cell_answered(m2, m3, rowid, header, id, cell), cell_update_sent(m3, f, rowid, t, header, id, content)]
        {
            &&& read_current_header(o, m1, rowid, header_idx, header)
            &&& row_id_read(m1, m2, rowid, t2, selected, n)
            &&& id == n
            &&& cell_answered(m2, m3, rowid, header, id, cell)
            &&& cell_update_sent(m3, f, rowid, t, header, id, content)
        }
}

/// Everything of the database but the logs of what went to SQLite and the last
/// command is as it was.
pub open spec fn same_but_logs_and_message(o: Database, f: Database) -> bool {
    &&& f.connection == o.connection
    &&& f.header_idx == o.header_idx
    &&& f.order_column == o.order_column
    &&& f.is_asc_order == o.is_asc_order
    &&& f.current_table_idx == o.current_table_idx
    &&& f.slice == o.slice
    &&& f.input == o.input
    &&& f.character_index == o.character_index
    &&& f.queued_command == o.queued_command
    &&& f.input_mode_state_machine == o.input_mode_state_machine
    &&& f.fetched == o.fetched
    &&& f.sql_functions == o.sql_functions
}

/// What a queued command read before it handed a statement to SQLite: for a command
/// on the current column, `header` is that column as it was read; for a command on
/// the current table, `table_name` is its name as it was read last.
pub open spec fn queued_reads(
    command: Command,
    o: Seq<SqlExchange>,
    f: Seq<SqlExchange>,
    rowid: u16,
    header_idx: u16,
    header: Seq<char>,
    table_name: Seq<char>,
) -> bool {
    match command {
        Command::RegexTransform => exists|mid: Seq<SqlExchange>, t: Seq<char>, hs: Seq<Seq<char>>|
            #![trigger read_column(o, mid, rowid, header_idx, t, hs), read_name(mid, f, rowid, table_name)]
            read_column(o, mid, rowid, header_idx, t, hs) && header == hs[header_idx as int]
                && read_name(mid, f, rowid, table_name),
        Command::RenameColumn => exists|hs: Seq<Seq<char>>|
            #[trigger] read_column(o, f, rowid, header_idx, table_name, hs) && header == hs[header_idx as int],
        Command::RenameTable => read_name(o, f, rowid, table_name),
        Command::MathOperation => read_name(o, f, rowid, table_name),
        _ => true,
    }
}

/// The tables, the logs of what went to SQLite and the position in the tables are
/// as they were.
pub open spec fn same_tables(o: Database, f: Database) -> bool {
    &&& f.connection == o.connection
    &&& f.sent == o.sent
    &&& f.log == o.log
    &&& f.fetched == o.fetched
    &&& f.current_table_idx == o.current_table_idx
    &&& f.header_idx == o.header_idx
}

/// What handing the input to the waiting command does: the input is emptied, and a
/// waiting command gets it as its next input, editing ending with its last input.
pub open spec fn spec_submit_effect(o: Database, f: Database) -> bool {
    &&& same_tables(o, f)
    &&& f.input@.len() == 0
    &&& f.character_index == 0
    &&& f.last_command == o.last_command
    &&& match o.queued_command {
        Some(q) => {
            &&& f.queued_command matches Some(q2)
            &&& q2.command == q.command
            &&& q2.inputs@.len() == q.inputs@.len() + 1
            &&& q2.inputs@.drop_last() == q.inputs@
            &&& q2.inputs@.last()@ == o.input@
            &&& f.input_mode_state_machine.mode() == if waits_for_second_input(
                q.command,
                q.inputs@.len(),
                o.input@,
            ) {
                InputMode::Editing
            } else {
                InputMode::Finish
            }
        },
        None => {
            &&& f.queued_command is None
            &&& f.input_mode_state_machine == o.input_mode_state_machine
        },
    }
}

/// Whether a regex transform with these inputs replaces the match by a
/// transformation: its pattern has a capture group and a second, non-empty input
/// gives the transformation.
pub open spec fn uses_capture_transform(inputs: Seq<String>) -> bool {
    &&& inputs.len() > 1
    &&& regex_is_valid(inputs[0]@)
    &&& regex_capture_slots(inputs[0]@) > 1
    &&& inputs[1]@.len() > 0
}

/// The statements of a regex transform with these inputs on column `header` of
/// table `table_name`.
pub open spec fn spec_transform_statement(inputs: Seq<String>, header: Seq<char>, table_name: Seq<char>) -> Seq<char> {
    if uses_capture_transform(inputs) {
        spec_regex_with_capture_group_transform_query(header, inputs[0]@, inputs[1]@, table_name)
    } else {
        spec_regex_no_capture_group_transform_query(header, inputs[0]@, table_name)
    }
}

/// A regex transform replaces the first match by the transformation exactly when
/// the pattern has a capture group (besides group 0, the whole match) and a second,
/// non-empty input is given; otherwise it keeps the first match.
pub proof fn lemma_transform_uses_capture_groups(inputs: Seq<String>, header: Seq<char>, table_name: Seq<char>)
    requires
        inputs.len() > 0,
        regex_is_valid(inputs[0]@),
    ensures
        inputs.len() > 1 && regex_capture_slots(inputs[0]@) >= 2 && inputs[1]@.len() > 0
            ==> spec_transform_statement(inputs, header, table_name)
            == spec_regex_with_capture_group_transform_query(header, inputs[0]@, inputs[1]@, table_name),
        inputs.len() <= 1 || regex_capture_slots(inputs[0]@) < 2 || inputs[1]@.len() == 0
            ==> spec_transform_statement(inputs, header, table_name)
            == spec_regex_no_capture_group_transform_query(header, inputs[0]@, table_name),
{
}

/// The statements that a queued command may hand to SQLite, on column `header` of
/// table `table_name`; `None` for a command that changes no table by a statement.
pub open spec fn spec_queued_statement(command: Command, inputs: Seq<String>, header: Seq<char>, table_name: Seq<char>) -> Option<Seq<char>> {
    if inputs.len() == 0 {
        None
    } else {
        match command {
            Command::RegexTransform => Some(spec_transform_statement(inputs, header, table_name)),
            Command::SqlQuery => Some(inputs[0]@),
            Command::RenameColumn => Some(spec_rename_column_query(table_name, header, inputs[0]@)),
            Command::RenameTable => Some(spec_rename_table_query(table_name, inputs[0]@)),
            Command::MathOperation => Some(spec_math_operation_query(table_name, inputs[0]@)),
            _ => None,
        }
    }
}

/// `ci`, but no more than `len`.
pub open spec fn clamp_to(ci: int, len: int) -> int {
    if ci > len {
        len
    } else {
        ci
    }
}

/// The input and cursor after typing `c` at cursor `ci` (a character position,
/// past the end meaning the end).
pub open spec fn spec_insert_char(input: Seq<char>, ci: usize, c: char) -> (Seq<char>, usize) {
    let k = clamp_to(ci as int, input.len() as int);
    let next = input.take(k).push(c) + input.skip(k);
    (next, clamp_to(if ci == usize::MAX { ci as int } else { ci + 1 }, next.len() as int) as usize)
}

/// The input and cursor after deleting the character before cursor `ci`.
pub open spec fn spec_delete_char(input: Seq<char>, ci: usize) -> (Seq<char>, usize) {
    if ci == 0 {
        (input, ci)
    } else {
        let next = input.take(clamp_to(ci - 1, input.len() as int)) + input.skip(
            clamp_to(ci as int, input.len() as int),
        );
        (next, clamp_to(ci - 1, next.len() as int) as usize)
    }
}

/// Typing a character and deleting it again gives back the input and the cursor,
/// when the cursor was within the input.
pub proof fn lemma_insert_then_delete(input: Seq<char>, ci: usize, c: char)
    requires
        ci <= input.len(),
        ci < usize::MAX,
    ensures
        ({
            let (typed, ci2) = spec_insert_char(input, ci, c);
            spec_delete_char(typed, ci2) == (input, ci)
        }),
{
    let (typed, ci2) = spec_insert_char(input, ci, c);
    assert(ci2 == ci + 1);
    assert(typed.take(ci as int) =~= input.take(ci as int));
    assert(typed.skip(ci + 1) =~= input.skip(ci as int));
    assert(input.take(ci as int) + input.skip(ci as int) =~= input);
}

/// Every editing step keeps the cursor within the input.
pub proof fn lemma_editing_keeps_cursor_in_input(input: Seq<char>, ci: usize, c: char)
    requires
        ci <= input.len(),
    ensures
        spec_insert_char(input, ci, c).1 <= spec_insert_char(input, ci, c).0.len(),
        spec_delete_char(input, ci).1 <= spec_delete_char(input, ci).0.len(),
{
}

/// Whether the event is Control-C, which aborts the input.
pub open spec fn is_abort_key(event: TerminalEvent) -> bool {
    match event {
        TerminalEvent::Key(k) => k.control && k.code == KeyCode::Char('c'),
        TerminalEvent::Other => false,
    }
}

/// The key of a press that is not Control-C.
pub open spec fn pressed_key(event: TerminalEvent) -> Option<KeyCode> {
    match event {
        TerminalEvent::Key(k) => if k.press && !is_abort_key(event) {
            Some(k.code)
        } else {
            None
        },
        TerminalEvent::Other => None,
    }
}

/// The character that a press types into the input.
pub open spec fn typed_char(event: TerminalEvent) -> Option<char> {
    match pressed_key(event) {
        Some(KeyCode::Char(c)) => Some(c),
        _ => None,
    }
}

/// The step that the mode of the input line calls for.
pub open spec fn spec_step(mode: InputMode, has_queued: bool) -> Step {
    match mode {
        InputMode::Finish => Step::ExecuteQueued,
        InputMode::Editing => if has_queued {
            Step::ReadEditingKey
        } else {
            Step::EditingWithoutCommand
        },
        InputMode::Normal => Step::ReadNormalKey,
        InputMode::Abort => Step::ResetAborted,
        InputMode::ExternalEditor => Step::ExternalEditor,
    }
}

impl Controller {
    pub fn new(database: Database) -> (c: Self)
        ensures
            c.database == database,
    {
        Self { database }
    }

    /// The character position of the cursor, within the input.
    pub fn clamp_cursor(&self, new_cursor_pos: usize) -> (r: usize)
        ensures
            r == clamp_to(new_cursor_pos as int, self.database.input@.len() as int),
    {
        let count = self.database.input.as_str().unicode_len();
        if new_cursor_pos > count {
            count
        } else {
            new_cursor_pos
        }
    }

    /// The byte position of the cursor in the input (its end, past the last
    /// character).
    pub fn byte_index(&self) -> (r: usize)
        ensures
            r == vstd::utf8::encode_utf8(
                self.database.input@.take(
                    clamp_to(self.database.character_index as int, self.database.input@.len() as int),
                ),
            ).len() as usize,
    {
        let k = self.clamp_cursor(self.database.character_index);
        let s = self.database.input.as_str();
        let before = s.substring_char(0, k);
        assert(before@ =~= self.database.input@.take(k as int));
        before.len()
    }

    /// Moves the cursor one character right, but not past the end of the input.
    pub fn move_cursor_right(&mut self)
        ensures
            final(self).database.character_index == clamp_to(
                if old(self).database.character_index == usize::MAX {
                    usize::MAX as int
                } else {
                    old(self).database.character_index + 1
                },
                old(self).database.input@.len() as int,
            ),
            final(self).database.input@ == old(self).database.input@,
            final(self).database.queued_command == old(self).database.queued_command,
            final(self).database.input_mode_state_machine
                == old(self).database.input_mode_state_machine,
            final(self).database.last_command == old(self).database.last_command,
            same_tables(old(self).database, final(self).database),
    {
        let cursor_moved_right = self.database.character_index.saturating_add(1);
        self.database.character_index = self.clamp_cursor(cursor_moved_right);
    }

    /// Moves the cursor one character left, but not past the end of the input.
    pub fn move_cursor_left(&mut self)
        ensures
            final(self).database.character_index == clamp_to(
                if old(self).database.character_index == 0 {
                    0
                } else {
                    old(self).database.character_index - 1
                },
                old(self).database.input@.len() as int,
            ),
            final(self).database.input@ == old(self).database.input@,
            final(self).database.queued_command == old(self).database.queued_command,
            final(self).database.input_mode_state_machine
                == old(self).database.input_mode_state_machine,
            final(self).database.last_command == old(self).database.last_command,
            same_tables(old(self).database, final(self).database),
    {
        let cursor_moved_left = self.database.character_index.saturating_sub(1);
        self.database.character_index = self.clamp_cursor(cursor_moved_left);
    }

    /// Types `new_char` at the cursor and moves the cursor after it.
    pub fn enter_char(&mut self, new_char: char)
        ensures
            (final(self).database.input@, final(self).database.character_index) == spec_insert_char(
                old(self).database.input@,
                old(self).database.character_index,
                new_char,
            ),
            final(self).database.queued_command == old(self).database.queued_command,
            final(self).database.input_mode_state_machine
                == old(self).database.input_mode_state_machine,
            final(self).database.last_command == old(self).database.last_command,
            same_tables(old(self).database, final(self).database),
    {
        let k = self.clamp_cursor(self.database.character_index);
        let count = self.database.input.as_str().unicode_len();
        let mut next = String::from_str(self.database.input.as_str().substring_char(0, k));
        push_char(&mut next, new_char);
        next.append(self.database.input.as_str().substring_char(k, count));
        proof {
            assert(self.database.input@.subrange(0, k as int) =~= self.database.input@.take(k as int));
            assert(self.database.input@.subrange(k as int, count as int) =~= self.database.input@.skip(
                k as int,
            ));
        }
        self.database.input = next;
        self.move_cursor_right();
    }

    /// Deletes the character before the cursor, and moves the cursor onto its place.
    pub fn delete_char(&mut self)
        ensures
            (final(self).database.input@, final(self).database.character_index) == spec_delete_char(
                old(self).database.input@,
                old(self).database.character_index,
            ),
            final(self).database.queued_command == old(self).database.queued_command,
            final(self).database.input_mode_state_machine
                == old(self).database.input_mode_state_machine,
            final(self).database.last_command == old(self).database.last_command,
            same_tables(old(self).database, final(self).database),
    {
        let is_not_cursor_leftmost = self.database.character_index != 0;
        if is_not_cursor_leftmost {
            let current_index = self.database.character_index;
            let count = self.database.input.as_str().unicode_len();
            let before_end = if current_index - 1 > count {
                count
            } else {
                current_index - 1
            };
            let after_start = if current_index > count {
                count
            } else {
                current_index
            };
            let mut next = String::from_str(
                self.database.input.as_str().substring_char(0, before_end),
            );
            next.append(self.database.input.as_str().substring_char(after_start, count));
            proof {
                assert(self.database.input@.subrange(0, before_end as int) =~= self.database.input@.take(
                    before_end as int,
                ));
                assert(self.database.input@.subrange(after_start as int, count as int)
                    =~= self.database.input@.skip(after_start as int));
            }
            self.database.input = next;
            self.move_cursor_left();
        }
    }

    /// Empties the input and puts the cursor at its start.
    pub fn reset_input(&mut self)
        ensures
            final(self).database.input@.len() == 0,
            final(self).database.character_index == 0,
            final(self).database.queued_command == old(self).database.queued_command,
            final(self).database.input_mode_state_machine
                == old(self).database.input_mode_state_machine,
            final(self).database.last_command == old(self).database.last_command,
            same_tables(old(self).database, final(self).database),
    {
        self.database.input = String::new();
        self.reset_cursor();
    }

    /// Puts the cursor at the start of the input.
    pub fn reset_cursor(&mut self)
        ensures
            final(self).database.character_index == 0,
            final(self).database.input@ == old(self).database.input@,
            final(self).database.queued_command == old(self).database.queued_command,
            final(self).database.input_mode_state_machine
                == old(self).database.input_mode_state_machine,
            final(self).database.last_command == old(self).database.last_command,
            same_tables(old(self).database, final(self).database),
    {
        self.database.character_index = 0;
    }

    /// Hands the input to the waiting command and empties it. A regex transform
    /// whose pattern has a capture group takes a second input, the transformation;
    /// editing ends with the last input of the command.
    pub fn submit_message(&mut self)
        requires
            old(self).database.input_mode_state_machine.mode() == InputMode::Editing,
        ensures
            spec_submit_effect(old(self).database, final(self).database),
    {
        let ghost old_input = self.database.input@;
        let mut queued = self.database.queued_command.take();
        if let Some(mut q) = queued {
            let waits = q.command == Command::RegexTransform && q.inputs.len() == 0 && match capture_group_slots(
                self.database.input.as_str(),
            ) {
                Ok(n) => n > 1,
                Err(_) => false,
            };
            if !waits {
                let _ = self.database.input_mode_state_machine.transition(Event::FinishEditing);
            }
            let ghost old_inputs = q.inputs@;
            q.inputs.push(self.database.input.clone());
            proof {
                assert(q.inputs@.drop_last() =~= old_inputs);
            }
            self.database.queued_command = Some(q);
        }
        self.reset_input();
    }

    /// Handles a key while the user types the input of a command.
    pub fn handle_editing_event(&mut self, event: TerminalEvent) -> (r: AppResult<EditingOutcome>)
        requires
            old(self).database.input_mode_state_machine.mode() == InputMode::Editing,
        ensures
            final(self).database.last_command == old(self).database.last_command,
            same_tables(old(self).database, final(self).database),
            r matches Ok(EditingOutcome::OpenExternalEditor)
                ==> final(self).database.input_mode_state_machine.mode() == InputMode::ExternalEditor,
            is_abort_key(event) ==> r == Ok::<EditingOutcome, AppError>(EditingOutcome::Done)
                && final(self).database.input_mode_state_machine.mode() == InputMode::Abort
                && final(self).database.input@.len() == 0,
            typed_char(event) matches Some(c) ==> (
                final(self).database.input@,
                final(self).database.character_index,
            ) == spec_insert_char(old(self).database.input@, old(self).database.character_index, c),
            pressed_key(event) == Some(KeyCode::Backspace) ==> (
                final(self).database.input@,
                final(self).database.character_index,
            ) == spec_delete_char(old(self).database.input@, old(self).database.character_index),
            pressed_key(event) == Some(KeyCode::Esc) ==> r == Ok::<EditingOutcome, AppError>(EditingOutcome::Done)
                && final(self).database.input_mode_state_machine.mode() == InputMode::Abort
                && final(self).database.input@.len() == 0,
            is_abort_key(event) || pressed_key(event) == Some(KeyCode::Esc) ==> final(self).database.character_index == 0
                && final(self).database.queued_command == old(self).database.queued_command,
            pressed_key(event) == Some(KeyCode::Enter) ==> r == Ok::<EditingOutcome, AppError>(EditingOutcome::Done)
                && spec_submit_effect(old(self).database, final(self).database),
            pressed_key(event) == Some(KeyCode::Left) ==> r == Ok::<EditingOutcome, AppError>(EditingOutcome::Done)
                && final(self).database.input@ == old(self).database.input@
                && final(self).database.character_index == clamp_to(
                if old(self).database.character_index == 0 {
                    0
                } else {
                    old(self).database.character_index - 1
                },
                old(self).database.input@.len() as int,
            ),
            pressed_key(event) == Some(KeyCode::Right) ==> r == Ok::<EditingOutcome, AppError>(EditingOutcome::Done)
                && final(self).database.input@ == old(self).database.input@
                && final(self).database.character_index == clamp_to(
                if old(self).database.character_index == usize::MAX {
                    usize::MAX as int
                } else {
                    old(self).database.character_index + 1
                },
                old(self).database.input@.len() as int,
            ),
            pressed_key(event) == Some(KeyCode::Tab) ==> r == Ok::<EditingOutcome, AppError>(EditingOutcome::OpenExternalEditor)
                && final(self).database.input@ == old(self).database.input@,
            typed_char(event) is Some || pressed_key(event) == Some(KeyCode::Backspace) ==> r
                == Ok::<EditingOutcome, AppError>(EditingOutcome::Done) && final(self).database.queued_command
                == old(self).database.queued_command && final(self).database.input_mode_state_machine
                == old(self).database.input_mode_state_machine,
            event is Other ==> r == Ok::<EditingOutcome, AppError>(EditingOutcome::Done)
                && final(self).database.input@ == old(self).database.input@
                && final(self).database.character_index == old(self).database.character_index
                && final(self).database.queued_command == old(self).database.queued_command
                && final(self).database.input_mode_state_machine
                == old(self).database.input_mode_state_machine,
    {
        if let TerminalEvent::Key(key) = event {
            if key.control {
                if let KeyCode::Char('c') = key.code {
                    self.transition(Event::AbortEditing)?;
                    self.reset_input();
                    return Ok(EditingOutcome::Done);
                }
            }
            if key.press {
                match key.code {
                    KeyCode::Enter => self.submit_message(),
                    KeyCode::Char(to_insert) => {
                        self.enter_char(to_insert);
                    },
                    KeyCode::Backspace => {
                        self.delete_char();
                    },
                    KeyCode::Left => {
                        self.move_cursor_left();
                    },
                    KeyCode::Right => {
                        self.move_cursor_right();
                    },
                    KeyCode::Esc => {
                        self.transition(Event::AbortEditing)?;
                        self.reset_input();
                    },
                    KeyCode::Tab => {
                        self.transition(Event::UseExternalEditor)?;
                        return Ok(EditingOutcome::OpenExternalEditor);
                    },
                    _ => {},
                }
            }
        }
        Ok(EditingOutcome::Done)
    }

    /// Takes back the text from the external editor (nothing where it failed), with
    /// the cursor at its byte length, and returns to editing.
    pub fn finish_external_editor(&mut self, data: Option<String>) -> (r: AppResult<()>)
        ensures
            next_mode(old(self).database.input_mode_state_machine.mode(), Event::ExitExternalEditor)
                is Some ==> r is Ok && final(self).database.input_mode_state_machine.mode()
                == InputMode::Editing,
            data matches Some(d) ==> final(self).database.input@ == d@
                && final(self).database.character_index == vstd::utf8::encode_utf8(d@).len() as usize,
            data is None ==> final(self).database.input@ == old(self).database.input@
                && final(self).database.character_index == old(self).database.character_index,
    {
        if let Some(data) = data {
            self.database.character_index = data.as_str().len();
            self.database.input = data;
        }
        self.transition(Event::ExitExternalEditor)
    }

    /// Moves the input line's state machine, turning a refused change into an error.
    fn transition(&mut self, event: Event) -> (r: AppResult<()>)
        ensures
            match next_mode(old(self).database.input_mode_state_machine.mode(), event) {
                Some(next) => r is Ok && final(self).database.input_mode_state_machine.mode() == next,
                None => r is Err && final(self).database.input_mode_state_machine.mode()
                    == old(self).database.input_mode_state_machine.mode(),
            },
            final(self).database.input@ == old(self).database.input@,
            final(self).database.character_index == old(self).database.character_index,
            final(self).database.queued_command == old(self).database.queued_command,
            final(self).database.last_command == old(self).database.last_command,
            same_tables(old(self).database, final(self).database),
    {
        match self.database.input_mode_state_machine.transition(event) {
            Ok(()) => Ok(()),
            Err(msg) => Err(AppError::Other(String::from_str(msg))),
        }
    }

    /// What has to happen next, by the mode of the input line.
    pub fn next_step(&self) -> (s: Step)
        ensures
            s == spec_step(
                self.database.input_mode_state_machine.mode(),
                self.database.queued_command is Some,
            ),
    {
        match self.database.input_mode_state_machine.get_state() {
            InputMode::Finish => Step::ExecuteQueued,
            InputMode::Editing => if self.database.queued_command.is_some() {
                Step::ReadEditingKey
            } else {
                Step::EditingWithoutCommand
            },
            InputMode::Normal => Step::ReadNormalKey,
            InputMode::Abort => Step::ResetAborted,
            InputMode::ExternalEditor => Step::ExternalEditor,
        }
    }

    /// Whether the last command was to quit.
    pub fn should_quit(&self) -> (b: bool)
        ensures
            b == (self.database.last_command.command == Command::Quit),
    {
        self.database.last_command.command == Command::Quit
    }

    /// The header and the first `limit` rows of the current table: the page that is
    /// kept on screen, which is fetched again only where it was marked as changed.
    pub fn get_headers_and_rows(&mut self, limit: u32) -> (r: AppResult<DataTable>)
        ensures
            same_editing_state(&final(self).database, &old(self).database),
            final(self).database.header_idx == old(self).database.header_idx,
            final(self).database.current_table_idx == old(self).database.current_table_idx,
            final(self).database.slice.table_state == old(self).database.slice.table_state,
            final(self).database.slice.row_offset == old(self).database.slice.row_offset,
            final(self).database.slice.is_unchanged == old(self).database.slice.is_unchanged,
            r matches Ok(t) ==> string_views(t.0@) == string_views(final(self).database.slice.headers@)
                && row_views(t.1@) == row_views(final(self).database.slice.data_rows@),
            old(self).database.slice.is_unchanged || r is Err ==> final(self).database.slice.headers@
                == old(self).database.slice.headers@ && final(self).database.slice.data_rows@
                == old(self).database.slice.data_rows@,
            !old(self).database.slice.is_unchanged && r is Ok ==> exists|t: Seq<char>|
                #[trigger] name_exchange(old(self).database.current_table_idx, t)
                    == final(self).database.log@[old(self).database.log@.len() as int]
                    && final(self).database.log@.len() > old(self).database.log@.len()
                    && final(self).database.fetched@.0 == spec_page_query(
                    t,
                    old(self).database.order_column@,
                    old(self).database.is_asc_order,
                    limit as nat,
                    0,
                ),
    {
        let first_table = self.database.get_current_table_name()?;
        let ghost k = old(self).database.log@.len() as int;
        let ghost m0 = self.database.log@;
        proof {
            assert(m0[k] == name_exchange(old(self).database.current_table_idx, first_table@));
        }
        let ghost name = first_table@;
        let res = self.database.get(limit, 0, first_table);
        proof {
            if !old(self).database.slice.is_unchanged && res is Ok {
                assert(self.database.log@[k] == m0[k]);
                assert(name_exchange(old(self).database.current_table_idx, name)
                    == self.database.log@[k]);
            }
        }
        res
    }

    /// Keeps, in a new table, the rows whose current column matches the pattern in
    /// `inputs[0]`, and moves to it. An invalid pattern is refused before anything
    /// is read.
    pub fn regex_filter(&mut self, inputs: Vec<String>) -> (r: AppResult<()>)
        ensures
            final(self).database.sent == old(self).database.sent,
            same_editing_state(&final(self).database, &old(self).database),
            inputs@.len() == 0 ==> r is Err && final(self).database == old(self).database,
            inputs@.len() > 0 && !regex_is_valid(inputs@[0]@) ==> (r matches Err(e) && e is Regex)
                && final(self).database == old(self).database,
            r is Ok ==> exists|mid: Seq<SqlExchange>, t: Seq<char>, hs: Seq<Seq<char>>, t2: Seq<char>, n: i64|
                #![trigger read_column(old(self).database.log@, mid, old(self).database.current_table_idx, old(self).database.header_idx, t, hs), filtered_into_new_table(mid, final(self).database.log@, old(self).database.current_table_idx, t2, hs[old(self).database.header_idx as int], inputs@[0]@, n)]
                read_column(
                    old(self).database.log@,
                    mid,
                    old(self).database.current_table_idx,
                    old(self).database.header_idx,
                    t,
                    hs,
                ) && filtered_into_new_table(
                    mid,
                    final(self).database.log@,
                    old(self).database.current_table_idx,
                    t2,
                    hs[old(self).database.header_idx as int],
                    inputs@[0]@,
                    n,
                ) && final(self).database.current_table_idx == n,
    {
        let pattern = first_input(&inputs)?;
        validate_regex(pattern.as_str())?;
        let ghost o = self.database.log@;
        let header = self.database.get_current_header()?;
        let ghost mid = self.database.log@;
        self.database.regex_filter(header.as_str(), pattern.as_str())?;
        proof {
            let (t, hs) = choose|t: Seq<char>, hs: Seq<Seq<char>>|
                #[trigger] read_column(
                    o,
                    mid,
                    old(self).database.current_table_idx,
                    old(self).database.header_idx,
                    t,
                    hs,
                ) && header@ == hs[old(self).database.header_idx as int];
            let (t2, n) = choose|t2: Seq<char>, n: i64|
                #[trigger] filtered_into_new_table(
                    mid,
                    self.database.log@,
                    old(self).database.current_table_idx,
                    t2,
                    header@,
                    pattern@,
                    n,
                ) && self.database.current_table_idx == n;
            assert(read_column(
                o,
                mid,
                old(self).database.current_table_idx,
                old(self).database.header_idx,
                t,
                hs,
            ) && filtered_into_new_table(
                mid,
                self.database.log@,
                old(self).database.current_table_idx,
                t2,
                hs[old(self).database.header_idx as int],
                inputs@[0]@,
                n,
            ));
        }
        Ok(())
    }

    /// Derives a column from the current one with the pattern in `inputs[0]`: where
    /// the pattern has capture groups and `inputs[1]` is a transformation that is not
    /// empty, the first match is replaced by it; otherwise the first match is kept.
    /// An invalid pattern is refused before anything is read.
    pub fn regex_transform(&mut self, inputs: Vec<String>) -> (r: AppResult<()>)
        ensures
            same_but_logs(old(self).database, final(self).database),
            same_editing_state(&final(self).database, &old(self).database),
            inputs@.len() == 0 ==> r is Err && final(self).database == old(self).database,
            inputs@.len() > 0 && !regex_is_valid(inputs@[0]@) ==> (r matches Err(e) && e is Regex)
                && final(self).database == old(self).database,
            final(self).database.sent@ == old(self).database.sent@ || exists|
                mid: Seq<SqlExchange>,
                t: Seq<char>,
                hs: Seq<Seq<char>>,
                t2: Seq<char>,
            |
                #![trigger read_column(old(self).database.log@, mid, old(self).database.current_table_idx, old(self).database.header_idx, t, hs), read_name(mid, final(self).database.log@, old(self).database.current_table_idx, t2)]
                read_column(
                    old(self).database.log@,
                    mid,
                    old(self).database.current_table_idx,
                    old(self).database.header_idx,
                    t,
                    hs,
                ) && read_name(mid, final(self).database.log@, old(self).database.current_table_idx, t2)
                    && sent_tried(
                    old(self).database.sent@,
                    final(self).database.sent@,
                    spec_transform_statement(inputs@, hs[old(self).database.header_idx as int], t2),
                ),
            r is Ok ==> exists|mid: Seq<SqlExchange>, t: Seq<char>, hs: Seq<Seq<char>>, t2: Seq<char>|
                #![trigger read_column(old(self).database.log@, mid, old(self).database.current_table_idx, old(self).database.header_idx, t, hs), read_name(mid, final(self).database.log@, old(self).database.current_table_idx, t2)]
                read_column(
                    old(self).database.log@,
                    mid,
                    old(self).database.current_table_idx,
                    old(self).database.header_idx,
                    t,
                    hs,
                ) && read_name(mid, final(self).database.log@, old(self).database.current_table_idx, t2)
                    && sent_after(
                    old(self).database.sent@,
                    final(self).database.sent@,
                    spec_transform_statement(inputs@, hs[old(self).database.header_idx as int], t2),
                ),
    {
        let pattern = first_input(&inputs)?;
        let slots = capture_group_slots(pattern.as_str())?;
        let contains_capture_pattern = slots > 1;
        let ghost o = self.database.log@;
        let header = self.database.get_current_header()?;
        let ghost mid = self.database.log@;
        let ghost old_sent = self.database.sent@;
        let ghost idx = old(self).database.current_table_idx;
        let ghost hidx = old(self).database.header_idx;
        proof {
            assert(read_current_header(o, mid, idx, hidx, header@));
        }
        if inputs.len() > 1 {
            let transformation = &inputs[1];
            if contains_capture_pattern && !transformation.as_str().is_empty() {
                let res = self.database.regex_capture_group_transform(
                    pattern.as_str(),
                    header.as_str(),
                    transformation.as_str(),
                );
                proof {
                    assert(uses_capture_transform(inputs@));
                    let (t, hs) = choose|t: Seq<char>, hs: Seq<Seq<char>>|
                        #[trigger] read_column(o, mid, idx, hidx, t, hs) && header@ == hs[hidx as int];
                    if res is Ok {
                        let t2 = choose|t2: Seq<char>|
                            #[trigger] read_name(mid, self.database.log@, idx, t2) && sent_after(
                                old_sent,
                                self.database.sent@,
                                spec_regex_with_capture_group_transform_query(header@, pattern@, transformation@, t2),
                            );
                        assert(read_column(o, mid, idx, hidx, t, hs) && read_name(mid, self.database.log@, idx, t2));
                    } else if self.database.sent@ != old_sent {
                        let t2 = choose|t2: Seq<char>|
                            #[trigger] read_name(mid, self.database.log@, idx, t2) && sent_tried(
                                old_sent,
                                self.database.sent@,
                                spec_regex_with_capture_group_transform_query(header@, pattern@, transformation@, t2),
                            );
                        assert(read_column(o, mid, idx, hidx, t, hs) && read_name(mid, self.database.log@, idx, t2));
                    }
                }
                res?;
                return Ok(());
            }
        }
        let res = self.database.regex_no_capture_group_transform(pattern.as_str(), header.as_str());
        proof {
            assert(!uses_capture_transform(inputs@));
            let (t, hs) = choose|t: Seq<char>, hs: Seq<Seq<char>>|
                #[trigger] read_column(o, mid, idx, hidx, t, hs) && header@ == hs[hidx as int];
            if res is Ok {
                let t2 = choose|t2: Seq<char>|
                    #[trigger] read_name(mid, self.database.log@, idx, t2) && sent_after(
                        old_sent,
                        self.database.sent@,
                        spec_regex_no_capture_group_transform_query(header@, pattern@, t2),
                    );
                assert(read_column(o, mid, idx, hidx, t, hs) && read_name(mid, self.database.log@, idx, t2));
            } else if self.database.sent@ != old_sent {
                let t2 = choose|t2: Seq<char>|
                    #[trigger] read_name(mid, self.database.log@, idx, t2) && sent_tried(
                        old_sent,
                        self.database.sent@,
                        spec_regex_no_capture_group_transform_query(header@, pattern@, t2),
                    );
                assert(read_column(o, mid, idx, hidx, t, hs) && read_name(mid, self.database.log@, idx, t2));
            }
        }
        res?;
        Ok(())
    }

    /// Adds a copy of the current column.
    pub fn copy(&mut self) -> (r: AppResult<()>)
        ensures
            same_but_logs_and_message(old(self).database, final(self).database),
            final(self).database.sent@ == old(self).database.sent@ || exists|t: Seq<char>, hs: Seq<Seq<char>>|
                #[trigger] read_column(
                    old(self).database.log@,
                    final(self).database.log@,
                    old(self).database.current_table_idx,
                    old(self).database.header_idx,
                    t,
                    hs,
                ) && sent_tried(
                    old(self).database.sent@,
                    final(self).database.sent@,
                    spec_copy_column_query(t, hs[old(self).database.header_idx as int]),
                ),
            r is Ok ==> exists|t: Seq<char>, hs: Seq<Seq<char>>|
                #[trigger] read_column(
                    old(self).database.log@,
                    final(self).database.log@,
                    old(self).database.current_table_idx,
                    old(self).database.header_idx,
                    t,
                    hs,
                ) && sent_after(
                    old(self).database.sent@,
                    final(self).database.sent@,
                    spec_copy_column_query(t, hs[old(self).database.header_idx as int]),
                ),
            final(self).database.input@ == old(self).database.input@,
            final(self).database.queued_command == old(self).database.queued_command,
            final(self).database.input_mode_state_machine
                == old(self).database.input_mode_state_machine,
            r is Ok ==> final(self).database.last_command.command == Command::Copy
                && final(self).database.last_command.message is None,
            r is Err ==> final(self).database.last_command == old(self).database.last_command,
    {
        self.database.copy()?;
        self.database.last_command = PreviousCommand::new(Command::Copy, None);
        proof {
            let (t, hs) = choose|t: Seq<char>, hs: Seq<Seq<char>>|
                #[trigger] read_column(
                    old(self).database.log@,
                    self.database.log@,
                    old(self).database.current_table_idx,
                    old(self).database.header_idx,
                    t,
                    hs,
                ) && sent_after(
                    old(self).database.sent@,
                    self.database.sent@,
                    spec_copy_column_query(t, hs[old(self).database.header_idx as int]),
                );
            assert(read_column(
                old(self).database.log@,
                self.database.log@,
                old(self).database.current_table_idx,
                old(self).database.header_idx,
                t,
                hs,
            ));
        }
        Ok(())
    }

    /// Sets the selected cell of the current column to `inputs[0]`: the current
    /// column and the key of the selected row are read, the cell is read, and the
    /// update is handed to SQLite with the input and the key bound to it.
    pub fn edit_cell(&mut self, inputs: Vec<String>) -> (r: AppResult<()>)
        ensures
            same_but_logs(old(self).database, final(self).database),
            final(self).database.sent == old(self).database.sent,
            same_editing_state(&final(self).database, &old(self).database),
            inputs@.len() == 0 ==> r is Err,
            r is Ok ==> inputs@.len() > 0 && cell_edited(
                old(self).database.log@,
                final(self).database.log@,
                old(self).database.current_table_idx,
                old(self).database.header_idx,
                selected_index(old(self).database.slice.table_state.selected),
                inputs@[0]@,
            ),
    {
        let ghost o = self.database.log@;
        let ghost idx = self.database.current_table_idx;
        let ghost hidx = self.database.header_idx;
        let ghost sel = selected_index(self.database.slice.table_state.selected);
        let header = self.database.get_current_header()?;
        let ghost m1 = self.database.log@;
        let id = self.database.get_current_id()?;
        let ghost m2 = self.database.log@;
        let data = self.database.get_cell(id, header.as_str())?;
        let ghost m3 = self.database.log@;
        let edit_result = first_input(&inputs)?;
        let res = self.database.update_cell(header.as_str(), id, edit_result.as_str());
        proof {
            if res is Ok {
                let (t2, n) = choose|t2: Seq<char>, n: i64|
                    #[trigger] row_id_read(m1, m2, idx, t2, sel, n) && id == n;
                let t4 = choose|t4: Seq<char>|
                    #[trigger] cell_update_sent(m3, self.database.log@, idx, t4, header@, id, edit_result@);
                assert(read_current_header(o, m1, idx, hidx, header@));
                assert(row_id_read(m1, m2, idx, t2, sel, n));
                assert(cell_answered(m2, m3, idx, header@, id, data@));
                assert(cell_update_sent(m3, self.database.log@, idx, t4, header@, id, inputs@[0]@));
                assert(cell_edited(o, self.database.log@, idx, hidx, sel, inputs@[0]@));
            }
        }
        res?;
        Ok(())
    }

    /// Sorts by the current column.
    pub fn sort(&mut self) -> (r: AppResult<()>)
        ensures
            same_editing_state(&final(self).database, &old(self).database),
            final(self).database.header_idx == old(self).database.header_idx,
            final(self).database.current_table_idx == old(self).database.current_table_idx,
            r is Ok ==> {
                &&& final(self).database.slice.table_state.selected == Some(0usize)
                &&& exists|t: Seq<char>, hs: Seq<Seq<char>>|
                    #[trigger] read_column(
                        old(self).database.log@,
                        final(self).database.log@,
                        old(self).database.current_table_idx,
                        old(self).database.header_idx,
                        t,
                        hs,
                    ) && (final(self).database.order_column@, final(self).database.is_asc_order)
                        == spec_sort_order(
                        old(self).database.order_column@,
                        old(self).database.is_asc_order,
                        hs[old(self).database.header_idx as int],
                    )
            },
            r is Err ==> final(self).database.order_column@ == old(self).database.order_column@
                && final(self).database.is_asc_order == old(self).database.is_asc_order,
    {
        self.database.sort()
    }

    /// Looks for the value in `inputs[0]` in the current column, on pages of
    /// `height` rows, and says whether it was found.
    pub fn exact_search(&mut self, inputs: Vec<String>, height: u32) -> (r: AppResult<()>)
        requires
            height >= 1,
        ensures
            final(self).database.sent == old(self).database.sent,
            final(self).database.input@ == old(self).database.input@,
            final(self).database.queued_command == old(self).database.queued_command,
            final(self).database.input_mode_state_machine
                == old(self).database.input_mode_state_machine,
            inputs@.len() == 0 ==> r is Err,
            r is Ok ==> final(self).database.last_command.command == Command::ExactSearch,
            r is Ok ==> (final(self).database.last_command.message matches Some(m) && (m@
                == "Match found"@ || m@ == "No match found"@)),
    {
        let pattern = first_input(&inputs)?;
        let header = self.database.get_current_header()?;
        match self.database.exact_search(header.as_str(), pattern.as_str(), height) {
            Ok(()) => {
                self.database.last_command = PreviousCommand::new(
                    Command::ExactSearch,
                    Some(String::from_str("Match found")),
                );
            },
            Err(_) => {
                self.database.last_command = PreviousCommand::new(
                    Command::ExactSearch,
                    Some(String::from_str("No match found")),
                );
            },
        }
        Ok(())
    }

    /// Adds a column holding the current column as integers.
    pub fn text_to_int(&mut self) -> (r: AppResult<()>)
        ensures
            same_but_logs_and_message(old(self).database, final(self).database),
            final(self).database.sent@ == old(self).database.sent@ || exists|t: Seq<char>, hs: Seq<Seq<char>>|
                #[trigger] read_column(
                    old(self).database.log@,
                    final(self).database.log@,
                    old(self).database.current_table_idx,
                    old(self).database.header_idx,
                    t,
                    hs,
                ) && sent_tried(
                    old(self).database.sent@,
                    final(self).database.sent@,
                    spec_convert_into(t, hs[old(self).database.header_idx as int], "INT"@),
                ),
            r is Ok ==> exists|t: Seq<char>, hs: Seq<Seq<char>>|
                #[trigger] read_column(
                    old(self).database.log@,
                    final(self).database.log@,
                    old(self).database.current_table_idx,
                    old(self).database.header_idx,
                    t,
                    hs,
                ) && sent_after(
                    old(self).database.sent@,
                    final(self).database.sent@,
                    spec_convert_into(t, hs[old(self).database.header_idx as int], "INT"@),
                ),
            final(self).database.input@ == old(self).database.input@,
            final(self).database.queued_command == old(self).database.queued_command,
            final(self).database.input_mode_state_machine
                == old(self).database.input_mode_state_machine,
            final(self).database.last_command.command == Command::TextToInt,
            final(self).database.last_command.message is None,
    {
        self.database.last_command = PreviousCommand::new(Command::TextToInt, None);
        self.database.text_to_int()
    }

    /// Adds a column holding the current column as text.
    pub fn int_to_text(&mut self) -> (r: AppResult<()>)
        ensures
            same_but_logs_and_message(old(self).database, final(self).database),
            final(self).database.sent@ == old(self).database.sent@ || exists|t: Seq<char>, hs: Seq<Seq<char>>|
                #[trigger] read_column(
                    old(self).database.log@,
                    final(self).database.log@,
                    old(self).database.current_table_idx,
                    old(self).database.header_idx,
                    t,
                    hs,
                ) && sent_tried(
                    old(self).database.sent@,
                    final(self).database.sent@,
                    spec_convert_into(t, hs[old(self).database.header_idx as int], "TEXT"@),
                ),
            r is Ok ==> exists|t: Seq<char>, hs: Seq<Seq<char>>|
                #[trigger] read_column(
                    old(self).database.log@,
                    final(self).database.log@,
                    old(self).database.current_table_idx,
                    old(self).database.header_idx,
                    t,
                    hs,
                ) && sent_after(
                    old(self).database.sent@,
                    final(self).database.sent@,
                    spec_convert_into(t, hs[old(self).database.header_idx as int], "TEXT"@),
                ),
            final(self).database.input@ == old(self).database.input@,
            final(self).database.queued_command == old(self).database.queued_command,
            final(self).database.input_mode_state_machine
                == old(self).database.input_mode_state_machine,
            final(self).database.last_command.command == Command::IntToText,
            final(self).database.last_command.message is None,
    {
        self.database.last_command = PreviousCommand::new(Command::IntToText, None);
        self.database.int_to_text()
    }

    /// Drops the current column.
    pub fn delete_column(&mut self) -> (r: AppResult<()>)
        ensures
            same_but_logs_and_message(old(self).database, final(self).database),
            final(self).database.sent@ == old(self).database.sent@ || exists|t: Seq<char>, hs: Seq<Seq<char>>|
                #[trigger] read_column(
                    old(self).database.log@,
                    final(self).database.log@,
                    old(self).database.current_table_idx,
                    old(self).database.header_idx,
                    t,
                    hs,
                ) && sent_tried(
                    old(self).database.sent@,
                    final(self).database.sent@,
                    spec_delete_column_query(t, hs[old(self).database.header_idx as int]),
                ),
            r is Ok ==> exists|t: Seq<char>, hs: Seq<Seq<char>>|
                #[trigger] read_column(
                    old(self).database.log@,
                    final(self).database.log@,
                    old(self).database.current_table_idx,
                    old(self).database.header_idx,
                    t,
                    hs,
                ) && sent_after(
                    old(self).database.sent@,
                    final(self).database.sent@,
                    spec_delete_column_query(t, hs[old(self).database.header_idx as int]),
                ),
            final(self).database.input@ == old(self).database.input@,
            final(self).database.queued_command == old(self).database.queued_command,
            final(self).database.input_mode_state_machine
                == old(self).database.input_mode_state_machine,
            r is Ok ==> final(self).database.last_command.command == Command::DeleteColumn,
    {
        let text = self.database.delete_column()?;
        self.database.last_command = PreviousCommand::new(Command::DeleteColumn, text);
        proof {
            let (t, hs) = choose|t: Seq<char>, hs: Seq<Seq<char>>|
                #[trigger] read_column(
                    old(self).database.log@,
                    self.database.log@,
                    old(self).database.current_table_idx,
                    old(self).database.header_idx,
                    t,
                    hs,
                ) && sent_after(
                    old(self).database.sent@,
                    self.database.sent@,
                    spec_delete_column_query(t, hs[old(self).database.header_idx as int]),
                );
            assert(read_column(
                old(self).database.log@,
                self.database.log@,
                old(self).database.current_table_idx,
                old(self).database.header_idx,
                t,
                hs,
            ));
        }
        Ok(())
    }

    /// Renames the current column to `inputs[0]`.
    pub fn rename_column(&mut self, inputs: Vec<String>) -> (r: AppResult<()>)
        ensures
            same_but_logs_and_message(old(self).database, final(self).database),
            inputs@.len() == 0 ==> final(self).database.sent == old(self).database.sent,
            final(self).database.sent@ == old(self).database.sent@ || exists|t: Seq<char>, hs: Seq<Seq<char>>|
                #[trigger] read_column(
                    old(self).database.log@,
                    final(self).database.log@,
                    old(self).database.current_table_idx,
                    old(self).database.header_idx,
                    t,
                    hs,
                ) && sent_tried(
                    old(self).database.sent@,
                    final(self).database.sent@,
                    spec_rename_column_query(t, hs[old(self).database.header_idx as int], inputs@[0]@),
                ),
            r is Ok ==> exists|t: Seq<char>, hs: Seq<Seq<char>>|
                #[trigger] read_column(
                    old(self).database.log@,
                    final(self).database.log@,
                    old(self).database.current_table_idx,
                    old(self).database.header_idx,
                    t,
                    hs,
                ) && sent_after(
                    old(self).database.sent@,
                    final(self).database.sent@,
                    spec_rename_column_query(t, hs[old(self).database.header_idx as int], inputs@[0]@),
                ),
            inputs@.len() == 0 ==> r is Err,
            r is Ok ==> final(self).database.last_command.command == Command::RenameColumn,
            r is Err ==> final(self).database.last_command == old(self).database.last_command,
    {
        let new_column = first_input(&inputs)?;
        let res = self.database.rename_column(new_column.as_str());
        if let Err(e) = res {
            proof {
                if self.database.sent@ != old(self).database.sent@ {
                    let (t, hs) = choose|t: Seq<char>, hs: Seq<Seq<char>>|
                        #[trigger] read_column(
                            old(self).database.log@,
                            self.database.log@,
                            old(self).database.current_table_idx,
                            old(self).database.header_idx,
                            t,
                            hs,
                        ) && sent_tried(
                            old(self).database.sent@,
                            self.database.sent@,
                            spec_rename_column_query(t, hs[old(self).database.header_idx as int], new_column@),
                        );
                    assert(new_column@ == inputs@[0]@);
                    assert(read_column(
                        old(self).database.log@,
                        self.database.log@,
                        old(self).database.current_table_idx,
                        old(self).database.header_idx,
                        t,
                        hs,
                    ));
                }
            }
            return Err(e);
        }
        self.database.last_command = PreviousCommand::new(Command::RenameColumn, None);
        proof {
            let (t, hs) = choose|t: Seq<char>, hs: Seq<Seq<char>>|
                #[trigger] read_column(
                    old(self).database.log@,
                    self.database.log@,
                    old(self).database.current_table_idx,
                    old(self).database.header_idx,
                    t,
                    hs,
                ) && sent_after(
                    old(self).database.sent@,
                    self.database.sent@,
                    spec_rename_column_query(t, hs[old(self).database.header_idx as int], new_column@),
                );
            assert(new_column@ == inputs@[0]@);
            assert(read_column(
                old(self).database.log@,
                self.database.log@,
                old(self).database.current_table_idx,
                old(self).database.header_idx,
                t,
                hs,
            ));
        }
        Ok(())
    }

    /// Renames the current table to `inputs[0]`.
    pub fn rename_table(&mut self, inputs: Vec<String>) -> (r: AppResult<()>)
        ensures
            same_but_logs_and_message(old(self).database, final(self).database),
            inputs@.len() == 0 ==> final(self).database.sent == old(self).database.sent,
            final(self).database.sent@ == old(self).database.sent@ || exists|t: Seq<char>|
                #[trigger] read_name(
                    old(self).database.log@,
                    final(self).database.log@,
                    old(self).database.current_table_idx,
                    t,
                ) && sent_tried(
                    old(self).database.sent@,
                    final(self).database.sent@,
                    spec_rename_table_query(t, inputs@[0]@),
                ),
            r is Ok ==> exists|t: Seq<char>|
                #[trigger] read_name(
                    old(self).database.log@,
                    final(self).database.log@,
                    old(self).database.current_table_idx,
                    t,
                ) && sent_after(
                    old(self).database.sent@,
                    final(self).database.sent@,
                    spec_rename_table_query(t, inputs@[0]@),
                ),
            inputs@.len() == 0 ==> r is Err,
            r is Ok ==> final(self).database.last_command.command == Command::RenameColumn,
            r is Err ==> final(self).database.last_command == old(self).database.last_command,
    {
        let new_table_name = first_input(&inputs)?;
        let res = self.database.rename_table(new_table_name.as_str());
        if let Err(e) = res {
            proof {
                if self.database.sent@ != old(self).database.sent@ {
                    let t = choose|t: Seq<char>|
                        #[trigger] read_name(
                            old(self).database.log@,
                            self.database.log@,
                            old(self).database.current_table_idx,
                            t,
                        ) && sent_tried(
                            old(self).database.sent@,
                            self.database.sent@,
                            spec_rename_table_query(t, new_table_name@),
                        );
                    assert(new_table_name@ == inputs@[0]@);
                    assert(read_name(old(self).database.log@, self.database.log@, old(self).database.current_table_idx, t));
                }
            }
            return Err(e);
        }
        self.database.last_command = PreviousCommand::new(Command::RenameColumn, None);
        proof {
            let t = choose|t: Seq<char>|
                #[trigger] read_name(
                    old(self).database.log@,
                    self.database.log@,
                    old(self).database.current_table_idx,
                    t,
                ) && sent_after(
                    old(self).database.sent@,
                    self.database.sent@,
                    spec_rename_table_query(t, new_table_name@),
                );
            assert(new_table_name@ == inputs@[0]@);
            assert(read_name(old(self).database.log@, self.database.log@, old(self).database.current_table_idx, t));
        }
        Ok(())
    }

    /// Runs the SQL in `inputs[0]`.
    pub fn sql_query(&mut self, inputs: Vec<String>) -> (r: AppResult<()>)
        ensures
            same_but_logs(old(self).database, final(self).database),
            final(self).database.log == old(self).database.log,
            final(self).database.sent@ == old(self).database.sent@ || (inputs@.len() > 0 && sent_tried(
                old(self).database.sent@,
                final(self).database.sent@,
                inputs@[0]@,
            )),
            r is Ok ==> inputs@.len() > 0 && sent_after(
                old(self).database.sent@,
                final(self).database.sent@,
                inputs@[0]@,
            ),
            inputs@.len() == 0 ==> r is Err,
    {
        let query = first_input(&inputs)?;
        self.database.sql_query(query.as_str())
    }

    /// The file to save the database to: the first input of the waiting command.
    pub fn save_file_name(&self) -> (r: AppResult<String>)
        ensures
            r matches Ok(name) ==> (self.database.queued_command matches Some(q) && q.inputs@.len()
                > 0 && name@ == q.inputs@[0]@),
            (self.database.queued_command matches Some(q) && q.inputs@.len() > 0) ==> r is Ok,
    {
        match &self.database.queued_command {
            Some(queued_command) => {
                if queued_command.inputs.len() > 0 {
                    Ok(queued_command.inputs[0].clone())
                } else {
                    Err(AppError::Other(String::from_str("No filename provided")))
                }
            },
            None => Err(AppError::Other(String::from_str("No queued command"))),
        }
    }

    /// Runs the waiting command with its inputs (pages are of `height` rows). What
    /// the command itself reports is shown through the last command, not returned.
    pub fn execute_queued_command(&mut self, height: u32) -> (r: AppResult<()>)
        requires
            height >= 1,
        ensures
            old(self).database.queued_command matches Some(q) ==> (final(self).database.sent@
                == old(self).database.sent@ || exists|h: Seq<char>, t: Seq<char>|
                #[trigger] spec_queued_statement(q.command, q.inputs@, h, t) matches Some(stmt)
                    && queued_reads(
                    q.command,
                    old(self).database.log@,
                    final(self).database.log@,
                    old(self).database.current_table_idx,
                    old(self).database.header_idx,
                    h,
                    t,
                ) && sent_tried(old(self).database.sent@, final(self).database.sent@, stmt)),
            r is Ok,
            final(self).database.queued_command == old(self).database.queued_command,
            final(self).database.input_mode_state_machine
                == old(self).database.input_mode_state_machine,
            old(self).database.queued_command matches Some(q) && spec_requires_updating_view(
                q.command,
            ) ==> !final(self).database.slice.is_unchanged,
    {
        let (command, inputs) = match &self.database.queued_command {
            Some(queued_command) => (queued_command.command, clone_strings(&queued_command.inputs)),
            None => return Ok(()),
        };
        let ghost old_sent = self.database.sent@;
        let ghost o = self.database.log@;
        let ghost idx = self.database.current_table_idx;
        let ghost hidx = self.database.header_idx;
        let ghost given = inputs@;
        let _result: AppResult<()> = match command {
            Command::RegexTransform => {
                let res = self.regex_transform(inputs);
                proof {
                    if self.database.sent@ != old_sent {
                        let (mid, t, hs, t2) = choose|
                            mid: Seq<SqlExchange>,
                            t: Seq<char>,
                            hs: Seq<Seq<char>>,
                            t2: Seq<char>,
                        |
                            #![trigger read_column(o, mid, idx, hidx, t, hs), read_name(mid, self.database.log@, idx, t2)]
                            read_column(o, mid, idx, hidx, t, hs) && read_name(
                                mid,
                                self.database.log@,
                                idx,
                                t2,
                            ) && sent_tried(
                                old_sent,
                                self.database.sent@,
                                spec_transform_statement(given, hs[hidx as int], t2),
                            );
                        let h = hs[hidx as int];
                        assert(read_column(o, mid, idx, hidx, t, hs) && read_name(mid, self.database.log@, idx, t2));
                        assert(queued_reads(command, o, self.database.log@, idx, hidx, h, t2));
                        assert(spec_queued_statement(command, given, h, t2) == Some(
                            spec_transform_statement(given, h, t2),
                        ));
                    }
                }
                res
            },
            Command::Edit => self.edit_cell(inputs),
            Command::SqlQuery => {
                let res = self.sql_query(inputs);
                proof {
                    if self.database.sent@ != old_sent {
                        let h = Seq::<char>::empty();
                        assert(spec_queued_statement(command, given, h, h) == Some(given[0]@));
                        assert(queued_reads(command, o, self.database.log@, idx, hidx, h, h));
                    }
                }
                res
            },
            Command::RegexFilter => self.regex_filter(inputs),
            Command::RenameColumn => {
                let res = self.rename_column(inputs);
                proof {
                    if self.database.sent@ != old_sent {
                        let (t, hs) = choose|t: Seq<char>, hs: Seq<Seq<char>>|
                            #[trigger] read_column(o, self.database.log@, idx, hidx, t, hs) && sent_tried(
                                old_sent,
                                self.database.sent@,
                                spec_rename_column_query(t, hs[hidx as int], given[0]@),
                            );
                        let h = hs[hidx as int];
                        assert(queued_reads(command, o, self.database.log@, idx, hidx, h, t));
                        assert(spec_queued_statement(command, given, h, t) == Some(
                            spec_rename_column_query(t, h, given[0]@),
                        ));
                    }
                }
                res
            },
            Command::RenameTable => {
                let res = self.rename_table(inputs);
                proof {
                    if self.database.sent@ != old_sent {
                        let t = choose|t: Seq<char>|
                            #[trigger] read_name(o, self.database.log@, idx, t) && sent_tried(
                                old_sent,
                                self.database.sent@,
                                spec_rename_table_query(t, given[0]@),
                            );
                        let h = Seq::<char>::empty();
                        assert(queued_reads(command, o, self.database.log@, idx, hidx, h, t));
                        assert(spec_queued_statement(command, given, h, t) == Some(
                            spec_rename_table_query(t, given[0]@),
                        ));
                    }
                }
                res
            },
            Command::ExactSearch => self.exact_search(inputs, height),
            Command::MathOperation => {
                let res = self.database.math_operation(inputs);
                proof {
                    if self.database.sent@ != old_sent {
                        let t = choose|t: Seq<char>|
                            #[trigger] read_name(o, self.database.log@, idx, t) && sent_tried(
                                old_sent,
                                self.database.sent@,
                                spec_math_operation_query(t, given[0]@),
                            );
                        let h = Seq::<char>::empty();
                        assert(queued_reads(command, o, self.database.log@, idx, hidx, h, t));
                        assert(spec_queued_statement(command, given, h, t) == Some(
                            spec_math_operation_query(t, given[0]@),
                        ));
                    }
                }
                res
            },
            _ => Err(AppError::Other(String::from_str("This command takes no input"))),
        };
        if command.requires_updating_view() {
            self.database.slice.has_changed();
        }
        Ok(())
    }

    /// Runs the command whose input is complete, forgets it, and returns to normal
    /// mode. Without a waiting command it is an error.
    pub fn finish_queued_command(&mut self, height: u32) -> (r: AppResult<()>)
        requires
            height >= 1,
        ensures
            old(self).database.queued_command is None ==> r is Err,
            old(self).database.queued_command matches Some(q) ==> {
                &&& final(self).database.queued_command is None
                &&& final(self).database.last_command.command == q.command
                &&& final(self).database.last_command.message is None
                &&& old(self).database.input_mode_state_machine.mode() == InputMode::Finish ==> r is Ok
                    && final(self).database.input_mode_state_machine.mode() == InputMode::Normal
            },
    {
        let command = match &self.database.queued_command {
            Some(q) => q.command,
            None => return Err(AppError::Other(String::from_str("No queued command, but in finish state"))),
        };
        self.execute_queued_command(height)?;
        self.database.queued_command = None;
        self.database.last_command = PreviousCommand::new(command, None);
        self.transition(Event::Reset)
    }

    /// Handles an event in normal mode, on pages of `height` rows: a key runs its
    /// command, or queues it where it asks for input first; another event, or a
    /// command that fails, is shown as an illegal operation.
    pub fn handle_normal_event(&mut self, event: TerminalEvent, height: u32) -> (r: AppResult<()>)
        requires
            height >= 1,
            old(self).database.input_mode_state_machine.mode() == InputMode::Normal,
        ensures
            event is Other ==> {
                &&& r is Ok
                &&& final(self).database.last_command.command == Command::IllegalOperation
                &&& (final(self).database.last_command.message matches Some(m) && m@
                    == "Could not poll"@)
                &&& !final(self).database.slice.is_unchanged
                &&& final(self).database.queued_command == old(self).database.queued_command
            },
            event matches TerminalEvent::Key(key) ==> {
                let c = spec_command_of_key(key);
                &&& spec_needs_input(c) && c != Command::RenameTable ==> {
                    &&& r is Ok
                    &&& (final(self).database.queued_command matches Some(q) && q.command == c
                        && q.inputs@.len() == 0)
                    &&& final(self).database.input_mode_state_machine.mode() == InputMode::Editing
                    &&& final(self).database.last_command.command == c
                }
                &&& c == Command::Quit ==> r is Ok && final(self).database.last_command.command
                    == Command::Quit
                &&& c == Command::NoCommand ==> r is Ok && final(self).database.last_command.command
                    == Command::NoCommand
                &&& !spec_needs_input(c) ==> final(self).database.queued_command
                    == old(self).database.queued_command
                    && final(self).database.input_mode_state_machine
                    == old(self).database.input_mode_state_machine
                &&& final(self).database.last_command.command == c
                    || final(self).database.last_command.command == Command::IllegalOperation
                &&& c matches Command::Move(d) ==> spec_moved(
                    old(self).database,
                    final(self).database,
                    d,
                    height,
                )
                &&& c == Command::RenameTable ==> {
                    &&& (final(self).database.queued_command matches Some(q) && q.command == c
                        && q.inputs@.len() == 0)
                    &&& final(self).database.input_mode_state_machine.mode() == InputMode::Editing
                    &&& final(self).database.last_command.command == c ==> final(self).database.character_index
                        == vstd::utf8::encode_utf8(final(self).database.input@).len() as usize
                    &&& final(self).database.last_command.command == c ==> final(self).database.log@.len() > 0
                        && final(self).database.log@.last() == name_exchange(
                        old(self).database.current_table_idx,
                        final(self).database.input@,
                    )
                }
                &&& final(self).database.last_command.command == Command::IllegalOperation && c
                    != Command::IllegalOperation ==> (final(self).database.last_command.message matches Some(
                    m,
                ) && exists|e: AppError, s: Seq<char>| #[trigger] error_text(e, s) && m@ == ": "@ + s)
            },
            r is Ok,
    {
        let res: AppResult<()> = match event {
            TerminalEvent::Key(key) => {
                let command = Command::from_key(key);
                self.database.last_command = PreviousCommand::new(command, None);
                let mut result = if command.needs_input() {
                    self.database.queued_command = Some(QueuedCommand::new(command));
                    self.transition(Event::StartEditing)?;
                    Ok(())
                } else {
                    match command {
                        Command::Quit => Ok(()),
                        Command::Copy => self.copy(),
                        Command::IllegalOperation => Ok(()),
                        Command::NoCommand => Ok(()),
                        Command::Sort => self.sort(),
                        Command::Move(direction) => self.database.move_cursor(direction, height),
                        Command::NextTable => self.database.next_table(),
                        Command::PrevTable => self.database.prev_table(),
                        Command::TextToInt => self.text_to_int(),
                        Command::IntToText => self.int_to_text(),
                        Command::DeleteColumn => self.delete_column(),
                        Command::DeleteTable => self.database.delete_table(),
                        _ => Ok(()),
                    }
                };
                if command == Command::RenameTable {
                    match self.database.get_current_table_name() {
                        Ok(old_table_name) => {
                            self.database.character_index = old_table_name.as_str().len();
                            self.database.input = old_table_name;
                        },
                        Err(e) => {
                            result = Err(e);
                        },
                    }
                }
                if command.requires_updating_view() {
                    self.database.slice.has_changed();
                }
                result
            },
            TerminalEvent::Other => {
                self.database.slice.has_changed();
                self.database.last_command = PreviousCommand::new(
                    Command::IllegalOperation,
                    Some(String::from_str("Could not poll")),
                );
                Ok(())
            },
        };
        if let Err(e) = res {
            self.database.slice.has_changed();
            let mut message = String::from_str(": ");
            let text = e.to_text();
            message.append(text.as_str());
            proof {
                assert(error_text(e, text@));
                assert(message@ == ": "@ + text@);
            }
            self.database.last_command = PreviousCommand::new(Command::IllegalOperation, Some(message));
        }
        Ok(())
    }

    /// Drops the aborted input and its command, and returns to normal mode.
    pub fn abort_input(&mut self) -> (r: AppResult<()>)
        ensures
            final(self).database.queued_command is None,
            final(self).database.last_command.command == Command::NoCommand,
            final(self).database.last_command.message matches Some(m) && m@ == "Aborted input"@,
            old(self).database.input_mode_state_machine.mode() == InputMode::Abort ==> r is Ok
                && final(self).database.input_mode_state_machine.mode() == InputMode::Normal,
    {
        self.database.last_command = PreviousCommand::new(
            Command::NoCommand,
            Some(String::from_str("Aborted input")),
        );
        self.database.queued_command = None;
        self.transition(Event::Reset)
    }
}

} // verus!
