use vstd::prelude::*;

use crate::model::{derive_column_data, mapped_by};
use crate::text::string_views;

verus! {

/// A row of the sheet: its header, then its values.
#[derive(Debug)]
pub struct Row {
    pub data: Vec<String>,
}

impl Row {
    pub fn new(data: Vec<String>) -> (r: Self)
        ensures
            r.data == data,
    {
        Self { data }
    }

    /// The values of the row, without its header.
    pub fn get_data(&self) -> (r: &[String])
        requires
            self.data@.len() >= 1,
        ensures
            r@ == self.data@.skip(1),
    {
        let r = vstd::slice::slice_subrange(self.data.as_slice(), 1, self.data.len());
        assert(r@ =~= self.data@.skip(1));
        r
    }
}

#[derive(PartialEq, Eq, Debug, Clone, Copy, Structural)]
pub enum Mode {
    Regex,
    RegexReplace,
    Normal,
}

impl Default for Mode {
    fn default() -> (m: Self)
        ensures
            m == Mode::Normal,
    {
        Self::Normal
    }
}

/// A sheet of rows, with the row at the cursor, the user's input and the mode.
#[derive(Debug)]
pub struct Sheet {
    pub rows: Vec<Row>,
    pub cursor: usize,
    pub user_input: String,
    pub mode: Mode,
}

impl Sheet {
    pub fn new(rows: Vec<Row>) -> (s: Self)
        ensures
            s.rows == rows,
            s.cursor == 0,
            s.user_input@.len() == 0,
            s.mode == Mode::Normal,
    {
        Self { rows, cursor: 0, user_input: String::new(), mode: Mode::Normal }
    }

    /// The cell `y` (the header being 0) of row `x`.
    pub fn get(&self, x: usize, y: usize) -> (s: String)
        requires
            x < self.rows@.len(),
            y < self.rows@[x as int].data@.len(),
        ensures
            s@ == self.rows@[x as int].data@[y as int]@,
    {
        self.rows[x].data[y].clone()
    }

    /// Changes the mode, and empties the input.
    pub fn change_mode(&mut self, mode: Mode)
        ensures
            final(self).mode == mode,
            final(self).user_input@.len() == 0,
            final(self).rows == old(self).rows,
            final(self).cursor == old(self).cursor,
    {
        self.user_input = String::new();
        self.mode = mode;
    }

    /// Adds the row derived from the row at the cursor by `fun`: its header with
    /// `-DER` after it, and `fun` of each of its values.
    pub fn derive_new<F: Fn(String) -> String>(&mut self, fun: F)
        requires
            old(self).cursor < old(self).rows@.len(),
            old(self).rows@[old(self).cursor as int].data@.len() >= 1,
            forall|s: String| #[trigger] call_requires(fun, (s,)),
        ensures
            final(self).rows@.len() == old(self).rows@.len() + 1,
            final(self).rows@.drop_last() == old(self).rows@,
            ({
                let source = old(self).rows@[old(self).cursor as int].data@;
                let derived = final(self).rows@.last().data@;
                &&& derived.len() == source.len()
                &&& derived[0]@ == source[0]@ + "-DER"@
                &&& mapped_by(fun, string_views(source.skip(1)), string_views(derived.skip(1)))
            }),
            final(self).cursor == old(self).cursor,
            final(self).mode == old(self).mode,
            final(self).user_input@ == old(self).user_input@,
    {
        let i = self.cursor;
        let res = derive_column_data(&self.rows[i].data, &fun);
        let new_row = Row::new(res);
        self.rows.push(new_row);
        assert(self.rows@.drop_last() =~= old(self).rows@);
    }
}

} // verus!
