//! A sheet of columns held in memory, and the modules of the database model.
use vstd::prelude::*;

use crate::error::{AppError, AppResult};
use crate::libstuff::model::{
    csv_records, no_data_error, parse_csv_records, record_view, records_of_equal_width,
};
use crate::text::string_views;

pub mod converter;
pub mod database;
pub mod datarow;
pub mod db_slice;
pub mod metadata;
pub mod regexping;
pub mod sql_queries;
pub mod sqlite;

verus! {

/// A column: its header, then its values.
#[derive(Debug)]
pub struct Column {
    pub data: Vec<String>,
}

impl Column {
    pub fn new(data: Vec<String>) -> (c: Self)
        ensures
            c.data == data,
    {
        Self { data }
    }

    /// The values of the column, without its header.
    pub fn get_data(&self) -> (r: &[String])
        requires
            self.data@.len() >= 1,
        ensures
            r@ == self.data@.skip(1),
    {
        let r = vstd::slice::slice_subrange(self.data.as_slice(), 1, self.data.len());
        assert(r@ =~= self.data@.skip(1));
        r
    }
}

#[derive(PartialEq, Eq, Debug, Clone, Copy, Structural)]
pub enum Mode {
    Regex,
    Normal,
}

impl Default for Mode {
    fn default() -> (m: Self)
        ensures
            m == Mode::Normal,
    {
        Self::Normal
    }
}

/// A sheet: its columns, the column at the cursor, the user's inputs, and its mode.
#[derive(Debug)]
pub struct Sheet {
    pub columns: Vec<Column>,
    pub cursor: usize,
    pub user_inputs: Vec<String>,
    pub mode: Mode,
}

/// Whether `value` is what `fun` may give for a text whose view is `source`.
pub open spec fn maps_to<F: Fn(String) -> String>(fun: F, source: Seq<char>, value: Seq<char>) -> bool {
    exists|x: String, y: String| x@ == source && #[trigger] call_ensures(fun, (x,), y) && y@ == value
}

/// Whether `values` are what `fun` may give for `sources`, one by one.
pub open spec fn mapped_by<F: Fn(String) -> String>(fun: F, sources: Seq<Seq<char>>, values: Seq<Seq<char>>) -> bool {
    &&& values.len() == sources.len()
    &&& forall|k: int| 0 <= k < sources.len() ==> #[trigger] maps_to(fun, sources[k], values[k])
}

/// The column derived from `data` (a header and its values) by `fun`: the header with
/// `-DER` after it, then `fun` of each value.
pub fn derive_column_data<F: Fn(String) -> String>(data: &Vec<String>, fun: &F) -> (r: Vec<String>)
    requires
        data@.len() >= 1,
        forall|s: String| #[trigger] call_requires(*fun, (s,)),
    ensures
        r@.len() == data@.len(),
        r@[0]@ == data@[0]@ + "-DER"@,
        mapped_by(*fun, string_views(data@.skip(1)), string_views(r@.skip(1))),
{
    let mut res: Vec<String> = Vec::new();
    let mut header = data[0].clone();
    header.append("-DER");
    res.push(header);
    let mut i: usize = 1;
    while i < data.len()
        invariant
            1 <= i <= data@.len(),
            res@.len() == i,
            res@[0]@ == data@[0]@ + "-DER"@,
            forall|s: String| #[trigger] call_requires(*fun, (s,)),
            forall|k: int| 1 <= k < i ==> #[trigger] maps_to(*fun, data@[k]@, res@[k]@),
        decreases data@.len() - i,
    {
        let d = data[i].clone();
        let transformed_data = fun(d);
        proof {
            assert(call_ensures(*fun, (d,), transformed_data));
            assert(maps_to(*fun, data@[i as int]@, transformed_data@));
        }
        res.push(transformed_data);
        i = i + 1;
    }
    proof {
        assert forall|k: int| 0 <= k < data@.len() - 1 implies #[trigger] maps_to(
            *fun,
            string_views(data@.skip(1))[k],
            string_views(res@.skip(1))[k],
        ) by {
            assert(string_views(data@.skip(1))[k] == data@[k + 1]@);
            assert(string_views(res@.skip(1))[k] == res@[k + 1]@);
            assert(maps_to(*fun, data@[k + 1]@, res@[k + 1]@));
        }
    }
    res
}

impl Sheet {
    pub fn new(columns: Vec<Column>, cursor: usize) -> (s: Self)
        ensures
            s.columns == columns,
            s.cursor == cursor,
            s.user_inputs@.len() == 0,
            s.mode == Mode::Normal,
    {
        Self { columns, cursor, user_inputs: Vec::new(), mode: Mode::Normal }
    }

    /// The cell `y` (the header being 0) of column `x`.
    pub fn get(&self, x: usize, y: usize) -> (s: String)
        requires
            x < self.columns@.len(),
            y < self.columns@[x as int].data@.len(),
        ensures
            s@ == self.columns@[x as int].data@[y as int]@,
    {
        self.columns[x].data[y].clone()
    }

    /// Changes the mode, and starts a new, empty input.
    pub fn change_mode(&mut self, mode: Mode)
        ensures
            final(self).mode == mode,
            final(self).user_inputs@.len() == old(self).user_inputs@.len() + 1,
            final(self).user_inputs@.drop_last() == old(self).user_inputs@,
            final(self).user_inputs@.last()@.len() == 0,
            final(self).columns == old(self).columns,
            final(self).cursor == old(self).cursor,
    {
        self.user_inputs.push(String::new());
        self.mode = mode;
        assert(self.user_inputs@.drop_last() =~= old(self).user_inputs@);
    }

    /// The sheet of a CSV file read without headers: the first record gives the
    /// columns' headers and each further record one value of each column.
    pub fn from_records(first: Vec<String>, records: Vec<Vec<String>>) -> (s: Sheet)
        requires
            forall|k: int| 0 <= k < records@.len() ==> (#[trigger] records@[k])@.len() == first@.len(),
        ensures
            s.columns@.len() == first@.len(),
            s.cursor == 0,
            s.mode == Mode::Normal,
            s.user_inputs@.len() == 0,
            forall|i: int|
                0 <= i < first@.len() ==> {
                    &&& (#[trigger] s.columns@[i]).data@.len() == records@.len() + 1
                    &&& s.columns@[i].data@[0]@ == first@[i]@
                    &&& forall|k: int|
                        0 <= k < records@.len() ==> s.columns@[i].data@[k + 1]@
                            == (#[trigger] records@[k])@[i]@
                },
    {
        let mut columns: Vec<Column> = Vec::new();
        let mut i: usize = 0;
        while i < first.len()
            invariant
                i <= first@.len(),
                columns@.len() == i,
                forall|j: int|
                    0 <= j < i ==> (#[trigger] columns@[j]).data@.len() == 1 && columns@[j].data@[0]@
                        == first@[j]@,
            decreases first@.len() - i,
        {
            let mut data: Vec<String> = Vec::new();
            data.push(first[i].clone());
            columns.push(Column::new(data));
            i = i + 1;
        }
        let mut r: usize = 0;
        while r < records.len()
            invariant
                r <= records@.len(),
                columns@.len() == first@.len(),
                forall|k: int| 0 <= k < records@.len() ==> (#[trigger] records@[k])@.len() == first@.len(),
                forall|j: int|
                    0 <= j < first@.len() ==> {
                        &&& (#[trigger] columns@[j]).data@.len() == r + 1
                        &&& columns@[j].data@[0]@ == first@[j]@
                        &&& forall|k: int|
                            0 <= k < r ==> columns@[j].data@[k + 1]@ == (#[trigger] records@[k])@[j]@
                    },
            decreases records@.len() - r,
        {
            let record = &records[r];
            let mut j: usize = 0;
            while j < record.len()
                invariant
                    r < records@.len(),
                    record == records@[r as int],
                    record@.len() == first@.len(),
                    j <= record@.len(),
                    columns@.len() == first@.len(),
                    forall|c: int|
                        0 <= c < first@.len() ==> {
                            &&& (#[trigger] columns@[c]).data@.len() == if c < j {
                                r + 2
                            } else {
                                r + 1
                            }
                            &&& columns@[c].data@[0]@ == first@[c]@
                            &&& forall|k: int|
                                0 <= k < r ==> columns@[c].data@[k + 1]@ == (#[trigger] records@[k])@[c]@
                            &&& c < j ==> columns@[c].data@[r + 1]@ == record@[c]@
                        },
                decreases record@.len() - j,
            {
                let value = record[j].clone();
                let mut column = columns.remove(j);
                column.data.push(value);
                columns.insert(j, column);
                j = j + 1;
            }
            r = r + 1;
        }
        Sheet::new(columns, 0)
    }

    /// The sheet of a CSV text read without headers: the first record gives the
    /// headers of the columns, each further record one value of each column. A text
    /// whose first record cannot be read has no data; a later record that cannot be
    /// read is refused with the reader's error.
    pub fn from_csv_text(data: &str) -> (r: AppResult<Sheet>)
        ensures
            (csv_records(data@).len() == 0 || csv_records(data@)[0] is None) ==> (r matches Err(e)
                && e is Io),
            r is Ok <==> csv_records(data@).len() > 0 && forall|k: int|
                0 <= k < csv_records(data@).len() ==> #[trigger] csv_records(data@)[k] is Some,
            r matches Ok(s) ==> {
                &&& s.cursor == 0
                &&& s.mode == Mode::Normal
                &&& s.user_inputs@.len() == 0
                &&& s.columns@.len() == csv_records(data@)[0].unwrap().len()
                &&& forall|i: int, k: int|
                    0 <= i < s.columns@.len() && 0 <= k < csv_records(data@).len() ==> {
                        &&& (#[trigger] s.columns@[i]).data@.len() == csv_records(data@).len()
                        &&& s.columns@[i].data@[k]@ == (#[trigger] csv_records(data@)[k]).unwrap()[i]
                    }
            },
    {
        let records = parse_csv_records(data);
        let ghost recs = records@;
        let count: usize = records.len();
        let mut first: Vec<String> = Vec::new();
        let mut rest: Vec<Vec<String>> = Vec::new();
        let mut k: usize = 0;
        for record in it: records
            invariant
                it.seq() == recs,
                recs.len() == csv_records(data@).len(),
                recs.len() == count,
                forall|j: int| 0 <= j < recs.len() ==> record_view(#[trigger] recs[j]) == csv_records(data@)[j],
                records_of_equal_width(recs),
                k == it.index(),
                k <= recs.len(),
                forall|j: int| 0 <= j < k ==> #[trigger] recs[j] is Ok,
                k > 0 ==> string_views(first@) == csv_records(data@)[0].unwrap(),
                k > 0 ==> rest@.len() == k - 1,
                k == 0 ==> rest@.len() == 0,
                forall|j: int|
                    0 <= j < rest@.len() ==> string_views((#[trigger] rest@[j])@) == csv_records(data@)[j
                        + 1].unwrap() && rest@[j]@.len() == first@.len(),
        {
            match record {
                Ok(fields) => {
                    if k == 0 {
                        first = fields;
                    } else {
                        proof {
                            assert(recs[0] is Ok);
                            assert(string_views(fields@).len() == fields@.len());
                        }
                        rest.push(fields);
                    }
                },
                Err(e) => {
                    if k == 0 {
                        return Err(AppError::Io(no_data_error()));
                    }
                    return Err(AppError::Parse(e));
                },
            }
            k = k + 1;
        }
        if k == 0 {
            return Err(AppError::Io(no_data_error()));
        }
        let ghost rows = csv_records(data@);
        assert forall|j: int| 0 <= j < rows.len() implies #[trigger] rows[j] is Some by {
            assert(recs[j] is Ok);
            assert(record_view(recs[j]) == rows[j]);
        }
        assert forall|j: int| 0 <= j < rest@.len() implies (#[trigger] rest@[j])@.len() == first@.len() by {}
        let sheet = Sheet::from_records(first, rest);
        assert forall|i: int, j: int|
            0 <= i < sheet.columns@.len() && 0 <= j < rows.len() implies {
                &&& (#[trigger] sheet.columns@[i]).data@.len() == rows.len()
                &&& sheet.columns@[i].data@[j]@ == (#[trigger] rows[j]).unwrap()[i]
            } by {
            if j > 0 {
                assert(string_views(rest@[j - 1]@)[i] == rest@[j - 1]@[i]@);
            } else {
                assert(string_views(first@)[i] == first@[i]@);
            }
        }
        Ok(sheet)
    }

    /// Adds the column derived from column `i` by `fun`: its header with `-DER`
    /// after it, and `fun` of each of its values.
    pub fn derive_new<F: Fn(String) -> String>(&mut self, i: usize, fun: F)
        requires
            i < old(self).columns@.len(),
            old(self).columns@[i as int].data@.len() >= 1,
            forall|s: String| #[trigger] call_requires(fun, (s,)),
        ensures
            final(self).columns@.len() == old(self).columns@.len() + 1,
            final(self).columns@.drop_last() == old(self).columns@,
            ({
                let source = old(self).columns@[i as int].data@;
                let derived = final(self).columns@.last().data@;
                &&& derived.len() == source.len()
                &&& derived[0]@ == source[0]@ + "-DER"@
                &&& mapped_by(fun, string_views(source.skip(1)), string_views(derived.skip(1)))
            }),
            final(self).cursor == old(self).cursor,
            final(self).mode == old(self).mode,
            final(self).user_inputs@ == old(self).user_inputs@,
    {
        let res = derive_column_data(&self.columns[i].data, &fun);
        let new_col = Column::new(res);
        self.columns.push(new_col);
        assert(self.columns@.drop_last() =~= old(self).columns@);
    }
}

} // verus!
