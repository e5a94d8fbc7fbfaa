use vstd::prelude::*;

use crate::error::{AppError, AppResult};
use crate::model::{derive_column_data, mapped_by};
use crate::text::string_views;

verus! {

/// A column: its header, then its values.
#[derive(Debug)]
pub struct Column {
    pub data: Vec<String>,
}

impl Column {
    pub fn new(data: Vec<String>) -> (c: Self)
        ensures
            c.data == data,
    {
        Self { data }
    }

    /// The values of the column, without its header.
    pub fn get_data(&self) -> (r: &[String])
        requires
            self.data@.len() >= 1,
        ensures
            r@ == self.data@.skip(1),
    {
        let r = vstd::slice::slice_subrange(self.data.as_slice(), 1, self.data.len());
        assert(r@ =~= self.data@.skip(1));
        r
    }
}

#[derive(PartialEq, Eq, Debug, Clone, Copy, Structural)]
pub enum Mode {
    Regex,
    RegexReplace,
    Normal,
}

impl Default for Mode {
    fn default() -> (m: Self)
        ensures
            m == Mode::Normal,
    {
        Self::Normal
    }
}

/// A sheet of columns, with the column at the cursor, the user's input and the mode.
#[derive(Debug)]
pub struct Sheet {
    pub columns: Vec<Column>,
    pub cursor: usize,
    pub user_input: String,
    pub mode: Mode,
}

/// The records of a CSV text read without headers, each as its fields, or `None`
/// where the reader reports an error (`csv::Reader::records`).
pub uninterp spec fn csv_records(text: Seq<char>) -> Seq<Option<Seq<Seq<char>>>>;

/// The views of a record read from CSV.
pub open spec fn record_view(r: Result<Vec<String>, csv::Error>) -> Option<Seq<Seq<char>>> {
    match r {
        Ok(fields) => Some(string_views(fields@)),
        Err(_) => None,
    }
}

/// The number of fields of a record that was read.
pub open spec fn field_count(r: Result<Vec<String>, csv::Error>) -> nat {
    match r {
        Ok(fields) => fields@.len(),
        Err(_) => 0,
    }
}

/// Where the first record was read, every record that was read has as many fields.
pub open spec fn records_of_equal_width(recs: Seq<Result<Vec<String>, csv::Error>>) -> bool {
    recs.len() > 0 && recs[0] is Ok ==> forall|k: int|
        0 <= k < recs.len() && (#[trigger] recs[k]) is Ok ==> field_count(recs[k]) == field_count(
            recs[0],
        )
}

/// Whether each value of a column is the field at its position in the record of
/// the same number.
pub open spec fn cells_match(data: Seq<String>, rows: Seq<Option<Seq<Seq<char>>>>, c: int) -> bool {
    forall|j: int| 0 <= j < data.len() ==> (#[trigger] data[j])@ == rows[j].unwrap()[c]
}

/// `ReaderBuilder::has_headers(false)` and `Reader::records` of the csv crate: all
/// records of `data`. The crate documents that, unless the reader is flexible
/// (it is not here), a record with another number of fields than the first one
/// is reported as an error.
#[verifier::external_body]
pub(crate) fn parse_csv_records(data: &str) -> (r: Vec<Result<Vec<String>, csv::Error>>)
    ensures
        r@.len() == csv_records(data@).len(),
        forall|k: int| 0 <= k < r@.len() ==> record_view(#[trigger] r@[k]) == csv_records(data@)[k],
        records_of_equal_width(r@),
{
    csv::ReaderBuilder::new().has_headers(false).from_reader(data.as_bytes()).records().map(
        |r| r.map(|rec| rec.iter().map(|f| f.to_string()).collect()),
    ).collect()
}

/// `std::io::Error::new` with `ErrorKind::Other` and the message "No data found".
#[verifier::external_body]
pub(crate) fn no_data_error() -> (e: std::io::Error) {
    std::io::Error::new(std::io::ErrorKind::Other, "No data found")
}

impl Sheet {
    pub fn new(columns: Vec<Column>) -> (s: Self)
        ensures
            s.columns == columns,
            s.cursor == 0,
            s.user_input@.len() == 0,
            s.mode == Mode::Normal,
    {
        Self { columns, cursor: 0, user_input: String::new(), mode: Mode::Normal }
    }

    /// The cell `y` (the header being 0) of column `x`.
    pub fn get(&self, x: usize, y: usize) -> (s: String)
        requires
            x < self.columns@.len(),
            y < self.columns@[x as int].data@.len(),
        ensures
            s@ == self.columns@[x as int].data@[y as int]@,
    {
        self.columns[x].data[y].clone()
    }

    /// Changes the mode, and empties the input.
    pub fn change_mode(&mut self, mode: Mode)
        ensures
            final(self).mode == mode,
            final(self).user_input@.len() == 0,
            final(self).columns == old(self).columns,
            final(self).cursor == old(self).cursor,
    {
        self.user_input = String::new();
        self.mode = mode;
    }

    /// The sheet of a CSV text read without headers: the first record gives the
    /// headers of the columns, each further record one value of each column. A text
    /// whose first record cannot be read is refused as having no data; a later
    /// record that cannot be read is refused with the reader's error.
    pub fn try_from_str(data: &str) -> (r: AppResult<Sheet>)
        ensures
            (csv_records(data@).len() == 0 || csv_records(data@)[0] is None) ==> (r matches Err(e)
                && e is Io),
            r is Ok <==> csv_records(data@).len() > 0 && forall|k: int|
                0 <= k < csv_records(data@).len() ==> #[trigger] csv_records(data@)[k] is Some,
            r matches Ok(s) ==> {
                &&& s.cursor == 0
                &&& s.mode == Mode::Normal
                &&& s.user_input@.len() == 0
                &&& s.columns@.len() == csv_records(data@)[0].unwrap().len()
                &&& forall|i: int|
                    0 <= i < s.columns@.len() ==> (#[trigger] s.columns@[i]).data@.len()
                        == csv_records(data@).len() && cells_match(s.columns@[i].data@, csv_records(data@), i)
            },
    {
        let records = parse_csv_records(data);
        let ghost recs = records@;
        let ghost rows = csv_records(data@);
        let count: usize = records.len();
        let mut columns: Vec<Column> = Vec::new();
        let mut width: usize = 0;
        let mut k: usize = 0;
        for record in it: records
            invariant
                it.seq() == recs,
                rows == csv_records(data@),
                recs.len() == rows.len(),
                forall|j: int| 0 <= j < recs.len() ==> record_view(#[trigger] recs[j]) == rows[j],
                records_of_equal_width(recs),
                k == it.index(),
                k <= recs.len(),
                recs.len() == count,
                k == 0 ==> columns@.len() == 0,
                k > 0 ==> recs[0] is Ok && columns@.len() == width && width == rows[0].unwrap().len(),
                forall|j: int| 0 <= j < k ==> #[trigger] recs[j] is Ok,
                forall|c: int|
                    0 <= c < columns@.len() ==> (#[trigger] columns@[c]).data@.len() == k
                        && cells_match(columns@[c].data@, rows, c),
        {
            match record {
                Ok(fields) => {
                    proof {
                        assert(record_view(recs[k as int]) == rows[k as int]);
                    }
                    if k == 0 {
                        width = fields.len();
                        let mut i: usize = 0;
                        while i < fields.len()
                            invariant
                                i <= fields@.len(),
                                columns@.len() == i,
                                k == 0,
                                string_views(fields@) == rows[0].unwrap(),
                                forall|c: int|
                                    0 <= c < i ==> (#[trigger] columns@[c]).data@.len() == 1
                                        && cells_match(columns@[c].data@, rows, c),
                            decreases fields@.len() - i,
                        {
                            let mut d: Vec<String> = Vec::new();
                            d.push(fields[i].clone());
                            proof {
                                assert(string_views(fields@)[i as int] == fields@[i as int]@);
                            }
                            columns.push(Column::new(d));
                            i = i + 1;
                        }
                    } else {
                        let mut i: usize = 0;
                        while i < fields.len()
                            invariant
                                i <= fields@.len(),
                                fields@.len() == width,
                                columns@.len() == width,
                                k > 0,
                                string_views(fields@) == rows[k as int].unwrap(),
                                forall|c: int|
                                    0 <= c < columns@.len() ==> (#[trigger] columns@[c]).data@.len() == if c < i {
                                        k + 1
                                    } else {
                                        k as int
                                    } && cells_match(columns@[c].data@, rows, c),
                            decreases fields@.len() - i,
                        {
                            let mut column = columns.remove(i);
                            let ghost before = column.data@;
                            column.data.push(fields[i].clone());
                            proof {
                                assert(string_views(fields@)[i as int] == fields@[i as int]@);
                                assert forall|j: int| 0 <= j < column.data@.len() implies column.data@[j]@
                                    == rows[j].unwrap()[i as int] by {
                                    if j < before.len() {
                                        assert(column.data@[j] == before[j]);
                                    }
                                }
                            }
                            columns.insert(i, column);
                            i = i + 1;
                        }
                    }
                },
                Err(e) => {
                    if k == 0 {
                        return Err(AppError::Io(no_data_error()));
                    }
                    return Err(AppError::Parse(e));
                },
            }
            k = k + 1;
        }
        if k == 0 {
            return Err(AppError::Io(no_data_error()));
        }
        assert forall|j: int| 0 <= j < rows.len() implies #[trigger] rows[j] is Some by {
            assert(recs[j] is Ok);
            assert(record_view(recs[j]) == rows[j]);
        }
        Ok(Sheet::new(columns))
    }

    /// Adds the column derived from the column at the cursor by `fun`: its header
    /// with `-DER` after it, and `fun` of each of its values.
    pub fn derive_new<F: Fn(String) -> String>(&mut self, fun: F)
        requires
            old(self).cursor < old(self).columns@.len(),
            old(self).columns@[old(self).cursor as int].data@.len() >= 1,
            forall|s: String| #[trigger] call_requires(fun, (s,)),
        ensures
            final(self).columns@.len() == old(self).columns@.len() + 1,
            final(self).columns@.drop_last() == old(self).columns@,
            ({
                let source = old(self).columns@[old(self).cursor as int].data@;
                let derived = final(self).columns@.last().data@;
                &&& derived.len() == source.len()
                &&& derived[0]@ == source[0]@ + "-DER"@
                &&& mapped_by(fun, string_views(source.skip(1)), string_views(derived.skip(1)))
            }),
            final(self).cursor == old(self).cursor,
            final(self).mode == old(self).mode,
            final(self).user_input@ == old(self).user_input@,
    {
        let i = self.cursor;
        let res = derive_column_data(&self.columns[i].data, &fun);
        let new_col = Column::new(res);
        self.columns.push(new_col);
        assert(self.columns@.drop_last() =~= old(self).columns@);
    }
}

} // verus!
