use vstd::prelude::*;

use crate::text::{i64_to_string, int_decimal};

verus! {

/// The value of one cell.
#[derive(Debug, PartialEq)]
#[non_exhaustive]
pub enum DataItem {
    Text(String),
    Integer(i64),
    Null,
}

/// The text of a cell; a null reads `NULL`.
pub open spec fn spec_item_text(item: DataItem) -> Seq<char> {
    match item {
        DataItem::Text(s) => s@,
        DataItem::Integer(x) => int_decimal(x as int),
        DataItem::Null => "NULL"@,
    }
}

impl Clone for DataItem {
    fn clone(&self) -> (r: Self)
        ensures
            spec_item_text(r) == spec_item_text(*self),
            r is Text <==> self is Text,
            r is Integer <==> self is Integer,
            r is Null <==> self is Null,
    {
        match self {
            DataItem::Text(s) => DataItem::Text(s.clone()),
            DataItem::Integer(x) => DataItem::Integer(*x),
            DataItem::Null => DataItem::Null,
        }
    }
}

impl DataItem {
    /// The text of the cell; a null reads `NULL`.
    pub fn to_text(&self) -> (s: String)
        ensures
            s@ == spec_item_text(*self),
    {
        match self {
            DataItem::Text(t) => t.clone(),
            DataItem::Integer(x) => i64_to_string(*x),
            DataItem::Null => String::from_str("NULL"),
        }
    }
}

/// A row of cells.
#[derive(Debug)]
pub struct DataRow {
    pub data: Vec<DataItem>,
}

impl DataRow {
    /// Cell `i`; a null where there is none.
    pub fn get(&self, i: i32) -> (r: DataItem)
        ensures
            (i as usize) < self.data@.len() ==> spec_item_text(r) == spec_item_text(
                self.data@[i as usize as int],
            ),
            (i as usize) >= self.data@.len() ==> r is Null,
    {
        let k = i as usize;
        if k < self.data.len() {
            self.data[k].clone()
        } else {
            DataItem::Null
        }
    }

    /// A row of text cells.
    pub fn from_strs(value: Vec<&str>) -> (r: Self)
        ensures
            r.data@.len() == value@.len(),
            forall|k: int|
                0 <= k < value@.len() ==> (#[trigger] r.data@[k]) is Text && spec_item_text(r.data@[k])
                    == value@[k]@,
    {
        let mut items: Vec<DataItem> = Vec::new();
        let mut i: usize = 0;
        while i < value.len()
            invariant
                i <= value@.len(),
                items@.len() == i,
                forall|k: int|
                    0 <= k < i ==> (#[trigger] items@[k]) is Text && spec_item_text(items@[k])
                        == value@[k]@,
            decreases value@.len() - i,
        {
            items.push(DataItem::Text(String::from_str(value[i])));
            i = i + 1;
        }
        Self { data: items }
    }
}

} // verus!
