//! The values of a table's cells.
use vstd::prelude::*;

use crate::text::{i64_to_string, int_decimal, lemma_nat_decimal_len, nat_decimal};

verus! {

/// The header row and the data rows of a table.
pub type DataTable = (Vec<String>, Vec<Vec<DataItem>>);

/// The value of one cell. A real number is held as the decimal text that
/// Rust prints for it.
#[derive(Debug, PartialEq)]
#[non_exhaustive]
pub enum DataItem {
    Text(String),
    Integer(i64),
    Float(String),
    Null,
}

/// The mathematical value of a cell.
pub enum CellValue {
    Text(Seq<char>),
    Integer(i64),
    Float(Seq<char>),
    Null,
}

impl View for DataItem {
    type V = CellValue;

    open spec fn view(&self) -> CellValue {
        match self {
            DataItem::Text(s) => CellValue::Text(s@),
            DataItem::Integer(x) => CellValue::Integer(*x),
            DataItem::Float(s) => CellValue::Float(s@),
            DataItem::Null => CellValue::Null,
        }
    }
}

impl Clone for DataItem {
    fn clone(&self) -> (r: Self)
        ensures
            r@ == self@,
    {
        match self {
            DataItem::Text(s) => DataItem::Text(s.clone()),
            DataItem::Integer(x) => DataItem::Integer(*x),
            DataItem::Float(s) => DataItem::Float(s.clone()),
            DataItem::Null => DataItem::Null,
        }
    }
}

/// The number of bytes that a cell takes when it is printed.
pub open spec fn spec_item_len(item: DataItem) -> nat {
    match item {
        DataItem::Text(s) => vstd::utf8::encode_utf8(s@).len(),
        DataItem::Integer(x) => int_decimal(x as int).len(),
        DataItem::Float(s) => vstd::utf8::encode_utf8(s@).len(),
        DataItem::Null => 4,
    }
}

/// The text that a cell is turned into: its value, and the empty text for `Null`.
pub open spec fn spec_item_text(item: DataItem) -> Seq<char> {
    match item {
        DataItem::Text(s) => s@,
        DataItem::Integer(x) => int_decimal(x as int),
        DataItem::Float(s) => s@,
        DataItem::Null => Seq::empty(),
    }
}

/// The number of decimal digits of `n`.
fn decimal_digit_count(n: u64) -> (c: usize)
    ensures
        c == nat_decimal(n as nat).len(),
    decreases n,
{
    proof {
        lemma_nat_decimal_len(n as nat);
    }
    if n < 10 {
        1
    } else {
        let rest = decimal_digit_count(n / 10);
        proof {
            assert(rest <= 20) by {
                lemma_nat_decimal_len_bound(n as nat / 10);
            }
        }
        rest + 1
    }
}

/// A natural number below 2^64 has at most twenty decimal digits.
proof fn lemma_nat_decimal_len_bound(n: nat)
    requires
        n < 0x1_0000_0000_0000_0000,
    ensures
        nat_decimal(n).len() <= 20,
{
    reveal_with_fuel(pow10, 21);
    assert(pow10(20) == 100_000_000_000_000_000_000nat);
    lemma_nat_decimal_len_steps(n, 0x1_0000_0000_0000_0000, 20);
}

/// If `n < bound` and `bound <= 10^steps`-ish (bound shrinks tenfold per digit),
/// then `n` has at most `steps` digits.
proof fn lemma_nat_decimal_len_steps(n: nat, bound: nat, steps: nat)
    requires
        n < bound,
        bound <= pow10(steps),
        steps >= 1,
    ensures
        nat_decimal(n).len() <= steps,
    decreases steps,
{
    lemma_nat_decimal_len(n);
    if n >= 10 {
        assert(steps >= 2) by {
            if steps == 1 {
                assert(pow10(1) == 10 * pow10(0));
                assert(pow10(0) == 1);
            }
        }
        assert(n / 10 < pow10((steps - 1) as nat)) by {
            assert(pow10(steps) == 10 * pow10((steps - 1) as nat));
        }
        lemma_nat_decimal_len_steps(n / 10, pow10((steps - 1) as nat), (steps - 1) as nat);
    }
}

/// Ten to the power `n`.
pub open spec fn pow10(n: nat) -> nat
    decreases n,
{
    if n == 0 {
        1
    } else {
        10 * pow10((n - 1) as nat)
    }
}

impl DataItem {
    /// The number of bytes that the cell takes when it is printed (`NULL` for a null).
    pub fn len(&self) -> (r: usize)
        ensures
            r == spec_item_len(*self) as usize,
    {
        match self {
            DataItem::Text(s) => s.as_str().len(),
            DataItem::Integer(x) => {
                if *x < 0 {
                    let magnitude: u64 = ((-(*x + 1)) as u64) + 1;
                    let d = decimal_digit_count(magnitude);
                    proof {
                        lemma_nat_decimal_len_bound(magnitude as nat);
                    }
                    d + 1
                } else {
                    decimal_digit_count(*x as u64)
                }
            },
            DataItem::Float(s) => s.as_str().len(),
            DataItem::Null => 4,
        }
    }

    /// Whether the cell prints as nothing, or is a null.
    pub fn is_empty(&self) -> (b: bool)
        ensures
            b == (spec_item_len(*self) as usize == 0 || *self is Null),
    {
        let n = self.len();
        n == 0 || matches!(self, DataItem::Null)
    }

    /// The text of the cell: its value, and the empty text for a null.
    pub fn to_text(&self) -> (s: String)
        ensures
            s@ == spec_item_text(*self),
    {
        match self {
            DataItem::Text(t) => t.clone(),
            DataItem::Integer(x) => i64_to_string(*x),
            DataItem::Float(t) => t.clone(),
            DataItem::Null => String::new(),
        }
    }
}

} // verus!
