//! The part of a table that is on screen, and how it is laid out.
use vstd::prelude::*;

use super::datarow::{spec_item_len, DataItem};

verus! {

/// Which row of the visible table is selected, and from which row it is drawn.
#[derive(Debug, Clone, Copy, PartialEq, Eq, Structural)]
pub struct TableState {
    pub offset: usize,
    pub selected: Option<usize>,
}

impl TableState {
    pub fn default() -> (s: Self)
        ensures
            s.offset == 0,
            s.selected is None,
    {
        TableState { offset: 0, selected: None }
    }

    pub fn selected(&self) -> (r: Option<usize>)
        ensures
            r == self.selected,
    {
        self.selected
    }

    pub fn offset(&self) -> (r: usize)
        ensures
            r == self.offset,
    {
        self.offset
    }

    /// Selects a row; selecting none also scrolls back to the first row.
    pub fn select(&mut self, index: Option<usize>)
        ensures
            final(self).selected == index,
            final(self).offset == if index is None { 0 } else { old(self).offset },
    {
        self.selected = index;
        if index.is_none() {
            self.offset = 0;
        }
    }
}

/// The rows of the current table that are on screen.
#[derive(Debug)]
pub struct DatabaseSlice {
    pub headers: Vec<String>,
    pub data_rows: Vec<Vec<DataItem>>,
    pub table_state: TableState,
    pub row_offset: u32,
    pub is_unchanged: bool,
}

/// `a + b`, or `u32::MAX` where it would not fit.
pub open spec fn spec_saturating_add(a: u32, b: u32) -> u32 {
    if a + b > u32::MAX {
        u32::MAX
    } else {
        (a + b) as u32
    }
}

/// `a - b`, or zero where it would be negative.
pub open spec fn spec_saturating_sub(a: u32, b: u32) -> u32 {
    if a < b {
        0
    } else {
        (a - b) as u32
    }
}

/// The selected row and the page offset after moving down from `selected` on a page
/// of `height` rows at `row_offset`, in a table of `total_rows` rows (any number
/// where it is unknown).
pub open spec fn spec_next_row(
    selected: Option<usize>,
    row_offset: u32,
    height: u32,
    total_rows: Option<u32>,
) -> (usize, u32) {
    match selected {
        Some(i) => if i < height - 1 {
            ((i + 1) as usize, row_offset)
        } else if spec_next_row_turns_page(selected, row_offset, height, total_rows) {
            (0usize, spec_saturating_add(row_offset, height))
        } else {
            (i, row_offset)
        },
        None => (0usize, row_offset),
    }
}

/// Whether moving down turns to the next page.
pub open spec fn spec_next_row_turns_page(
    selected: Option<usize>,
    row_offset: u32,
    height: u32,
    total_rows: Option<u32>,
) -> bool {
    match selected {
        Some(i) => i >= height - 1 && row_offset + i < match total_rows {
            Some(t) => t as int,
            None => u32::MAX as int,
        },
        None => false,
    }
}

/// The selected row and the page offset after moving up from `selected` on a page of
/// `height` rows at `row_offset`.
pub open spec fn spec_previous_row(selected: Option<usize>, row_offset: u32, height: u32) -> (usize, u32) {
    match selected {
        Some(i) => if spec_previous_row_turns_page(selected, row_offset) {
            ((height - 1) as usize, spec_saturating_sub(row_offset, height))
        } else if i == 0 {
            (0usize, row_offset)
        } else {
            ((i - 1) as usize, row_offset)
        },
        None => (0usize, row_offset),
    }
}

/// Whether moving up turns to the page before.
pub open spec fn spec_previous_row_turns_page(selected: Option<usize>, row_offset: u32) -> bool {
    selected == Some(0usize) && row_offset != 0
}

/// Moving down and then up comes back to the same row and page, as long as the
/// selection is on the page, the page does not end the table, and the page offset
/// does not reach `u32::MAX`.
pub proof fn lemma_down_then_up(i: usize, height: u32, row_offset: u32, total_rows: Option<u32>)
    requires
        height >= 1,
        i <= height - 1,
        i < height - 1 || spec_next_row_turns_page(Some(i), row_offset, height, total_rows),
        row_offset + height <= u32::MAX,
    ensures
        ({
            let (sel, off) = spec_next_row(Some(i), row_offset, height, total_rows);
            spec_previous_row(Some(sel), off, height) == (i, row_offset)
        }),
{
}

/// Moving down stays on the page while the selection is above its last row. From
/// the last row of the page it turns to the next page exactly when a row follows in
/// a table of `count` rows (the first row of the page plus the selected row is below
/// `count`); otherwise the selection and the page stay as they are.
pub proof fn lemma_next_row_turns_only_before_the_end(i: usize, row_offset: u32, height: u32, count: u32)
    requires
        height >= 1,
    ensures
        i < height - 1 ==> spec_next_row(Some(i), row_offset, height, Some(count)) == ((i + 1) as usize, row_offset),
        i >= height - 1 && row_offset + i >= count ==> spec_next_row(Some(i), row_offset, height, Some(count))
            == (i, row_offset),
        i >= height - 1 && row_offset + i < count ==> spec_next_row(Some(i), row_offset, height, Some(count))
            == (0usize, if row_offset + height > u32::MAX {
            u32::MAX
        } else {
            (row_offset + height) as u32
        }),
{
}

/// The total width that the columns may take on screen.
pub const MAX_TOTAL_WIDTH: u16 = 92;

/// The sum of a sequence of widths.
pub open spec fn seq_sum(s: Seq<u16>) -> int
    decreases s.len(),
{
    if s.len() == 0 {
        0
    } else {
        seq_sum(s.drop_last()) + s.last()
    }
}

/// The first index, among the first `n`, that holds the largest width.
pub open spec fn first_max_index(s: Seq<u16>, n: nat) -> int
    decreases n,
{
    if n <= 1 {
        0
    } else {
        let k = first_max_index(s, (n - 1) as nat);
        if s[n - 1] > s[k] {
            n - 1
        } else {
            k
        }
    }
}

/// One trimming step: the first of the widest columns loses one unit.
pub open spec fn trim_once(s: Seq<u16>) -> Seq<u16> {
    let k = first_max_index(s, s.len());
    s.update(k, (s[k] - 1) as u16)
}

/// `n` trimming steps.
pub open spec fn trim_steps(s: Seq<u16>, n: nat) -> Seq<u16>
    decreases n,
{
    if n == 0 {
        s
    } else {
        trim_steps(trim_once(s), (n - 1) as nat)
    }
}

/// The widths trimmed, one unit at a time from the first widest column, until they
/// add up to no more than `MAX_TOTAL_WIDTH`.
pub open spec fn fit_widths(s: Seq<u16>) -> Seq<u16> {
    if seq_sum(s) <= MAX_TOTAL_WIDTH {
        s
    } else {
        trim_steps(s, (seq_sum(s) - MAX_TOTAL_WIDTH) as nat)
    }
}

/// The width that a cell asks for, cut to 16 bits.
pub open spec fn cell_width(item: DataItem) -> u16 {
    (spec_item_len(item) as usize) as u16
}

/// The width that a header asks for, cut to 16 bits.
pub open spec fn header_width(h: String) -> u16 {
    (vstd::utf8::encode_utf8(h@).len() as usize) as u16
}

/// The width of column `i` over the header and the first `k` rows: the largest
/// width that any of them asks for.
pub open spec fn column_width_upto(
    headers: Seq<String>,
    rows: Seq<Vec<DataItem>>,
    i: int,
    k: nat,
) -> u16
    decreases k,
{
    if k == 0 {
        header_width(headers[i])
    } else {
        let prev = column_width_upto(headers, rows, i, (k - 1) as nat);
        let row = rows[k - 1]@;
        if i < row.len() && cell_width(row[i]) > prev {
            cell_width(row[i])
        } else {
            prev
        }
    }
}

/// The widths that the columns ask for, before any trimming.
pub open spec fn raw_widths(headers: Seq<String>, rows: Seq<Vec<DataItem>>) -> Seq<u16> {
    Seq::new(headers.len(), |i: int| column_width_upto(headers, rows, i, rows.len()))
}

proof fn lemma_seq_sum_update(s: Seq<u16>, k: int, v: u16)
    requires
        0 <= k < s.len(),
    ensures
        seq_sum(s.update(k, v)) == seq_sum(s) - s[k] + v,
    decreases s.len(),
{
    let t = s.update(k, v);
    if k == s.len() - 1 {
        assert(t.drop_last() =~= s.drop_last());
    } else {
        lemma_seq_sum_update(s.drop_last(), k, v);
        assert(t.drop_last() =~= s.drop_last().update(k, v));
    }
}

proof fn lemma_seq_sum_bound(s: Seq<u16>, m: u16)
    requires
        forall|j: int| 0 <= j < s.len() ==> s[j] <= m,
    ensures
        0 <= seq_sum(s) <= s.len() * m,
    decreases s.len(),
{
    if s.len() > 0 {
        lemma_seq_sum_bound(s.drop_last(), m);
        assert(s.len() * m == (s.len() - 1) * m + m) by (nonlinear_arith);
    }
}

proof fn lemma_seq_sum_push(s: Seq<u16>, v: u16)
    ensures
        seq_sum(s.push(v)) == seq_sum(s) + v,
{
    assert(s.push(v).drop_last() =~= s);
}

proof fn lemma_first_max_index(s: Seq<u16>, n: nat)
    requires
        1 <= n <= s.len(),
    ensures
        0 <= first_max_index(s, n) < n,
        forall|j: int| 0 <= j < n ==> #[trigger] s[j] <= s[first_max_index(s, n)],
    decreases n,
{
    if n > 1 {
        lemma_first_max_index(s, (n - 1) as nat);
    }
}

proof fn lemma_trim_once(s: Seq<u16>)
    requires
        seq_sum(s) > 0,
    ensures
        seq_sum(trim_once(s)) == seq_sum(s) - 1,
        trim_once(s).len() == s.len(),
        forall|j: int| 0 <= j < s.len() ==> trim_once(s)[j] <= s[j],
{
    if s.len() == 0 {
    } else {
        let k = first_max_index(s, s.len());
        lemma_first_max_index(s, s.len());
        if s[k] == 0 {
            lemma_seq_sum_bound(s, 0);
        }
        lemma_seq_sum_update(s, k, (s[k] - 1) as u16);
    }
}

proof fn lemma_trim_steps_last(s: Seq<u16>, n: nat)
    ensures
        trim_steps(s, n + 1) == trim_once(trim_steps(s, n)),
    decreases n,
{
    reveal_with_fuel(trim_steps, 2);
    if n > 0 {
        lemma_trim_steps_last(trim_once(s), (n - 1) as nat);
        assert(trim_steps(s, n + 1) == trim_steps(trim_once(s), n));
        assert(trim_steps(s, n) == trim_steps(trim_once(s), (n - 1) as nat));
    }
}

proof fn lemma_trim_steps(s: Seq<u16>, n: nat)
    requires
        n <= seq_sum(s),
    ensures
        seq_sum(trim_steps(s, n)) == seq_sum(s) - n,
        trim_steps(s, n).len() == s.len(),
        forall|j: int| 0 <= j < s.len() ==> trim_steps(s, n)[j] <= s[j],
    decreases n,
{
    if n > 0 {
        lemma_trim_once(s);
        lemma_trim_steps(trim_once(s), (n - 1) as nat);
    }
}

/// Trimming leaves as many columns, makes none wider, makes them fit in
/// `MAX_TOTAL_WIDTH`, and leaves widths that already fit as they are.
pub proof fn lemma_fit_widths(s: Seq<u16>)
    ensures
        fit_widths(s).len() == s.len(),
        seq_sum(fit_widths(s)) <= MAX_TOTAL_WIDTH,
        forall|j: int| 0 <= j < s.len() ==> fit_widths(s)[j] <= s[j],
        seq_sum(s) <= MAX_TOTAL_WIDTH ==> fit_widths(s) == s,
        seq_sum(s) > MAX_TOTAL_WIDTH ==> seq_sum(fit_widths(s)) == MAX_TOTAL_WIDTH,
{
    if seq_sum(s) > MAX_TOTAL_WIDTH {
        lemma_trim_steps(s, (seq_sum(s) - MAX_TOTAL_WIDTH) as nat);
    }
}

/// Every column of `s` that is narrower than in `s0` is at most one unit narrower
/// than any other column of `s`.
pub open spec fn trimmed_near_widest(s0: Seq<u16>, s: Seq<u16>) -> bool {
    forall|i: int, j: int|
        #![trigger s[i], s0[j]]
        0 <= i < s.len() && 0 <= j < s.len() && s[j] < s0[j] ==> s[i] <= s[j] + 1
}

proof fn lemma_trim_once_near(s0: Seq<u16>, s: Seq<u16>)
    requires
        s.len() == s0.len(),
        seq_sum(s) > 0,
        forall|j: int| 0 <= j < s.len() ==> #[trigger] s[j] <= s0[j],
        trimmed_near_widest(s0, s),
    ensures
        forall|j: int| 0 <= j < s.len() ==> #[trigger] trim_once(s)[j] <= s0[j],
        trimmed_near_widest(s0, trim_once(s)),
{
    lemma_trim_once(s);
    let t = trim_once(s);
    let k = first_max_index(s, s.len());
    lemma_first_max_index(s, s.len());
    assert forall|i: int, j: int|
        #![trigger t[i], s0[j]]
        0 <= i < t.len() && 0 <= j < t.len() && t[j] < s0[j] implies t[i] <= t[j] + 1 by {
        assert(s[i] <= s[k]);
        if j == k {
            if i != k {
                assert(t[i] == s[i]);
            }
        } else {
            assert(t[j] == s[j]);
            assert(s[i] <= s[j] + 1);
        }
    }
}

proof fn lemma_trim_steps_near(s0: Seq<u16>, s: Seq<u16>, n: nat)
    requires
        s.len() == s0.len(),
        n <= seq_sum(s),
        forall|j: int| 0 <= j < s.len() ==> #[trigger] s[j] <= s0[j],
        trimmed_near_widest(s0, s),
    ensures
        trimmed_near_widest(s0, trim_steps(s, n)),
    decreases n,
{
    if n > 0 {
        lemma_trim_once(s);
        lemma_trim_once_near(s0, s);
        lemma_trim_steps_near(s0, trim_once(s), (n - 1) as nat);
    }
}

/// Where the columns ask for more than `MAX_TOTAL_WIDTH`, only the widest ones lose
/// width: a column that was trimmed ends at most one unit narrower than any other.
pub proof fn lemma_fit_widths_trims_widest(s: Seq<u16>)
    ensures
        forall|i: int, j: int|
            #![trigger fit_widths(s)[i], fit_widths(s)[j]]
            0 <= i < s.len() && 0 <= j < s.len() && fit_widths(s)[j] < s[j] ==> fit_widths(s)[i]
                <= fit_widths(s)[j] + 1,
{
    if seq_sum(s) > MAX_TOTAL_WIDTH {
        let n = (seq_sum(s) - MAX_TOTAL_WIDTH) as nat;
        lemma_trim_steps_near(s, s, n);
        lemma_trim_steps(s, n);
        let f = fit_widths(s);
        let t = trim_steps(s, n);
        assert(f == t);
        assert forall|i: int, j: int|
            #![trigger f[i], f[j]]
            0 <= i < s.len() && 0 <= j < s.len() && f[j] < s[j] implies f[i] <= f[j] + 1 by {
            assert(t[j] < s[j]);
            assert(t[i] <= t[j] + 1);
        }
    }
}

proof fn lemma_column_width_upto_bounds(headers: Seq<String>, rows: Seq<Vec<DataItem>>, i: int, k: nat)
    requires
        k <= rows.len(),
    ensures
        column_width_upto(headers, rows, i, k) >= header_width(headers[i]),
        forall|m: int|
            0 <= m < k && i < rows[m]@.len() ==> column_width_upto(headers, rows, i, k) >= cell_width(
                #[trigger] rows[m]@[i],
            ),
        column_width_upto(headers, rows, i, k) == header_width(headers[i]) || exists|m: int|
            0 <= m < k && i < rows[m]@.len() && column_width_upto(headers, rows, i, k) == cell_width(
                #[trigger] rows[m]@[i],
            ),
    decreases k,
{
    if k > 0 {
        lemma_column_width_upto_bounds(headers, rows, i, (k - 1) as nat);
        let prev = column_width_upto(headers, rows, i, (k - 1) as nat);
        let row = rows[k - 1]@;
        if i < row.len() && cell_width(row[i]) > prev {
            assert(rows[k - 1]@[i] == row[i]);
        }
    }
}

/// Before trimming, each column is as wide as the widest of its header and of its
/// cells on every row of the page: no narrower than any of them, and as wide as one
/// of them.
pub proof fn lemma_raw_widths_cover_all_rows(headers: Seq<String>, rows: Seq<Vec<DataItem>>)
    ensures
        raw_widths(headers, rows).len() == headers.len(),
        forall|i: int|
            0 <= i < headers.len() ==> #[trigger] raw_widths(headers, rows)[i] >= header_width(headers[i]),
        forall|i: int, k: int|
            0 <= i < headers.len() && 0 <= k < rows.len() && i < rows[k]@.len() ==> raw_widths(
                headers,
                rows,
            )[i] >= cell_width(#[trigger] rows[k]@[i]),
        forall|i: int|
            0 <= i < headers.len() ==> #[trigger] raw_widths(headers, rows)[i] == header_width(headers[i])
                || exists|k: int|
                0 <= k < rows.len() && i < rows[k]@.len() && raw_widths(headers, rows)[i] == cell_width(
                    #[trigger] rows[k]@[i],
                ),
{
    assert forall|i: int| 0 <= i < headers.len() implies {
        &&& raw_widths(headers, rows)[i] >= header_width(headers[i])
        &&& forall|k: int|
            0 <= k < rows.len() && i < rows[k]@.len() ==> raw_widths(headers, rows)[i] >= cell_width(
                #[trigger] rows[k]@[i],
            )
        &&& raw_widths(headers, rows)[i] == header_width(headers[i]) || exists|k: int|
            0 <= k < rows.len() && i < rows[k]@.len() && raw_widths(headers, rows)[i] == cell_width(
                #[trigger] rows[k]@[i],
            )
    } by {
        lemma_column_width_upto_bounds(headers, rows, i, rows.len());
    }
}

/// The cell widths as the rows are scanned.
proof fn lemma_column_width_step(
    headers: Seq<String>,
    rows: Seq<Vec<DataItem>>,
    i: int,
    k: nat,
)
    requires
        k < rows.len(),
    ensures
        column_width_upto(headers, rows, i, k + 1) == if i < rows[k as int]@.len()
            && cell_width(rows[k as int]@[i]) > column_width_upto(headers, rows, i, k) {
            cell_width(rows[k as int]@[i])
        } else {
            column_width_upto(headers, rows, i, k)
        },
{
}

impl DatabaseSlice {
    pub fn new(
        headers: Vec<String>,
        data_rows: Vec<Vec<DataItem>>,
        table_state: TableState,
        row_idx: u32,
        row_offset: u32,
    ) -> (s: Self)
        ensures
            s.headers == headers,
            s.data_rows == data_rows,
            s.table_state == table_state,
            s.row_offset == row_offset,
            !s.is_unchanged,
    {
        Self { headers, data_rows, table_state, row_offset, is_unchanged: false }
    }

    /// The widths of the columns on screen: each column as wide as its widest
    /// cell or header, then trimmed until all columns fit in `MAX_TOTAL_WIDTH`.
    pub fn column_widths(&mut self) -> (r: Vec<u16>)
        requires
            forall|k: int|
                0 <= k < old(self).data_rows@.len() ==> (#[trigger] old(self).data_rows@[k])@.len()
                    <= old(self).headers@.len(),
            old(self).headers@.len() <= u32::MAX,
        ensures
            *final(self) == *old(self),
            r@ == fit_widths(raw_widths(old(self).headers@, old(self).data_rows@)),
            seq_sum(raw_widths(old(self).headers@, old(self).data_rows@)) <= MAX_TOTAL_WIDTH ==> forall|
                i: int,
                k: int,
            |
                0 <= i < r@.len() && 0 <= k < old(self).data_rows@.len() && i < old(self).data_rows@[k]@.len()
                    ==> r@[i] >= cell_width(#[trigger] old(self).data_rows@[k]@[i]),
            seq_sum(raw_widths(old(self).headers@, old(self).data_rows@)) <= MAX_TOTAL_WIDTH ==> forall|i: int|
                0 <= i < r@.len() ==> #[trigger] r@[i] >= header_width(old(self).headers@[i]),
            r@.len() == old(self).headers@.len(),
            seq_sum(r@) <= MAX_TOTAL_WIDTH,
            forall|j: int|
                0 <= j < r@.len() ==> r@[j] <= raw_widths(old(self).headers@, old(self).data_rows@)[j],
    {
        let ghost headers = self.headers@;
        let ghost rows = self.data_rows@;
        let n = self.headers.len();
        let mut max_widths: Vec<u16> = Vec::new();
        let mut h: usize = 0;
        while h < n
            invariant
                n == headers.len(),
                headers == self.headers@,
                h <= n,
                max_widths@.len() == h,
                forall|i: int| 0 <= i < h ==> max_widths@[i] == column_width_upto(headers, rows, i, 0),
            decreases n - h,
        {
            let w = #[verifier::truncate] (self.headers[h].as_str().len() as u16);
            max_widths.push(w);
            h = h + 1;
        }
        let mut r: usize = 0;
        while r < self.data_rows.len()
            invariant
                n == headers.len(),
                headers == self.headers@,
                rows == self.data_rows@,
                r <= rows.len(),
                max_widths@.len() == n,
                forall|k: int| 0 <= k < rows.len() ==> (#[trigger] rows[k])@.len() <= n,
                forall|i: int| 0 <= i < n ==> max_widths@[i] == column_width_upto(headers, rows, i, r as nat),
            decreases rows.len() - r,
        {
            let row = &self.data_rows[r];
            let mut j: usize = 0;
            while j < row.len()
                invariant
                    n == headers.len(),
                    rows == self.data_rows@,
                    r < rows.len(),
                    row == rows[r as int],
                    row@.len() <= n,
                    j <= row@.len(),
                    max_widths@.len() == n,
                    forall|i: int|
                        0 <= i < n ==> max_widths@[i] == if i < j {
                            column_width_upto(headers, rows, i, (r + 1) as nat)
                        } else {
                            column_width_upto(headers, rows, i, r as nat)
                        },
                decreases row@.len() - j,
            {
                proof {
                    lemma_column_width_step(headers, rows, j as int, r as nat);
                }
                let len = #[verifier::truncate] (row[j].len() as u16);
                if len > max_widths[j] {
                    max_widths.set(j, len);
                }
                j = j + 1;
            }
            proof {
                assert forall|i: int| 0 <= i < n implies max_widths@[i] == column_width_upto(
                    headers,
                    rows,
                    i,
                    (r + 1) as nat,
                ) by {
                    if i >= row@.len() {
                        lemma_column_width_step(headers, rows, i, r as nat);
                    }
                }
            }
            r = r + 1;
        }
        let ghost raw = max_widths@;
        assert(raw =~= raw_widths(headers, rows));
        let mut total: u64 = sum_widths(&max_widths);
        let ghost mut steps: nat = 0;
        while total > MAX_TOTAL_WIDTH as u64
            invariant
                max_widths@ == trim_steps(raw, steps),
                total == seq_sum(max_widths@),
                total == seq_sum(raw) - steps,
                max_widths@.len() == raw.len(),
                forall|j: int| 0 <= j < raw.len() ==> max_widths@[j] <= raw[j],
                seq_sum(raw) > MAX_TOTAL_WIDTH ==> total >= MAX_TOTAL_WIDTH,
                seq_sum(raw) <= MAX_TOTAL_WIDTH ==> steps == 0,
            decreases total,
        {
            proof {
                lemma_trim_once(max_widths@);
                lemma_trim_steps_last(raw, steps);
                lemma_first_max_index(max_widths@, max_widths@.len() as nat);
            }
            let k = first_max_position(&max_widths);
            let v = max_widths[k];
            proof {
                if v == 0 {
                    lemma_seq_sum_bound(max_widths@, 0);
                }
            }
            max_widths.set(k, v - 1);
            total = total - 1;
            proof {
                steps = steps + 1;
            }
        }
        proof {
            lemma_fit_widths(raw);
            lemma_raw_widths_cover_all_rows(headers, rows);
            if seq_sum(raw) > MAX_TOTAL_WIDTH {
                assert(steps == seq_sum(raw) - MAX_TOTAL_WIDTH);
            }
        }
        max_widths
    }

    /// Selects row `row_idx` of the page that starts at `row_offset`, and marks the
    /// page for fetching again.
    pub fn update(&mut self, row_idx: u32, row_offset: u32)
        ensures
            final(self).table_state.selected == Some(row_idx as usize),
            final(self).table_state.offset == old(self).table_state.offset,
            final(self).row_offset == row_offset,
            !final(self).is_unchanged,
            final(self).headers == old(self).headers,
            final(self).data_rows == old(self).data_rows,
    {
        self.table_state.select(Some(row_idx as usize));
        self.row_offset = row_offset;
        self.is_unchanged = false;
    }

    /// Moves the selection one row down. On the last row of a page (of `height`
    /// rows) it turns to the first row of the next page, unless the table (of
    /// `total_rows` rows; any number where it is unknown) has no more rows.
    pub fn next_row(&mut self, height: u32, total_rows: Option<u32>)
        requires
            height >= 1,
        ensures
            final(self).headers == old(self).headers,
            final(self).data_rows == old(self).data_rows,
            final(self).table_state.offset == old(self).table_state.offset,
            ({
                let (sel, off) = spec_next_row(
                    old(self).table_state.selected,
                    old(self).row_offset,
                    height,
                    total_rows,
                );
                final(self).table_state.selected == Some(sel) && final(self).row_offset == off
            }),
            final(self).is_unchanged == (old(self).is_unchanged && !spec_next_row_turns_page(
                old(self).table_state.selected,
                old(self).row_offset,
                height,
                total_rows,
            )),
    {
        let i = match self.table_state.selected() {
            Some(i) => {
                if (i as u64) < (height - 1) as u64 {
                    i + 1
                } else {
                    let max = match total_rows {
                        Some(t) => t,
                        None => u32::MAX,
                    };
                    if (i as u64) < (max as u64) && (self.row_offset as u64) < (max as u64) - (i as u64) {
                        self.row_offset = self.row_offset.saturating_add(height);
                        self.has_changed();
                        0
                    } else {
                        i
                    }
                }
            },
            None => 0,
        };
        self.table_state.select(Some(i));
    }

    /// Moves the selection one row up. On the first row of a page that is not the
    /// first, it turns to the last row (of `height`) of the page before.
    pub fn previous_row(&mut self, height: u32)
        requires
            height >= 1 || !spec_previous_row_turns_page(
                old(self).table_state.selected,
                old(self).row_offset,
            ),
        ensures
            final(self).headers == old(self).headers,
            final(self).data_rows == old(self).data_rows,
            final(self).table_state.offset == old(self).table_state.offset,
            ({
                let (sel, off) = spec_previous_row(old(self).table_state.selected, old(self).row_offset, height);
                final(self).table_state.selected == Some(sel) && final(self).row_offset == off
            }),
            final(self).is_unchanged == (old(self).is_unchanged && !spec_previous_row_turns_page(
                old(self).table_state.selected,
                old(self).row_offset,
            )),
    {
        let i = match self.table_state.selected() {
            Some(i) => {
                if i == 0 && self.row_offset != 0 {
                    self.row_offset = self.row_offset.saturating_sub(height);
                    self.has_changed();
                    (height - 1) as usize
                } else {
                    i.saturating_sub(1)
                }
            },
            None => 0,
        };
        self.table_state.select(Some(i));
    }

    pub fn is_unchanged(&self) -> (b: bool)
        ensures
            b == self.is_unchanged,
    {
        self.is_unchanged
    }

    /// Marks the page for fetching again.
    pub fn has_changed(&mut self)
        ensures
            !final(self).is_unchanged,
            final(self).headers == old(self).headers,
            final(self).data_rows == old(self).data_rows,
            final(self).table_state == old(self).table_state,
            final(self).row_offset == old(self).row_offset,
    {
        self.is_unchanged = false;
    }
}

/// The sum of the widths, for at most `u32::MAX` of them.
fn sum_widths(w: &Vec<u16>) -> (t: u64)
    requires
        w@.len() <= u32::MAX,
    ensures
        t == seq_sum(w@),
{
    let mut t: u64 = 0;
    let mut i: usize = 0;
    while i < w.len()
        invariant
            i <= w@.len(),
            w@.len() <= u32::MAX,
            t == seq_sum(w@.take(i as int)),
            t <= i * 0xffff,
        decreases w@.len() - i,
    {
        proof {
            lemma_seq_sum_push(w@.take(i as int), w@[i as int]);
            assert(w@.take(i as int).push(w@[i as int]) =~= w@.take(i + 1));
            assert(i * 0xffff <= 0xffff_ffff * 0xffff) by (nonlinear_arith)
                requires
                    i <= 0xffff_ffff,
            ;
        }
        t = t + w[i] as u64;
        i = i + 1;
    }
    assert(w@.take(i as int) =~= w@);
    t
}

/// A prefix adds up to no more than the whole.
proof fn lemma_seq_sum_prefix(s: Seq<u16>, n: int)
    requires
        0 <= n <= s.len(),
    ensures
        seq_sum(s.take(n)) <= seq_sum(s),
    decreases s.len(),
{
    if n < s.len() {
        assert(s.drop_last().take(n) =~= s.take(n));
        lemma_seq_sum_prefix(s.drop_last(), n);
    } else {
        assert(s.take(n) =~= s);
    }
}

/// The first index that holds the largest width.
fn first_max_position(w: &Vec<u16>) -> (k: usize)
    requires
        w@.len() > 0,
    ensures
        k == first_max_index(w@, w@.len() as nat),
{
    let mut k: usize = 0;
    let mut i: usize = 1;
    while i < w.len()
        invariant
            1 <= i <= w@.len(),
            k == first_max_index(w@, i as nat),
            k < i,
        decreases w@.len() - i,
    {
        if w[i] > w[k] {
            k = i;
        }
        i = i + 1;
    }
    k
}

} // verus!
