//! Column bucketing for the bar spectrum: which FFT bins each terminal column shows.
use vstd::prelude::*;

verus! {

/// First bin of column `column` when `len` bins are spread over `columns` columns.
pub open spec fn column_start(len: int, column: int, columns: int) -> int {
    column * len / columns
}

/// One past the last bin of column `column`: the proportional end, but at least one bin.
pub open spec fn column_end(len: int, column: int, columns: int) -> int {
    let start = column_start(len, column, columns);
    let end = (column + 1) * len / columns;
    if end <= start {
        start + 1
    } else {
        end
    }
}

/// The bins shown by `column`, or `None` when there is no data or the column does not exist.
pub open spec fn column_bins(len: int, column: int, columns: int) -> Option<(int, int)> {
    if len == 0 || columns == 0 || column >= columns {
        None
    } else {
        Some((column_start(len, column, columns), column_end(len, column, columns)))
    }
}

/// The products that `column_range` computes fit in a `usize`.
pub open spec fn column_range_fits(len: usize, column: usize, columns: usize) -> bool {
    len == 0 || columns == 0 || column >= columns || (column + 1) * len <= usize::MAX
}

proof fn lemma_column_bounds(len: int, column: int, columns: int)
    requires
        0 < len,
        0 <= column < columns,
    ensures
        0 <= column_start(len, column, columns) < len,
        column_start(len, column, columns) <= (column + 1) * len / columns <= len,
        column_start(len, column, columns) < column_end(len, column, columns) <= len,
{
    assert(0 <= column * len / columns < len) by (nonlinear_arith)
        requires
            0 < len,
            0 <= column < columns,
    {
        assert(column * len < columns * len);
        assert(column * len <= columns * len - len);
    }
    assert(column * len / columns <= (column + 1) * len / columns <= len) by (nonlinear_arith)
        requires
            0 < len,
            0 <= column < columns,
    {
        assert(column * len <= (column + 1) * len);
        assert((column + 1) * len <= columns * len);
        vstd::arithmetic::div_mod::lemma_div_is_ordered(column * len, (column + 1) * len, columns);
        vstd::arithmetic::div_mod::lemma_div_is_ordered((column + 1) * len, columns * len, columns);
        vstd::arithmetic::div_mod::lemma_div_by_multiple(len, columns);
    }
}

/// The half-open range of data indices drawn in `column` out of `columns`.
pub fn column_range(len: usize, column: usize, columns: usize) -> (r: Option<
    core::ops::Range<usize>,
>)
    requires
        column_range_fits(len, column, columns),
    ensures
        r is None <==> column_bins(len as int, column as int, columns as int) is None,
        r matches Some(rg) ==> {
            &&& column_bins(len as int, column as int, columns as int) == Some(
                (rg.start as int, rg.end as int),
            )
            &&& rg.start < rg.end <= len
        },
{
    if len == 0 || columns == 0 || column >= columns {
        return None;
    }
    proof {
        lemma_column_bounds(len as int, column as int, columns as int);
        assert(column * len <= (column + 1) * len) by (nonlinear_arith)
            requires
                0 <= column,
                0 <= len,
        ;
    }
    let start = column * len / columns;
    let mut end = (column + 1) * len / columns;
    if end <= start {
        end = start + 1;
    }
    let lo = if start < len { start } else { len };
    let hi = if end < len { end } else { len };
    Some(lo..hi)
}

/// The block glyph used for every filled cell of a bar.
pub fn get_block_char(_y: u16, _max: u16) -> (s: &'static str)
    ensures
        s@ == "\u{2588}"@,
{
    "\u{2588}"
}

/// Adjacent columns leave no gap: column 0 starts at the first bin, the last column ends
/// at the last bin, starts never decrease, and each column starts no later than the
/// previous one ends, so every bin is drawn by some column.
pub proof fn lemma_columns_cover(len: int, columns: int, column: int)
    requires
        0 < len,
        0 < columns,
        0 <= column < columns,
    ensures
        column_start(len, 0, columns) == 0,
        column_end(len, columns - 1, columns) == len,
        column + 1 < columns ==> column_start(len, column, columns) <= column_start(
            len,
            column + 1,
            columns,
        ),
        column + 1 < columns ==> column_start(len, column + 1, columns) <= column_end(
            len,
            column,
            columns,
        ),
{
    lemma_column_bounds(len, column, columns);
    lemma_column_bounds(len, columns - 1, columns);
    assert(columns * len / columns == len) by (nonlinear_arith)
        requires
            0 < columns,
            0 < len,
    {
        vstd::arithmetic::div_mod::lemma_div_by_multiple(len, columns);
    }
    if column + 1 < columns {
        lemma_column_bounds(len, column + 1, columns);
    }
}

/// When there are at least as many bins as columns, the columns tile the bins exactly:
/// each column ends where the next one starts, so no bin is drawn twice.
pub proof fn lemma_columns_tile(len: int, columns: int, column: int)
    requires
        0 < columns <= len,
        0 <= column,
        column + 1 < columns,
    ensures
        column_end(len, column, columns) == column_start(len, column + 1, columns),
{
    assert(column * len / columns + 1 <= (column + 1) * len / columns) by (nonlinear_arith)
        requires
            0 < columns <= len,
            0 <= column,
    {
        vstd::arithmetic::div_mod::lemma_fundamental_div_mod(column * len, columns);
        vstd::arithmetic::div_mod::lemma_fundamental_div_mod((column + 1) * len, columns);
        assert((column + 1) * len == column * len + len);
    }
}

} // verus!
