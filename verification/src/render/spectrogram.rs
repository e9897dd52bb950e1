//! Column bucketing for the spectrogram rows; it spreads bins the same way the bars do.
use vstd::prelude::*;
use super::bars::{column_bins, column_range_fits};

verus! {

/// The half-open range of spectrogram bins drawn in `column` out of `columns`.
pub fn column_range(len: usize, column: usize, columns: usize) -> (r: Option<
    core::ops::Range<usize>,
>)
    requires
        column_range_fits(len, column, columns),
    ensures
        r is None <==> column_bins(len as int, column as int, columns as int) is None,
        r matches Some(rg) ==> {
            &&& column_bins(len as int, column as int, columns as int) == Some(
                (rg.start as int, rg.end as int),
            )
            &&& rg.start < rg.end <= len
        },
{
    super::bars::column_range(len, column, columns)
}

} // verus!
