use vstd::prelude::*;

verus! {

/// The fewest samples for which a trend (percent change, slope) is defined.
pub const MIN_TREND_LEN: usize = 2;

/// The length of the window that two series share: the shorter length.
pub open spec fn shared_len(len_a: nat, len_b: nat) -> nat {
    if len_a <= len_b {
        len_a
    } else {
        len_b
    }
}

/// The window of a statistic that needs at least `min_len` samples: all `len`
/// samples, or none (the statistic is undefined) where there are fewer.
pub open spec fn spec_window(len: nat, min_len: nat) -> Option<nat> {
    if len < min_len {
        None
    } else {
        Some(len)
    }
}

/// The window of a correlation of two series: the samples at the indices below
/// the shorter length, or none where either series is empty.
pub open spec fn spec_pearson_window(len_a: nat, len_b: nat) -> Option<nat> {
    spec_window(shared_len(len_a, len_b), 1)
}

/// The optional window seen as a mathematical value.
pub open spec fn window_view(r: Option<usize>) -> Option<nat> {
    match r {
        Some(k) => Some(k as nat),
        None => None,
    }
}

/// The number of leading samples that the mean of a series of `len` samples
/// sums and divides by, or `None` where the mean is undefined (an empty series).
pub fn mean_window(len: usize) -> (r: Option<usize>)
    ensures
        window_view(r) == spec_window(len as nat, 1),
        r is None <==> len == 0,
{
    if len == 0 {
        None
    } else {
        Some(len)
    }
}

/// The indices of the first and the last sample, which alone the percent
/// change of a series of `len` samples reads, or `None` where it is undefined
/// (fewer than two samples). A first sample equal to zero makes it undefined
/// too; that test is on the sample's value.
pub fn pct_change_endpoints(len: usize) -> (r: Option<(usize, usize)>)
    ensures
        r is None <==> len < MIN_TREND_LEN,
        len >= MIN_TREND_LEN ==> r == Some((0usize, (len - 1) as usize)),
        r matches Some((first, last)) ==> first < last && last < len,
{
    if len < MIN_TREND_LEN {
        None
    } else {
        Some((0, len - 1))
    }
}

/// The number of leading samples that the least-squares slope of a series of
/// `len` samples over their indices regresses, or `None` where the slope is
/// undefined (fewer than two samples).
pub fn slope_window(len: usize) -> (r: Option<usize>)
    ensures
        window_view(r) == spec_window(len as nat, MIN_TREND_LEN as nat),
        r is None <==> len < MIN_TREND_LEN,
{
    if len < MIN_TREND_LEN {
        None
    } else {
        Some(len)
    }
}

/// The number of leading samples of each series that the correlation of a
/// series of `len_a` samples with one of `len_b` samples reads: the shorter
/// length, or `None` where either series is empty. Samples of the longer
/// series past that window are never read.
pub fn pearson_window(len_a: usize, len_b: usize) -> (r: Option<usize>)
    ensures
        window_view(r) == spec_pearson_window(len_a as nat, len_b as nat),
        r is None <==> len_a == 0 || len_b == 0,
        r matches Some(n) ==> n <= len_a && n <= len_b && (n == len_a || n == len_b),
{
    let n: usize = if len_a <= len_b {
        len_a
    } else {
        len_b
    };
    if n == 0 {
        None
    } else {
        Some(n)
    }
}

/// Appending samples to the longer of two series leaves the window of their
/// correlation unchanged: the samples read stay those of the first
/// `min(len_a, len_b)` indices of each.
pub proof fn lemma_pearson_window_ignores_tail(len_a: nat, len_b: nat, extra: nat)
    ensures
        len_a >= len_b ==> spec_pearson_window(len_a + extra, len_b)
            == spec_pearson_window(len_a, len_b),
        len_b >= len_a ==> spec_pearson_window(len_a, len_b + extra)
            == spec_pearson_window(len_a, len_b),
{
}

} // verus!
