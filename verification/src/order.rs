//! Order statistics: first-occurrence extrema with an explicit NaN policy,
//! and median / quantile extraction from pre-sorted data.
//!
//! The extremum scans stop the moment a NaN is met: the NaN and its index are
//! reported, whatever the true numeric extremum was.  IEEE comparison is
//! always false against a NaN, so this takes an explicit NaN test per
//! element; the contracts below state the policy in full.  The median and
//! quantile functions trust the caller to have sorted the data ascending.

use vstd::prelude::*;

use crate::ieee::{
    ZERO_BITS, ONE_BITS, TWO_BITS, is_nan_bits, spec_lt, spec_gt, add_bits, sub_bits, mul_bits,
    div_bits, from_i64_bits, trunc_i32_bits, is_nan64, lt64, gt64, add64, sub64, mul64, div64,
    from_i64, to_i32_trunc, lemma_lt_asym, lemma_le_lt_trans, lemma_lt_le_trans,
};

verus! {

/// No element of the sequence is a NaN.
pub open spec fn nan_free(data: Seq<u64>) -> bool {
    forall|j: int| 0 <= j < data.len() ==> !is_nan_bits(data[j])
}

/// `v` at index `idx` is the first occurrence of the maximum: `v` is there,
/// nothing anywhere is greater, and everything before it is strictly less.
pub open spec fn is_first_max(data: Seq<u64>, v: u64, idx: int) -> bool {
    &&& 0 <= idx < data.len()
    &&& data[idx] == v
    &&& forall|j: int| 0 <= j < data.len() ==> !spec_gt(data[j], v)
    &&& forall|j: int| 0 <= j < idx ==> spec_lt(data[j], v)
}

/// `v` at index `idx` is the first occurrence of the minimum.
pub open spec fn is_first_min(data: Seq<u64>, v: u64, idx: int) -> bool {
    &&& 0 <= idx < data.len()
    &&& data[idx] == v
    &&& forall|j: int| 0 <= j < data.len() ==> !spec_lt(data[j], v)
    &&& forall|j: int| 0 <= j < idx ==> spec_gt(data[j], v)
}

/// `v` at index `idx` is the first NaN of the sequence.
pub open spec fn is_first_nan(data: Seq<u64>, v: u64, idx: int) -> bool {
    &&& 0 <= idx < data.len()
    &&& data[idx] == v
    &&& is_nan_bits(v)
    &&& forall|j: int| 0 <= j < idx ==> !is_nan_bits(data[j])
}

/// Finds the first largest member and its position.  The instant a NaN is
/// met it becomes the reported extremum with its own index and the scan
/// stops.
pub fn max(data: &Vec<u64>) -> (r: (u64, usize))
    requires
        data.len() >= 1,
    ensures
        nan_free(data@) ==> is_first_max(data@, r.0, r.1 as int),
        !nan_free(data@) ==> is_first_nan(data@, r.0, r.1 as int),
{
    let mut cur: u64 = data[0];
    let mut cur_index: usize = 0;
    let mut i: usize = 0;
    while i < data.len()
        invariant
            data.len() >= 1,
            i <= data@.len(),
            cur_index < data@.len(),
            cur == data@[cur_index as int],
            !is_nan_bits(cur) || i == 0,
            forall|j: int| 0 <= j < i ==> !is_nan_bits(data@[j]),
            forall|j: int| 0 <= j < i ==> !spec_gt(data@[j], cur),
            forall|j: int| 0 <= j < cur_index ==> spec_lt(data@[j], cur),
        decreases data@.len() - i,
    {
        let xi = data[i];
        if gt64(xi, cur) {
            proof {
                assert forall|j: int| 0 <= j < i implies spec_lt(data@[j], xi) by {
                    lemma_le_lt_trans(cur, data@[j], xi);
                }
                assert forall|j: int| 0 <= j < i implies !spec_gt(data@[j], xi) by {
                    lemma_lt_asym(data@[j], xi);
                }
            }
            cur = xi;
            cur_index = i;
        }
        if is_nan64(xi) {
            return (xi, i);
        }
        i = i + 1;
    }
    (cur, cur_index)
}

/// Finds the first smallest member and its position, with the same NaN
/// short-circuit as `max`.
pub fn min(data: &Vec<u64>) -> (r: (u64, usize))
    requires
        data.len() >= 1,
    ensures
        nan_free(data@) ==> is_first_min(data@, r.0, r.1 as int),
        !nan_free(data@) ==> is_first_nan(data@, r.0, r.1 as int),
{
    let mut cur: u64 = data[0];
    let mut cur_index: usize = 0;
    let mut i: usize = 0;
    while i < data.len()
        invariant
            data.len() >= 1,
            i <= data@.len(),
            cur_index < data@.len(),
            cur == data@[cur_index as int],
            !is_nan_bits(cur) || i == 0,
            forall|j: int| 0 <= j < i ==> !is_nan_bits(data@[j]),
            forall|j: int| 0 <= j < i ==> !spec_lt(data@[j], cur),
            forall|j: int| 0 <= j < cur_index ==> spec_gt(data@[j], cur),
        decreases data@.len() - i,
    {
        let xi = data[i];
        if lt64(xi, cur) {
            proof {
                assert forall|j: int| 0 <= j < i implies spec_gt(data@[j], xi) by {
                    lemma_lt_le_trans(xi, cur, data@[j]);
                }
                assert forall|j: int| 0 <= j < i implies !spec_lt(data@[j], xi) by {
                    lemma_lt_asym(xi, data@[j]);
                }
            }
            cur = xi;
            cur_index = i;
        }
        if is_nan64(xi) {
            return (xi, i);
        }
        i = i + 1;
    }
    (cur, cur_index)
}

/// Finds the first smallest and first largest members and their positions in
/// one pass.  On meeting a NaN, both extrema and both indices are overwritten
/// with the NaN occurrence and the scan breaks.
pub fn minmax(data: &Vec<u64>) -> (r: (u64, u32, u64, u32))
    requires
        data.len() >= 1,
        data.len() <= u32::MAX,
    ensures
        nan_free(data@) ==> is_first_min(data@, r.0, r.1 as int) && is_first_max(
            data@,
            r.2,
            r.3 as int,
        ),
        !nan_free(data@) ==> is_first_nan(data@, r.0, r.1 as int) && r.2 == r.0 && r.3 == r.1,
{
    let mut min_index: u32 = 0;
    let mut max_index: u32 = 0;
    let mut cur_min: u64 = data[0];
    let mut cur_max: u64 = data[0];
    let mut i: usize = 0;
    while i < data.len()
        invariant
            data.len() >= 1,
            data.len() <= u32::MAX,
            i <= data@.len(),
            min_index < data@.len(),
            max_index < data@.len(),
            cur_min == data@[min_index as int],
            cur_max == data@[max_index as int],
            !is_nan_bits(cur_min) || i == 0,
            !is_nan_bits(cur_max) || i == 0,
            forall|j: int| 0 <= j < i ==> !is_nan_bits(data@[j]),
            forall|j: int| 0 <= j < i ==> !spec_lt(data@[j], cur_min),
            forall|j: int| 0 <= j < min_index ==> spec_gt(data@[j], cur_min),
            forall|j: int| 0 <= j < i ==> !spec_gt(data@[j], cur_max),
            forall|j: int| 0 <= j < max_index ==> spec_lt(data@[j], cur_max),
        decreases data@.len() - i,
    {
        let xi = data[i];
        if lt64(xi, cur_min) {
            proof {
                assert forall|j: int| 0 <= j < i implies spec_gt(data@[j], xi) by {
                    lemma_lt_le_trans(xi, cur_min, data@[j]);
                }
                assert forall|j: int| 0 <= j < i implies !spec_lt(data@[j], xi) by {
                    lemma_lt_asym(xi, data@[j]);
                }
            }
            cur_min = xi;
            min_index = i as u32;
        }
        if gt64(xi, cur_max) {
            proof {
                assert forall|j: int| 0 <= j < i implies spec_lt(data@[j], xi) by {
                    lemma_le_lt_trans(cur_max, data@[j], xi);
                }
                assert forall|j: int| 0 <= j < i implies !spec_gt(data@[j], xi) by {
                    lemma_lt_asym(data@[j], xi);
                }
            }
            cur_max = xi;
            max_index = i as u32;
        }
        if is_nan64(xi) {
            return (xi, i as u32, xi, i as u32);
        }
        i = i + 1;
    }
    (cur_min, min_index, cur_max, max_index)
}

/// The median of sorted data: the single middle element for odd length, the
/// rounded mean of the two middle elements for even length, zero for empty
/// data.
pub open spec fn spec_median(sorted: Seq<u64>) -> u64 {
    if sorted.len() == 0 {
        ZERO_BITS
    } else if sorted.len() % 2 == 1 {
        sorted[(sorted.len() - 1) as int / 2]
    } else {
        div_bits(
            add_bits(sorted[(sorted.len() - 1) as int / 2], sorted[sorted.len() as int / 2]),
            TWO_BITS,
        )
    }
}

/// Calculates the median of data already sorted ascending.  Whether the data
/// is actually sorted is not checked: on unsorted input the result is simply
/// the same function of the two middle positions.
pub fn median_from_sorted_data(sorted_data: &Vec<u64>) -> (r: u64)
    ensures
        r == spec_median(sorted_data@),
{
    let len = sorted_data.len();
    if len == 0 {
        return ZERO_BITS;
    }
    let lhs = (len - 1) / 2;
    let rhs = len / 2;
    if lhs == rhs {
        sorted_data[lhs]
    } else {
        div64(add64(sorted_data[lhs], sorted_data[rhs]), TWO_BITS)
    }
}

/// The linear-interpolation quantile of sorted data at fraction `f`: the
/// interpolation index is `f * (n - 1)` truncated; the last position is
/// returned as-is, an interior position interpolates between neighbours, an
/// index outside the data (a fraction outside `[0, 1]`) gives zero, and
/// empty data gives zero.
pub open spec fn spec_quantile(sorted: Seq<u64>, f: u64) -> u64 {
    if sorted.len() == 0 {
        ZERO_BITS
    } else {
        let index = mul_bits(f, from_i64_bits((sorted.len() - 1) as i64));
        let lhs = trunc_i32_bits(index);
        if lhs as int == sorted.len() - 1 {
            sorted[sorted.len() - 1]
        } else if 0 <= lhs as int && (lhs as int) < sorted.len() - 1 {
            let delta = sub_bits(index, from_i64_bits(lhs as i64));
            add_bits(
                mul_bits(sub_bits(ONE_BITS, delta), sorted[lhs as int]),
                mul_bits(delta, sorted[lhs as int + 1]),
            )
        } else {
            ZERO_BITS
        }
    }
}

/// Performs the quantile function (inverse cumulative distribution) on data
/// already sorted ascending; sortedness is not checked.  A fraction outside
/// `[0, 1]` can put the interpolation index outside the data; such a call
/// returns zero.
pub fn quantile_from_sorted_data(sorted_data: &Vec<u64>, f: u64) -> (r: u64)
    requires
        sorted_data.len() <= i32::MAX,
    ensures
        r == spec_quantile(sorted_data@, f),
{
    let n = sorted_data.len();
    if n == 0 {
        return ZERO_BITS;
    }
    let index = mul64(f, from_i64((n - 1) as i64));
    let lhs = to_i32_trunc(index);
    if lhs == (n - 1) as i32 {
        return sorted_data[n - 1];
    }
    if lhs < 0 || lhs as usize >= n - 1 {
        return ZERO_BITS;
    }
    let delta = sub64(index, from_i64(lhs as i64));
    let l = lhs as usize;
    add64(mul64(sub64(ONE_BITS, delta), sorted_data[l]), mul64(delta, sorted_data[l + 1]))
}

} // verus!
