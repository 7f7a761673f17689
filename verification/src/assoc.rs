//! Two-sample association: covariance, single-pass Pearson correlation in
//! the Welford formulation, pooled variance, and the Student t-statistic for
//! independent samples.
//!
//! The correlation follows B. P. Welford (1962): one pass maintaining running
//! means and running standardized sums, so no separate pass and no large
//! intermediate sum is needed.  Its contract also states the symmetry law:
//! on NaN-free inputs, swapping the two sequences leaves the result
//! unchanged (with a NaN in the data the IEEE product of two distinct NaNs
//! keeps the first payload, and symmetry can genuinely fail).

use vstd::prelude::*;

use crate::central::{running_avg, spec_mean, spec_variance, mean, variance};
use crate::ieee::{
    ZERO_BITS, ONE_BITS, is_nan_bits, nan_canonical, add_bits, sub_bits, mul_bits, div_bits,
    sqrt_bits, from_u64_bits, add64, sub64, mul64, div64, sqrt64, from_u64,
};
use crate::order::nan_free;

verus! {

/// The cross products of deviations `(x_j - mean1) * (y_j - mean2)`.
pub open spec fn cross_terms(d1: Seq<u64>, d2: Seq<u64>, mean1: u64, mean2: u64) -> Seq<u64> {
    Seq::new(d1.len(), |j: int| mul_bits(sub_bits(d1[j], mean1), sub_bits(d2[j], mean2)))
}

/// The raw covariance recurrence about supplied means: the running average
/// of cross products.
pub open spec fn spec_covariance_core(d1: Seq<u64>, d2: Seq<u64>, mean1: u64, mean2: u64) -> u64 {
    running_avg(cross_terms(d1, d2, mean1, mean2), 0, ZERO_BITS)
}

/// The sample covariance about supplied means: the raw recurrence rescaled
/// by `n / (n - 1)`.
pub open spec fn spec_covariance_mean(d1: Seq<u64>, d2: Seq<u64>, mean1: u64, mean2: u64) -> u64 {
    div_bits(
        mul_bits(spec_covariance_core(d1, d2, mean1, mean2), from_u64_bits(d1.len() as u64)),
        from_u64_bits((d1.len() - 1) as u64),
    )
}

/// One pass of the Welford correlation from index `i` on: running means of
/// both sequences, running standardized sums of squares and of cross
/// products, and finally `sum_cross / (sqrt(sum_xsq) * sqrt(sum_ysq))`.
pub open spec fn corr_rec(
    d1: Seq<u64>,
    d2: Seq<u64>,
    i: int,
    mean_x: u64,
    mean_y: u64,
    sum_xsq: u64,
    sum_ysq: u64,
    sum_cross: u64,
) -> u64
    decreases d1.len() - i,
{
    if i < 1 || i >= d1.len() {
        div_bits(sum_cross, mul_bits(sqrt_bits(sum_xsq), sqrt_bits(sum_ysq)))
    } else {
        let ratio = div_bits(from_u64_bits(i as u64), from_u64_bits((i + 1) as u64));
        let delta_x = sub_bits(d1[i], mean_x);
        let delta_y = sub_bits(d2[i], mean_y);
        corr_rec(
            d1,
            d2,
            i + 1,
            add_bits(mean_x, div_bits(delta_x, from_u64_bits((i + 1) as u64))),
            add_bits(mean_y, div_bits(delta_y, from_u64_bits((i + 1) as u64))),
            add_bits(sum_xsq, mul_bits(mul_bits(delta_x, delta_x), ratio)),
            add_bits(sum_ysq, mul_bits(mul_bits(delta_y, delta_y), ratio)),
            add_bits(sum_cross, mul_bits(mul_bits(delta_x, delta_y), ratio)),
        )
    }
}

/// The Pearson correlation of two sequences: the Welford pass seeded with
/// the first elements as means.
pub open spec fn spec_correlation(d1: Seq<u64>, d2: Seq<u64>) -> u64 {
    corr_rec(d1, d2, 1, d1[0], d2[0], ZERO_BITS, ZERO_BITS, ZERO_BITS)
}

/// The pooled variance of two independent samples, weighted by degrees of
/// freedom.
pub open spec fn spec_p_variance(d1: Seq<u64>, d2: Seq<u64>) -> u64 {
    div_bits(
        add_bits(
            mul_bits(from_u64_bits((d1.len() - 1) as u64), spec_variance(d1)),
            mul_bits(from_u64_bits((d2.len() - 1) as u64), spec_variance(d2)),
        ),
        from_u64_bits((d1.len() + d2.len() - 2) as u64),
    )
}

/// The Student t-statistic for the difference of the two sample means, with
/// the pooled variance as the common variance estimate.
pub open spec fn spec_t_test(d1: Seq<u64>, d2: Seq<u64>) -> u64 {
    div_bits(
        sub_bits(spec_mean(d1), spec_mean(d2)),
        sqrt_bits(
            mul_bits(
                spec_p_variance(d1, d2),
                add_bits(
                    div_bits(ONE_BITS, from_u64_bits(d1.len() as u64)),
                    div_bits(ONE_BITS, from_u64_bits(d2.len() as u64)),
                ),
            ),
        ),
    )
}

/// The raw running cross-product recurrence
/// `c_i = c_{i-1} + (delta1 * delta2 - c_{i-1}) / i` about supplied means.
fn covariance_core(data1: &Vec<u64>, data2: &Vec<u64>, mean1: u64, mean2: u64) -> (r: u64)
    requires
        data1.len() == data2.len(),
    ensures
        r == spec_covariance_core(data1@, data2@, mean1, mean2),
{
    let ghost terms = cross_terms(data1@, data2@, mean1, mean2);
    let mut res: u64 = ZERO_BITS;
    let mut i: usize = 0;
    while i < data1.len()
        invariant
            i <= data1@.len(),
            data1@.len() == data2@.len(),
            terms == cross_terms(data1@, data2@, mean1, mean2),
            running_avg(terms, 0, ZERO_BITS) == running_avg(terms, i as int, res),
        decreases data1@.len() - i,
    {
        let delta1 = sub64(data1[i], mean1);
        let delta2 = sub64(data2[i], mean2);
        let t = mul64(delta1, delta2);
        proof {
            assert(terms[i as int] == mul_bits(
                sub_bits(data1@[i as int], mean1),
                sub_bits(data2@[i as int], mean2),
            ));
        }
        res = add64(res, div64(sub64(t, res), from_u64((i + 1) as u64)));
        i = i + 1;
    }
    res
}

/// The sample covariance about supplied means, rescaled by `n / (n - 1)`.
pub fn covariance_mean(data1: &Vec<u64>, data2: &Vec<u64>, mean1: u64, mean2: u64) -> (r: u64)
    requires
        data1.len() == data2.len(),
        data1.len() >= 1,
    ensures
        r == spec_covariance_mean(data1@, data2@, mean1, mean2),
{
    let n = data1.len();
    let covariance = covariance_core(data1, data2, mean1, mean2);
    div64(mul64(covariance, from_u64(n as u64)), from_u64((n - 1) as u64))
}

/// The sample covariance, deriving both means first.
pub fn covariance(data1: &Vec<u64>, data2: &Vec<u64>) -> (r: u64)
    requires
        data1.len() == data2.len(),
        data1.len() >= 1,
    ensures
        r == spec_covariance_mean(data1@, data2@, spec_mean(data1@), spec_mean(data2@)),
{
    let mean1 = mean(data1);
    let mean2 = mean(data2);
    covariance_mean(data1, data2, mean1, mean2)
}

/// The Pearson correlation in one pass of the data (Welford's recurrence for
/// corrected sums of squares and products).  On NaN-free inputs the result
/// is symmetric in the two sequences: the second `ensures` clause, together
/// with the first on the swapped call, gives
/// `correlation(a, b) == correlation(b, a)`.
pub fn correlation(data1: &Vec<u64>, data2: &Vec<u64>) -> (r: u64)
    requires
        data1.len() == data2.len(),
        data1.len() >= 1,
    ensures
        r == spec_correlation(data1@, data2@),
        nan_free(data1@) && nan_free(data2@) ==> r == spec_correlation(data2@, data1@),
{
    let mut sum_xsq: u64 = ZERO_BITS;
    let mut sum_ysq: u64 = ZERO_BITS;
    let mut sum_cross: u64 = ZERO_BITS;
    let mut mean_x: u64 = data1[0];
    let mut mean_y: u64 = data2[0];
    let mut i: usize = 1;

    proof {
        assert((ZERO_BITS >> 52) & 0x7FF != 0x7FF) by (bit_vector);
    }

    while i < data1.len()
        invariant
            1 <= i <= data1@.len(),
            data1@.len() == data2@.len(),
            data1@.len() >= 1,
            spec_correlation(data1@, data2@) == corr_rec(
                data1@,
                data2@,
                i as int,
                mean_x,
                mean_y,
                sum_xsq,
                sum_ysq,
                sum_cross,
            ),
            nan_free(data1@) && nan_free(data2@) ==> {
                &&& spec_correlation(data2@, data1@) == corr_rec(
                    data2@,
                    data1@,
                    i as int,
                    mean_y,
                    mean_x,
                    sum_ysq,
                    sum_xsq,
                    sum_cross,
                )
                &&& nan_canonical(mean_x)
                &&& nan_canonical(mean_y)
                &&& nan_canonical(sum_xsq)
                &&& nan_canonical(sum_ysq)
                &&& nan_canonical(sum_cross)
            },
        decreases data1@.len() - i,
    {
        let nb = from_u64((i + 1) as u64);
        let ratio = div64(from_u64(i as u64), nb);
        let delta_x = sub64(data1[i], mean_x);
        let delta_y = sub64(data2[i], mean_y);
        let cxx = mul64(mul64(delta_x, delta_x), ratio);
        let cyy = mul64(mul64(delta_y, delta_y), ratio);
        let cross = mul64(delta_x, delta_y);
        let cxy = mul64(cross, ratio);
        proof {
            if nan_free(data1@) && nan_free(data2@) {
                assert(!is_nan_bits(data1@[i as int]));
                assert(!is_nan_bits(data2@[i as int]));
                assert(cross == mul_bits(delta_y, delta_x));
            }
        }
        sum_xsq = add64(sum_xsq, cxx);
        sum_ysq = add64(sum_ysq, cyy);
        sum_cross = add64(sum_cross, cxy);
        mean_x = add64(mean_x, div64(delta_x, nb));
        mean_y = add64(mean_y, div64(delta_y, nb));
        i = i + 1;
    }
    let s1 = sqrt64(sum_xsq);
    let s2 = sqrt64(sum_ysq);
    let denom = mul64(s1, s2);
    proof {
        assert(denom == mul_bits(s2, s1));
    }
    div64(sum_cross, denom)
}

/// The pooled variance of two independent samples: each sample variance
/// weighted by its degrees of freedom, over the combined degrees of freedom.
pub fn p_variance(data1: &Vec<u64>, data2: &Vec<u64>) -> (r: u64)
    requires
        data1.len() >= 1,
        data2.len() >= 1,
        data1.len() + data2.len() >= 3,
        data1.len() + data2.len() <= usize::MAX,
    ensures
        r == spec_p_variance(data1@, data2@),
{
    let n1 = data1.len();
    let n2 = data2.len();
    let var1 = variance(data1);
    let var2 = variance(data2);
    div64(
        add64(mul64(from_u64((n1 - 1) as u64), var1), mul64(from_u64((n2 - 1) as u64), var2)),
        from_u64((n1 + n2 - 2) as u64),
    )
}

/// Runs a t-test between two datasets representing independent samples,
/// testing whether the difference between the sample means is different from
/// zero.
pub fn t_test(data1: &Vec<u64>, data2: &Vec<u64>) -> (r: u64)
    requires
        data1.len() >= 1,
        data2.len() >= 1,
        data1.len() + data2.len() >= 3,
        data1.len() + data2.len() <= usize::MAX,
    ensures
        r == spec_t_test(data1@, data2@),
{
    let n1 = from_u64(data1.len() as u64);
    let n2 = from_u64(data2.len() as u64);
    let mean1 = mean(data1);
    let mean2 = mean(data2);
    let pv = p_variance(data1, data2);
    div64(sub64(mean1, mean2), sqrt64(mul64(pv, add64(div64(ONE_BITS, n1), div64(ONE_BITS, n2)))))
}

} // verus!

