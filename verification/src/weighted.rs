//! Weighted statistics: weighted counterparts of the mean, deviation,
//! variance, skewness, kurtosis and sum of squares.
//!
//! Every accumulation is gated on `w_i > 0` and normalized by the running
//! total weight instead of a running count: a weight that is not positive
//! contributes no probability mass and is silently excluded, which the
//! removal lemmas at the end state exactly.  The sample variance is rescaled
//! by the effective-sample-size factor `a^2 / (a^2 - b)` over the included
//! weights (`a` their sum, `b` the sum of their squares), the generalization
//! of Bessel's correction to unequal weights.

use vstd::prelude::*;

use crate::central::{sq_dev_terms, spec_mean, mean};
use crate::ieee::{
    ZERO_BITS, THREE_BITS, spec_gt, spec_abs, add_bits, sub_bits, mul_bits, div_bits, sqrt_bits,
    gt64, abs64, add64, sub64, mul64, div64, sqrt64,
};

verus! {

/// The weight-normalized running average over the terms from index `i` on:
/// where the weight is positive, `acc' = acc + (t_i - acc) * (w_i / W_i)`
/// with `W_i` the cumulative included weight; elsewhere the state is
/// untouched.
pub open spec fn w_avg_rec(w: Seq<u64>, terms: Seq<u64>, i: int, weight: u64, acc: u64) -> u64
    decreases terms.len() - i,
{
    if i < 0 || i >= terms.len() {
        acc
    } else if spec_gt(w[i], ZERO_BITS) {
        let wsum = add_bits(weight, w[i]);
        w_avg_rec(
            w,
            terms,
            i + 1,
            wsum,
            add_bits(acc, mul_bits(sub_bits(terms[i], acc), div_bits(w[i], wsum))),
        )
    } else {
        w_avg_rec(w, terms, i + 1, weight, acc)
    }
}

/// The gated running sum of the terms from index `i` on: terms with a
/// positive weight are added, the rest are skipped.
pub open spec fn w_sum_rec(w: Seq<u64>, terms: Seq<u64>, i: int, acc: u64) -> u64
    decreases terms.len() - i,
{
    if i < 0 || i >= terms.len() {
        acc
    } else if spec_gt(w[i], ZERO_BITS) {
        w_sum_rec(w, terms, i + 1, add_bits(acc, terms[i]))
    } else {
        w_sum_rec(w, terms, i + 1, acc)
    }
}

/// The running sums behind the effective-sample-size factor: `a` accumulates
/// the included weights, `b` their squares.
pub open spec fn factor_rec(w: Seq<u64>, i: int, a: u64, b: u64) -> (u64, u64)
    decreases w.len() - i,
{
    if i < 0 || i >= w.len() {
        (a, b)
    } else if spec_gt(w[i], ZERO_BITS) {
        factor_rec(w, i + 1, add_bits(a, w[i]), add_bits(b, mul_bits(w[i], w[i])))
    } else {
        factor_rec(w, i + 1, a, b)
    }
}

/// The effective-sample-size correction factor `a^2 / (a^2 - b)`, which
/// reduces to `n / (n - 1)` when all included weights are equal.
pub open spec fn spec_factor(w: Seq<u64>) -> u64 {
    let r = factor_rec(w, 0, ZERO_BITS, ZERO_BITS);
    div_bits(mul_bits(r.0, r.0), sub_bits(mul_bits(r.0, r.0), r.1))
}

/// The weighted arithmetic mean.
pub open spec fn spec_w_mean(w: Seq<u64>, data: Seq<u64>) -> u64 {
    w_avg_rec(w, data, 0, ZERO_BITS, ZERO_BITS)
}

/// The absolute deviation of each observation from `wmean`.
pub open spec fn w_abs_terms(data: Seq<u64>, wmean: u64) -> Seq<u64> {
    Seq::new(data.len(), |j: int| spec_abs(sub_bits(data[j], wmean)))
}

/// The cubed standardized deviation of each observation.
pub open spec fn w_cube_terms(data: Seq<u64>, wmean: u64, wsd: u64) -> Seq<u64> {
    Seq::new(
        data.len(),
        |j: int|
            {
                let z = div_bits(sub_bits(data[j], wmean), wsd);
                mul_bits(mul_bits(z, z), z)
            },
    )
}

/// The fourth power of the standardized deviation of each observation.
pub open spec fn w_fourth_terms(data: Seq<u64>, wmean: u64, wsd: u64) -> Seq<u64> {
    Seq::new(
        data.len(),
        |j: int|
            {
                let z = div_bits(sub_bits(data[j], wmean), wsd);
                mul_bits(mul_bits(mul_bits(z, z), z), z)
            },
    )
}

/// The weighted sum-of-squares term `w_j * (x_j - wmean)^2`.
pub open spec fn w_tss_terms(w: Seq<u64>, data: Seq<u64>, wmean: u64) -> Seq<u64> {
    Seq::new(
        data.len(),
        |j: int| mul_bits(mul_bits(w[j], sub_bits(data[j], wmean)), sub_bits(data[j], wmean)),
    )
}

/// The weighted absolute deviation about a supplied weighted mean.
pub open spec fn spec_w_absdev_mean(w: Seq<u64>, data: Seq<u64>, wmean: u64) -> u64 {
    w_avg_rec(w, w_abs_terms(data, wmean), 0, ZERO_BITS, ZERO_BITS)
}

/// The raw weighted second moment about a supplied weighted mean, unscaled.
pub open spec fn spec_w_variance_with_fixed_mean(w: Seq<u64>, data: Seq<u64>, wmean: u64) -> u64 {
    w_avg_rec(w, sq_dev_terms(data, wmean), 0, ZERO_BITS, ZERO_BITS)
}

/// The weighted sample variance: the raw weighted second moment rescaled by
/// the effective-sample-size factor.
pub open spec fn spec_w_variance_mean(w: Seq<u64>, data: Seq<u64>, wmean: u64) -> u64 {
    mul_bits(spec_factor(w), spec_w_variance_with_fixed_mean(w, data, wmean))
}

/// The weighted skewness about a supplied weighted mean and standard
/// deviation.
pub open spec fn spec_w_skew_mean_sd(w: Seq<u64>, data: Seq<u64>, wmean: u64, wsd: u64) -> u64 {
    w_avg_rec(w, w_cube_terms(data, wmean, wsd), 0, ZERO_BITS, ZERO_BITS)
}

/// The weighted excess kurtosis about a supplied weighted mean and standard
/// deviation.
pub open spec fn spec_w_kurtosis_mean_sd(w: Seq<u64>, data: Seq<u64>, wmean: u64, wsd: u64) -> u64 {
    sub_bits(w_avg_rec(w, w_fourth_terms(data, wmean, wsd), 0, ZERO_BITS, ZERO_BITS), THREE_BITS)
}

/// The raw weighted sum of squared deviations about a supplied weighted
/// mean.
pub open spec fn spec_w_tss_mean(w: Seq<u64>, data: Seq<u64>, wmean: u64) -> u64 {
    w_sum_rec(w, w_tss_terms(w, data, wmean), 0, ZERO_BITS)
}

/// Calculates the weighted arithmetic mean
/// `wm_i = wm_{i-1} + (x_i - wm_{i-1}) * (w_i / W_i)` over the observations
/// with positive weight.
pub fn w_mean(w: &Vec<u64>, data: &Vec<u64>) -> (r: u64)
    requires
        w.len() == data.len(),
    ensures
        r == spec_w_mean(w@, data@),
{
    let mut wmean: u64 = ZERO_BITS;
    let mut weight: u64 = ZERO_BITS;
    let mut i: usize = 0;
    while i < data.len()
        invariant
            i <= data@.len(),
            w@.len() == data@.len(),
            spec_w_mean(w@, data@) == w_avg_rec(w@, data@, i as int, weight, wmean),
        decreases data@.len() - i,
    {
        let wi = w[i];
        if gt64(wi, ZERO_BITS) {
            weight = add64(weight, wi);
            wmean = add64(wmean, mul64(sub64(data[i], wmean), div64(wi, weight)));
        }
        i = i + 1;
    }
    wmean
}

/// The weighted absolute deviation, deriving the weighted mean first.
pub fn w_absdev(w: &Vec<u64>, data: &Vec<u64>) -> (r: u64)
    requires
        w.len() == data.len(),
    ensures
        r == spec_w_absdev_mean(w@, data@, spec_w_mean(w@, data@)),
{
    let wmean = w_mean(w, data);
    w_absdev_mean(w, data, wmean)
}

/// Calculates the weighted absolute deviation about a supplied weighted
/// mean.
pub fn w_absdev_mean(w: &Vec<u64>, data: &Vec<u64>, wmean: u64) -> (r: u64)
    requires
        w.len() == data.len(),
    ensures
        r == spec_w_absdev_mean(w@, data@, wmean),
{
    let ghost terms = w_abs_terms(data@, wmean);
    let mut wabsdev: u64 = ZERO_BITS;
    let mut weight: u64 = ZERO_BITS;
    let mut i: usize = 0;
    while i < data.len()
        invariant
            i <= data@.len(),
            w@.len() == data@.len(),
            terms == w_abs_terms(data@, wmean),
            w_avg_rec(w@, terms, 0, ZERO_BITS, ZERO_BITS) == w_avg_rec(
                w@,
                terms,
                i as int,
                weight,
                wabsdev,
            ),
        decreases data@.len() - i,
    {
        let wi = w[i];
        if gt64(wi, ZERO_BITS) {
            let delta = abs64(sub64(data[i], wmean));
            proof {
                assert(terms[i as int] == spec_abs(sub_bits(data@[i as int], wmean)));
            }
            weight = add64(weight, wi);
            wabsdev = add64(wabsdev, mul64(sub64(delta, wabsdev), div64(wi, weight)));
        }
        i = i + 1;
    }
    wabsdev
}

/// The weighted kurtosis, deriving the weighted mean and standard deviation
/// first.
pub fn w_kurtosis(w: &Vec<u64>, data: &Vec<u64>) -> (r: u64)
    requires
        w.len() == data.len(),
    ensures
        r == spec_w_kurtosis_mean_sd(
            w@,
            data@,
            spec_w_mean(w@, data@),
            sqrt_bits(spec_w_variance_mean(w@, data@, spec_w_mean(w@, data@))),
        ),
{
    let wmean = w_mean(w, data);
    let wsd = w_sd_mean(w, data, wmean);
    w_kurtosis_mean_sd(w, data, wmean, wsd)
}

/// The weighted fourth standardized moment about a supplied weighted mean
/// and standard deviation, less three, so a Gaussian has kurtosis zero.
pub fn w_kurtosis_mean_sd(w: &Vec<u64>, data: &Vec<u64>, wmean: u64, wsd: u64) -> (r: u64)
    requires
        w.len() == data.len(),
    ensures
        r == spec_w_kurtosis_mean_sd(w@, data@, wmean, wsd),
{
    let ghost terms = w_fourth_terms(data@, wmean, wsd);
    let mut wavg: u64 = ZERO_BITS;
    let mut weight: u64 = ZERO_BITS;
    let mut i: usize = 0;
    while i < data.len()
        invariant
            i <= data@.len(),
            w@.len() == data@.len(),
            terms == w_fourth_terms(data@, wmean, wsd),
            w_avg_rec(w@, terms, 0, ZERO_BITS, ZERO_BITS) == w_avg_rec(
                w@,
                terms,
                i as int,
                weight,
                wavg,
            ),
        decreases data@.len() - i,
    {
        let wi = w[i];
        if gt64(wi, ZERO_BITS) {
            let z = div64(sub64(data[i], wmean), wsd);
            let t = mul64(mul64(mul64(z, z), z), z);
            proof {
                assert(terms[i as int] == {
                    let z = div_bits(sub_bits(data@[i as int], wmean), wsd);
                    mul_bits(mul_bits(mul_bits(z, z), z), z)
                });
            }
            weight = add64(weight, wi);
            wavg = add64(wavg, mul64(sub64(t, wavg), div64(wi, weight)));
        }
        i = i + 1;
    }
    sub64(wavg, THREE_BITS)
}

/// The weighted skewness, deriving the weighted mean and standard deviation
/// first.
pub fn w_skew(w: &Vec<u64>, data: &Vec<u64>) -> (r: u64)
    requires
        w.len() == data.len(),
    ensures
        r == spec_w_skew_mean_sd(
            w@,
            data@,
            spec_w_mean(w@, data@),
            sqrt_bits(spec_w_variance_mean(w@, data@, spec_w_mean(w@, data@))),
        ),
{
    let wmean = w_mean(w, data);
    let wsd = w_sd_mean(w, data, wmean);
    w_skew_mean_sd(w, data, wmean, wsd)
}

/// The weighted third standardized moment about a supplied weighted mean and
/// standard deviation.
pub fn w_skew_mean_sd(w: &Vec<u64>, data: &Vec<u64>, wmean: u64, wsd: u64) -> (r: u64)
    requires
        w.len() == data.len(),
    ensures
        r == spec_w_skew_mean_sd(w@, data@, wmean, wsd),
{
    let ghost terms = w_cube_terms(data@, wmean, wsd);
    let mut wskew: u64 = ZERO_BITS;
    let mut weight: u64 = ZERO_BITS;
    let mut i: usize = 0;
    while i < data.len()
        invariant
            i <= data@.len(),
            w@.len() == data@.len(),
            terms == w_cube_terms(data@, wmean, wsd),
            w_avg_rec(w@, terms, 0, ZERO_BITS, ZERO_BITS) == w_avg_rec(
                w@,
                terms,
                i as int,
                weight,
                wskew,
            ),
        decreases data@.len() - i,
    {
        let wi = w[i];
        if gt64(wi, ZERO_BITS) {
            let z = div64(sub64(data[i], wmean), wsd);
            let t = mul64(mul64(z, z), z);
            proof {
                assert(terms[i as int] == {
                    let z = div_bits(sub_bits(data@[i as int], wmean), wsd);
                    mul_bits(mul_bits(z, z), z)
                });
            }
            weight = add64(weight, wi);
            wskew = add64(wskew, mul64(sub64(t, wskew), div64(wi, weight)));
        }
        i = i + 1;
    }
    wskew
}

/// The raw weighted second-moment recurrence about a supplied weighted mean.
fn w_variance_core(w: &Vec<u64>, data: &Vec<u64>, wmean: u64) -> (r: u64)
    requires
        w.len() == data.len(),
    ensures
        r == spec_w_variance_with_fixed_mean(w@, data@, wmean),
{
    let ghost terms = sq_dev_terms(data@, wmean);
    let mut wvariance: u64 = ZERO_BITS;
    let mut weight: u64 = ZERO_BITS;
    let mut i: usize = 0;
    while i < w.len()
        invariant
            i <= data@.len(),
            w@.len() == data@.len(),
            terms == sq_dev_terms(data@, wmean),
            w_avg_rec(w@, terms, 0, ZERO_BITS, ZERO_BITS) == w_avg_rec(
                w@,
                terms,
                i as int,
                weight,
                wvariance,
            ),
        decreases data@.len() - i,
    {
        let wi = w[i];
        if gt64(wi, ZERO_BITS) {
            let delta = sub64(data[i], wmean);
            let t = mul64(delta, delta);
            proof {
                assert(terms[i as int] == mul_bits(
                    sub_bits(data@[i as int], wmean),
                    sub_bits(data@[i as int], wmean),
                ));
            }
            weight = add64(weight, wi);
            wvariance = add64(wvariance, mul64(sub64(t, wvariance), div64(wi, weight)));
        }
        i = i + 1;
    }
    wvariance
}

/// The effective-sample-size factor `a^2 / (a^2 - b)` over the included
/// weights.
fn factor(w: &Vec<u64>) -> (r: u64)
    ensures
        r == spec_factor(w@),
{
    let mut a: u64 = ZERO_BITS;
    let mut b: u64 = ZERO_BITS;
    let mut i: usize = 0;
    while i < w.len()
        invariant
            i <= w@.len(),
            factor_rec(w@, 0, ZERO_BITS, ZERO_BITS) == factor_rec(w@, i as int, a, b),
        decreases w@.len() - i,
    {
        let wi = w[i];
        if gt64(wi, ZERO_BITS) {
            a = add64(a, wi);
            b = add64(b, mul64(wi, wi));
        }
        i = i + 1;
    }
    let asq = mul64(a, a);
    div64(asq, sub64(asq, b))
}

/// The raw weighted second moment about a known weighted mean, unscaled.
pub fn w_variance_with_fixed_mean(w: &Vec<u64>, data: &Vec<u64>, wmean: u64) -> (r: u64)
    requires
        w.len() == data.len(),
    ensures
        r == spec_w_variance_with_fixed_mean(w@, data@, wmean),
{
    w_variance_core(w, data, wmean)
}

/// The weighted standard deviation about a known weighted mean.
pub fn wsd_with_fixed_mean(w: &Vec<u64>, data: &Vec<u64>, wmean: u64) -> (r: u64)
    requires
        w.len() == data.len(),
    ensures
        r == sqrt_bits(spec_w_variance_with_fixed_mean(w@, data@, wmean)),
{
    let wvariance = w_variance_core(w, data, wmean);
    sqrt64(wvariance)
}

/// The weighted sample variance about a supplied weighted mean: the raw
/// weighted second moment rescaled by the effective-sample-size factor.
pub fn w_variance_mean(w: &Vec<u64>, data: &Vec<u64>, wmean: u64) -> (r: u64)
    requires
        w.len() == data.len(),
    ensures
        r == spec_w_variance_mean(w@, data@, wmean),
{
    let variance = w_variance_core(w, data, wmean);
    let scale = factor(w);
    mul64(scale, variance)
}

/// The weighted sample standard deviation about a supplied weighted mean.
pub fn w_sd_mean(w: &Vec<u64>, data: &Vec<u64>, wmean: u64) -> (r: u64)
    requires
        w.len() == data.len(),
    ensures
        r == sqrt_bits(spec_w_variance_mean(w@, data@, wmean)),
{
    let variance = w_variance_core(w, data, wmean);
    let scale = factor(w);
    sqrt64(mul64(scale, variance))
}

/// The weighted sample standard deviation, deriving the weighted mean first.
pub fn w_sd(w: &Vec<u64>, data: &Vec<u64>) -> (r: u64)
    requires
        w.len() == data.len(),
    ensures
        r == sqrt_bits(spec_w_variance_mean(w@, data@, spec_w_mean(w@, data@))),
{
    let wmean = w_mean(w, data);
    w_sd_mean(w, data, wmean)
}

/// The weighted sample variance, deriving the weighted mean first.
pub fn w_variance(w: &Vec<u64>, data: &Vec<u64>) -> (r: u64)
    requires
        w.len() == data.len(),
    ensures
        r == spec_w_variance_mean(w@, data@, spec_w_mean(w@, data@)),
{
    let wmean = w_mean(w, data);
    w_variance_mean(w, data, wmean)
}

/// The raw weighted sum of squared deviations `sum w_i * (x_i - wmean)^2`
/// about a supplied weighted mean.
pub fn w_tss_mean(w: &Vec<u64>, data: &Vec<u64>, wmean: u64) -> (r: u64)
    requires
        w.len() == data.len(),
    ensures
        r == spec_w_tss_mean(w@, data@, wmean),
{
    let ghost terms = w_tss_terms(w@, data@, wmean);
    let mut res: u64 = ZERO_BITS;
    let mut i: usize = 0;
    while i < data.len()
        invariant
            i <= data@.len(),
            w@.len() == data@.len(),
            terms == w_tss_terms(w@, data@, wmean),
            w_sum_rec(w@, terms, 0, ZERO_BITS) == w_sum_rec(w@, terms, i as int, res),
        decreases data@.len() - i,
    {
        let wi = w[i];
        if gt64(wi, ZERO_BITS) {
            let delta = sub64(data[i], wmean);
            let t = mul64(mul64(wi, delta), delta);
            proof {
                assert(terms[i as int] == mul_bits(
                    mul_bits(w@[i as int], sub_bits(data@[i as int], wmean)),
                    sub_bits(data@[i as int], wmean),
                ));
            }
            res = add64(res, t);
        }
        i = i + 1;
    }
    res
}

/// The raw weighted sum of squared deviations, deriving the weighted mean
/// first.
pub fn w_tss(w: &Vec<u64>, data: &Vec<u64>) -> (r: u64)
    requires
        w.len() == data.len(),
    ensures
        r == spec_w_tss_mean(w@, data@, spec_w_mean(w@, data@)),
{
    let wmean = w_mean(w, data);
    w_tss_mean(w, data, wmean)
}

/// Past the removed position, the weighted average over the original
/// sequences from `i + 1` equals the one over the shortened sequences from
/// `i`.
proof fn lemma_w_avg_shift(w: Seq<u64>, terms: Seq<u64>, k: int, i: int, weight: u64, acc: u64)
    requires
        w.len() == terms.len(),
        0 <= k < w.len(),
        k <= i,
    ensures
        w_avg_rec(w, terms, i + 1, weight, acc) == w_avg_rec(
            w.remove(k),
            terms.remove(k),
            i,
            weight,
            acc,
        ),
    decreases w.len() - i,
{
    w.remove_ensures(k);
    terms.remove_ensures(k);
    if i + 1 < w.len() {
        assert(w.remove(k)[i] == w[i + 1]);
        assert(terms.remove(k)[i] == terms[i + 1]);
        if spec_gt(w[i + 1], ZERO_BITS) {
            let wsum = add_bits(weight, w[i + 1]);
            lemma_w_avg_shift(
                w,
                terms,
                k,
                i + 1,
                wsum,
                add_bits(acc, mul_bits(sub_bits(terms[i + 1], acc), div_bits(w[i + 1], wsum))),
            );
        } else {
            lemma_w_avg_shift(w, terms, k, i + 1, weight, acc);
        }
    }
}

/// Up to an excluded position `k`, removing that entry changes nothing of
/// the weighted average: both folds take the same steps.
proof fn lemma_w_avg_skip(w: Seq<u64>, terms: Seq<u64>, k: int, i: int, weight: u64, acc: u64)
    requires
        w.len() == terms.len(),
        0 <= k < w.len(),
        0 <= i <= k,
        !spec_gt(w[k], ZERO_BITS),
    ensures
        w_avg_rec(w, terms, i, weight, acc) == w_avg_rec(
            w.remove(k),
            terms.remove(k),
            i,
            weight,
            acc,
        ),
    decreases k - i,
{
    w.remove_ensures(k);
    terms.remove_ensures(k);
    if i == k {
        lemma_w_avg_shift(w, terms, k, k, weight, acc);
    } else {
        assert(w.remove(k)[i] == w[i]);
        assert(terms.remove(k)[i] == terms[i]);
        if spec_gt(w[i], ZERO_BITS) {
            let wsum = add_bits(weight, w[i]);
            lemma_w_avg_skip(
                w,
                terms,
                k,
                i + 1,
                wsum,
                add_bits(acc, mul_bits(sub_bits(terms[i], acc), div_bits(w[i], wsum))),
            );
        } else {
            lemma_w_avg_skip(w, terms, k, i + 1, weight, acc);
        }
    }
}

/// The same two steps for the gated running sum.
proof fn lemma_w_sum_shift(w: Seq<u64>, terms: Seq<u64>, k: int, i: int, acc: u64)
    requires
        w.len() == terms.len(),
        0 <= k < w.len(),
        k <= i,
    ensures
        w_sum_rec(w, terms, i + 1, acc) == w_sum_rec(w.remove(k), terms.remove(k), i, acc),
    decreases w.len() - i,
{
    w.remove_ensures(k);
    terms.remove_ensures(k);
    if i + 1 < w.len() {
        assert(w.remove(k)[i] == w[i + 1]);
        assert(terms.remove(k)[i] == terms[i + 1]);
        if spec_gt(w[i + 1], ZERO_BITS) {
            lemma_w_sum_shift(w, terms, k, i + 1, add_bits(acc, terms[i + 1]));
        } else {
            lemma_w_sum_shift(w, terms, k, i + 1, acc);
        }
    }
}

proof fn lemma_w_sum_skip(w: Seq<u64>, terms: Seq<u64>, k: int, i: int, acc: u64)
    requires
        w.len() == terms.len(),
        0 <= k < w.len(),
        0 <= i <= k,
        !spec_gt(w[k], ZERO_BITS),
    ensures
        w_sum_rec(w, terms, i, acc) == w_sum_rec(w.remove(k), terms.remove(k), i, acc),
    decreases k - i,
{
    w.remove_ensures(k);
    terms.remove_ensures(k);
    if i == k {
        lemma_w_sum_shift(w, terms, k, k, acc);
    } else {
        assert(w.remove(k)[i] == w[i]);
        assert(terms.remove(k)[i] == terms[i]);
        if spec_gt(w[i], ZERO_BITS) {
            lemma_w_sum_skip(w, terms, k, i + 1, add_bits(acc, terms[i]));
        } else {
            lemma_w_sum_skip(w, terms, k, i + 1, acc);
        }
    }
}

/// The same two steps for the effective-sample-size sums.
proof fn lemma_factor_shift(w: Seq<u64>, k: int, i: int, a: u64, b: u64)
    requires
        0 <= k < w.len(),
        k <= i,
    ensures
        factor_rec(w, i + 1, a, b) == factor_rec(w.remove(k), i, a, b),
    decreases w.len() - i,
{
    w.remove_ensures(k);
    if i + 1 < w.len() {
        assert(w.remove(k)[i] == w[i + 1]);
        if spec_gt(w[i + 1], ZERO_BITS) {
            lemma_factor_shift(w, k, i + 1, add_bits(a, w[i + 1]), add_bits(b, mul_bits(w[i + 1], w[i + 1])));
        } else {
            lemma_factor_shift(w, k, i + 1, a, b);
        }
    }
}

proof fn lemma_factor_skip(w: Seq<u64>, k: int, i: int, a: u64, b: u64)
    requires
        0 <= k < w.len(),
        0 <= i <= k,
        !spec_gt(w[k], ZERO_BITS),
    ensures
        factor_rec(w, i, a, b) == factor_rec(w.remove(k), i, a, b),
    decreases k - i,
{
    w.remove_ensures(k);
    if i == k {
        lemma_factor_shift(w, k, k, a, b);
    } else {
        assert(w.remove(k)[i] == w[i]);
        if spec_gt(w[i], ZERO_BITS) {
            lemma_factor_skip(w, k, i + 1, add_bits(a, w[i]), add_bits(b, mul_bits(w[i], w[i])));
        } else {
            lemma_factor_skip(w, k, i + 1, a, b);
        }
    }
}

/// An entry whose weight is not positive is equivalent to no entry at all:
/// dropping it, with its observation, leaves the weighted mean unchanged.
pub proof fn lemma_zero_weight_removed_mean(w: Seq<u64>, data: Seq<u64>, k: int)
    requires
        w.len() == data.len(),
        0 <= k < w.len(),
        !spec_gt(w[k], ZERO_BITS),
    ensures
        spec_w_mean(w, data) == spec_w_mean(w.remove(k), data.remove(k)),
{
    lemma_w_avg_skip(w, data, k, 0, ZERO_BITS, ZERO_BITS);
}

/// Dropping an entry with a non-positive weight leaves the effective-sample-
/// size factor unchanged.
pub proof fn lemma_zero_weight_removed_factor(w: Seq<u64>, k: int)
    requires
        0 <= k < w.len(),
        !spec_gt(w[k], ZERO_BITS),
    ensures
        spec_factor(w) == spec_factor(w.remove(k)),
{
    lemma_factor_skip(w, k, 0, ZERO_BITS, ZERO_BITS);
}

/// Dropping an entry with a non-positive weight leaves the raw weighted
/// second moment about a fixed mean unchanged.
pub proof fn lemma_zero_weight_removed_variance_fixed(
    w: Seq<u64>,
    data: Seq<u64>,
    k: int,
    wmean: u64,
)
    requires
        w.len() == data.len(),
        0 <= k < w.len(),
        !spec_gt(w[k], ZERO_BITS),
    ensures
        spec_w_variance_with_fixed_mean(w, data, wmean) == spec_w_variance_with_fixed_mean(
            w.remove(k),
            data.remove(k),
            wmean,
        ),
{
    data.remove_ensures(k);
    sq_dev_terms(data, wmean).remove_ensures(k);
    assert(sq_dev_terms(data.remove(k), wmean) =~= sq_dev_terms(data, wmean).remove(k));
    lemma_w_avg_skip(w, sq_dev_terms(data, wmean), k, 0, ZERO_BITS, ZERO_BITS);
}

/// Dropping an entry with a non-positive weight leaves the weighted sample
/// variance about a fixed mean unchanged: both the second moment and the
/// correction factor ignore the entry.
pub proof fn lemma_zero_weight_removed_variance_mean(
    w: Seq<u64>,
    data: Seq<u64>,
    k: int,
    wmean: u64,
)
    requires
        w.len() == data.len(),
        0 <= k < w.len(),
        !spec_gt(w[k], ZERO_BITS),
    ensures
        spec_w_variance_mean(w, data, wmean) == spec_w_variance_mean(
            w.remove(k),
            data.remove(k),
            wmean,
        ),
{
    lemma_zero_weight_removed_factor(w, k);
    lemma_zero_weight_removed_variance_fixed(w, data, k, wmean);
}

/// Dropping an entry with a non-positive weight leaves the weighted sum of
/// squared deviations about a fixed mean unchanged.
pub proof fn lemma_zero_weight_removed_tss(w: Seq<u64>, data: Seq<u64>, k: int, wmean: u64)
    requires
        w.len() == data.len(),
        0 <= k < w.len(),
        !spec_gt(w[k], ZERO_BITS),
    ensures
        spec_w_tss_mean(w, data, wmean) == spec_w_tss_mean(w.remove(k), data.remove(k), wmean),
{
    w.remove_ensures(k);
    data.remove_ensures(k);
    w_tss_terms(w, data, wmean).remove_ensures(k);
    assert(w_tss_terms(w.remove(k), data.remove(k), wmean) =~= w_tss_terms(
        w,
        data,
        wmean,
    ).remove(k));
    lemma_w_sum_skip(w, w_tss_terms(w, data, wmean), k, 0, ZERO_BITS);
}

/// Dropping an entry with a non-positive weight leaves the weighted sample
/// variance with its derived mean unchanged: the derived weighted mean
/// itself ignores the entry.
pub proof fn lemma_zero_weight_removed_variance(w: Seq<u64>, data: Seq<u64>, k: int)
    requires
        w.len() == data.len(),
        0 <= k < w.len(),
        !spec_gt(w[k], ZERO_BITS),
    ensures
        spec_w_variance_mean(w, data, spec_w_mean(w, data)) == spec_w_variance_mean(
            w.remove(k),
            data.remove(k),
            spec_w_mean(w.remove(k), data.remove(k)),
        ),
{
    lemma_zero_weight_removed_mean(w, data, k);
    lemma_zero_weight_removed_variance_mean(w, data, k, spec_w_mean(w, data));
}

} // verus!
