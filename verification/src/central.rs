//! Central tendency and dispersion: mean, absolute deviation, the variance
//! family, and raw sums of squared deviations.
//!
//! The mean and every second-moment estimate use the numerically stable
//! running recurrence `m_i = m_{i-1} + (t_i - m_{i-1}) / i` (1-indexed over
//! the terms `t_i`) rather than a naive two-pass sum.  Each contract pins the
//! result to that exact recurrence over the IEEE-754 operations of `ieee`.

use vstd::prelude::*;

use crate::ieee::{
    ZERO_BITS, add_bits, sub_bits, mul_bits, div_bits, sqrt_bits, from_u64_bits, spec_abs, add64,
    sub64, mul64, div64, sqrt64, from_u64, abs64,
};

verus! {

/// The running-average recurrence `acc_i = acc_{i-1} + (t_i - acc_{i-1}) / i`
/// over the terms from index `i` on, starting from `acc`.
pub open spec fn running_avg(terms: Seq<u64>, i: int, acc: u64) -> u64
    decreases terms.len() - i,
{
    if i < 0 || i >= terms.len() {
        acc
    } else {
        running_avg(
            terms,
            i + 1,
            add_bits(acc, div_bits(sub_bits(terms[i], acc), from_u64_bits((i + 1) as u64))),
        )
    }
}

/// The plain running sum of the terms from index `i` on.
pub open spec fn running_sum(terms: Seq<u64>, i: int, acc: u64) -> u64
    decreases terms.len() - i,
{
    if i < 0 || i >= terms.len() {
        acc
    } else {
        running_sum(terms, i + 1, add_bits(acc, terms[i]))
    }
}

/// The arithmetic mean by the running recurrence, starting at zero.
pub open spec fn spec_mean(data: Seq<u64>) -> u64 {
    running_avg(data, 0, ZERO_BITS)
}

/// The squared deviation of each observation from `mean`.
pub open spec fn sq_dev_terms(data: Seq<u64>, mean: u64) -> Seq<u64> {
    Seq::new(data.len(), |j: int| mul_bits(sub_bits(data[j], mean), sub_bits(data[j], mean)))
}

/// The absolute deviation of each observation from `mean`.
pub open spec fn abs_dev_terms(data: Seq<u64>, mean: u64) -> Seq<u64> {
    Seq::new(data.len(), |j: int| spec_abs(sub_bits(data[j], mean)))
}

/// The population-style variance about a fixed mean: the raw running average
/// of squared deviations, with no Bessel correction.
pub open spec fn spec_variance_with_fixed_mean(data: Seq<u64>, mean: u64) -> u64 {
    running_avg(sq_dev_terms(data, mean), 0, ZERO_BITS)
}

/// The sample variance about a supplied mean: the raw recurrence result
/// rescaled by `n / (n - 1)` (Bessel's correction).
pub open spec fn spec_variance_mean(data: Seq<u64>, mean: u64) -> u64 {
    div_bits(
        mul_bits(spec_variance_with_fixed_mean(data, mean), from_u64_bits(data.len() as u64)),
        from_u64_bits((data.len() - 1) as u64),
    )
}

/// The sample variance with the mean derived from the data itself.
pub open spec fn spec_variance(data: Seq<u64>) -> u64 {
    spec_variance_mean(data, spec_mean(data))
}

/// The mean absolute deviation about a supplied mean.
pub open spec fn spec_absdev_mean(data: Seq<u64>, mean: u64) -> u64 {
    div_bits(running_sum(abs_dev_terms(data, mean), 0, ZERO_BITS), from_u64_bits(data.len() as u64))
}

/// The raw sum of squared deviations about a supplied mean.
pub open spec fn spec_tss_mean(data: Seq<u64>, mean: u64) -> u64 {
    running_sum(sq_dev_terms(data, mean), 0, ZERO_BITS)
}

/// Calculates the arithmetic mean with the running recurrence relation
/// `m_i = m_{i-1} + (x_i - m_{i-1}) / i`, which stays bounded where a naive
/// sum of a large uniform sequence would lose precision.
pub fn mean(data: &Vec<u64>) -> (r: u64)
    requires
        data.len() >= 1,
    ensures
        r == spec_mean(data@),
{
    let mut m: u64 = ZERO_BITS;
    let mut i: usize = 0;
    while i < data.len()
        invariant
            i <= data@.len(),
            spec_mean(data@) == running_avg(data@, i as int, m),
        decreases data@.len() - i,
    {
        m = add64(m, div64(sub64(data[i], m), from_u64((i + 1) as u64)));
        i = i + 1;
    }
    m
}

/// The mean absolute deviation, with the mean derived from the data.
pub fn absdev(data: &Vec<u64>) -> (r: u64)
    requires
        data.len() >= 1,
    ensures
        r == spec_absdev_mean(data@, spec_mean(data@)),
{
    let m = mean(data);
    absdev_mean(data, m)
}

/// The mean of `|x_i - mean|` about the supplied mean.
pub fn absdev_mean(data: &Vec<u64>, mean: u64) -> (r: u64)
    requires
        data.len() >= 1,
    ensures
        r == spec_absdev_mean(data@, mean),
{
    let ghost terms = abs_dev_terms(data@, mean);
    let mut sum: u64 = ZERO_BITS;
    let mut i: usize = 0;
    while i < data.len()
        invariant
            i <= data@.len(),
            terms == abs_dev_terms(data@, mean),
            running_sum(terms, 0, ZERO_BITS) == running_sum(terms, i as int, sum),
        decreases data@.len() - i,
    {
        let t = abs64(sub64(data[i], mean));
        proof {
            assert(terms[i as int] == spec_abs(sub_bits(data@[i as int], mean)));
        }
        sum = add64(sum, t);
        i = i + 1;
    }
    div64(sum, from_u64(data.len() as u64))
}

/// The shared squared-deviation recurrence
/// `v_i = v_{i-1} + ((x_i - mean)^2 - v_{i-1}) / i`.
fn variance_core(data: &Vec<u64>, mean: u64) -> (r: u64)
    ensures
        r == spec_variance_with_fixed_mean(data@, mean),
{
    let ghost terms = sq_dev_terms(data@, mean);
    let mut v: u64 = ZERO_BITS;
    let mut i: usize = 0;
    while i < data.len()
        invariant
            i <= data@.len(),
            terms == sq_dev_terms(data@, mean),
            running_avg(terms, 0, ZERO_BITS) == running_avg(terms, i as int, v),
        decreases data@.len() - i,
    {
        let d = sub64(data[i], mean);
        let t = mul64(d, d);
        proof {
            assert(terms[i as int] == mul_bits(
                sub_bits(data@[i as int], mean),
                sub_bits(data@[i as int], mean),
            ));
        }
        v = add64(v, div64(sub64(t, v), from_u64((i + 1) as u64)));
        i = i + 1;
    }
    v
}

/// The population-style variance about a known mean: the raw recurrence
/// result, with no Bessel correction.
pub fn variance_with_fixed_mean(data: &Vec<u64>, mean: u64) -> (r: u64)
    ensures
        r == spec_variance_with_fixed_mean(data@, mean),
{
    variance_core(data, mean)
}

/// The standard deviation about a known mean.
pub fn sd_with_fixed_mean(data: &Vec<u64>, mean: u64) -> (r: u64)
    ensures
        r == sqrt_bits(spec_variance_with_fixed_mean(data@, mean)),
{
    sqrt64(variance_core(data, mean))
}

/// The sample variance about a supplied mean: the recurrence result rescaled
/// by `n / (n - 1)`.  A single observation gives a zero denominator and so an
/// IEEE non-finite result, never a failure.
pub fn variance_mean(data: &Vec<u64>, mean: u64) -> (r: u64)
    requires
        data.len() >= 1,
    ensures
        r == spec_variance_mean(data@, mean),
{
    let v = variance_core(data, mean);
    div64(mul64(v, from_u64(data.len() as u64)), from_u64((data.len() - 1) as u64))
}

/// The sample standard deviation about a supplied mean.
pub fn sd_mean(data: &Vec<u64>, mean: u64) -> (r: u64)
    requires
        data.len() >= 1,
    ensures
        r == sqrt_bits(spec_variance_mean(data@, mean)),
{
    let v = variance_mean(data, mean);
    sqrt64(v)
}

/// The sample variance, with the mean derived from the data.
pub fn variance(data: &Vec<u64>) -> (r: u64)
    requires
        data.len() >= 1,
    ensures
        r == spec_variance(data@),
{
    let m = mean(data);
    variance_mean(data, m)
}

/// The sample standard deviation, with the mean derived from the data.
pub fn sd(data: &Vec<u64>) -> (r: u64)
    requires
        data.len() >= 1,
    ensures
        r == sqrt_bits(spec_variance(data@)),
{
    let m = mean(data);
    sd_mean(data, m)
}

/// The raw (unnormalized) sum of squared deviations about a supplied mean,
/// by a direct sum.
pub fn tss_mean(data: &Vec<u64>, mean: u64) -> (r: u64)
    ensures
        r == spec_tss_mean(data@, mean),
{
    let ghost terms = sq_dev_terms(data@, mean);
    let mut res: u64 = ZERO_BITS;
    let mut i: usize = 0;
    while i < data.len()
        invariant
            i <= data@.len(),
            terms == sq_dev_terms(data@, mean),
            running_sum(terms, 0, ZERO_BITS) == running_sum(terms, i as int, res),
        decreases data@.len() - i,
    {
        let d = sub64(data[i], mean);
        let t = mul64(d, d);
        proof {
            assert(terms[i as int] == mul_bits(
                sub_bits(data@[i as int], mean),
                sub_bits(data@[i as int], mean),
            ));
        }
        res = add64(res, t);
        i = i + 1;
    }
    res
}

/// The raw sum of squared deviations, with the mean derived from the data.
pub fn tss(data: &Vec<u64>) -> (r: u64)
    requires
        data.len() >= 1,
    ensures
        r == spec_tss_mean(data@, spec_mean(data@)),
{
    let m = mean(data);
    tss_mean(data, m)
}

/// The sample estimate is the population-style estimate about the same mean,
/// rescaled by `n / (n - 1)`: Bessel's correction, exactly as constructed.
pub proof fn lemma_variance_scaling(data: Seq<u64>, mean: u64)
    requires
        data.len() >= 1,
    ensures
        spec_variance_mean(data, mean) == div_bits(
            mul_bits(
                spec_variance_with_fixed_mean(data, mean),
                from_u64_bits(data.len() as u64),
            ),
            from_u64_bits((data.len() - 1) as u64),
        ),
{
}

} // verus!
