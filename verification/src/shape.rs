//! Shape statistics: skewness, excess kurtosis, and the lag-1
//! autocorrelation coefficient, each a running recurrence over standardized
//! deviations.

use vstd::prelude::*;

use crate::central::{running_avg, spec_mean, spec_variance_mean, mean, sd_mean};
use crate::ieee::{
    ZERO_BITS, THREE_BITS, add_bits, sub_bits, mul_bits, div_bits, sqrt_bits, from_u64_bits,
    add64, sub64, mul64, div64, from_u64,
};

verus! {

/// The cubed standardized deviation `((x_i - mean) / sd)^3` of each
/// observation.
pub open spec fn cube_terms(data: Seq<u64>, mean: u64, sd: u64) -> Seq<u64> {
    Seq::new(
        data.len(),
        |j: int|
            {
                let z = div_bits(sub_bits(data[j], mean), sd);
                mul_bits(mul_bits(z, z), z)
            },
    )
}

/// The fourth power of the standardized deviation of each observation.
pub open spec fn fourth_terms(data: Seq<u64>, mean: u64, sd: u64) -> Seq<u64> {
    Seq::new(
        data.len(),
        |j: int|
            {
                let z = div_bits(sub_bits(data[j], mean), sd);
                mul_bits(mul_bits(mul_bits(z, z), z), z)
            },
    )
}

/// The skewness about a supplied mean and standard deviation: the running
/// average of cubed standardized deviations.
pub open spec fn spec_skew_mean_sd(data: Seq<u64>, mean: u64, sd: u64) -> u64 {
    running_avg(cube_terms(data, mean, sd), 0, ZERO_BITS)
}

/// The excess kurtosis about a supplied mean and standard deviation: the
/// running average of fourth standardized moments, less three.
pub open spec fn spec_kurtosis_mean_sd(data: Seq<u64>, mean: u64, sd: u64) -> u64 {
    sub_bits(running_avg(fourth_terms(data, mean, sd), 0, ZERO_BITS), THREE_BITS)
}

/// The two running sums of the lag-1 autocorrelation from index `i` on:
/// `q` accumulates cross products of consecutive deviations, `v` squared
/// deviations, both by the running-average recurrence.
pub open spec fn lag1_rec(data: Seq<u64>, mean: u64, i: int, q: u64, v: u64) -> (u64, u64)
    decreases data.len() - i,
{
    if i < 1 || i >= data.len() {
        (q, v)
    } else {
        let delta0 = sub_bits(data[i - 1], mean);
        let delta1 = sub_bits(data[i], mean);
        lag1_rec(
            data,
            mean,
            i + 1,
            add_bits(q, div_bits(sub_bits(mul_bits(delta0, delta1), q), from_u64_bits((i + 1) as u64))),
            add_bits(v, div_bits(sub_bits(mul_bits(delta1, delta1), v), from_u64_bits((i + 1) as u64))),
        )
    }
}

/// The lag-1 autocorrelation coefficient about a supplied mean: the ratio of
/// the running cross-product sum to the running squared-deviation sum.
pub open spec fn spec_lag1_mean(data: Seq<u64>, mean: u64) -> u64 {
    let d0 = sub_bits(data[0], mean);
    let r = lag1_rec(data, mean, 1, ZERO_BITS, mul_bits(d0, d0));
    div_bits(r.0, r.1)
}

/// Calculates the skewness of a dataset, deriving the mean and the sample
/// standard deviation first.
pub fn skew(data: &Vec<u64>) -> (r: u64)
    requires
        data.len() >= 1,
    ensures
        r == spec_skew_mean_sd(
            data@,
            spec_mean(data@),
            sqrt_bits(spec_variance_mean(data@, spec_mean(data@))),
        ),
{
    let m = mean(data);
    let s = sd_mean(data, m);
    skew_mean_sd(data, m, s)
}

/// The running third standardized moment
/// `avg_i = avg_{i-1} + (z_i^3 - avg_{i-1}) / i` about the supplied mean and
/// standard deviation.
pub fn skew_mean_sd(data: &Vec<u64>, mean: u64, sd: u64) -> (r: u64)
    ensures
        r == spec_skew_mean_sd(data@, mean, sd),
{
    let ghost terms = cube_terms(data@, mean, sd);
    let mut acc: u64 = ZERO_BITS;
    let mut i: usize = 0;
    while i < data.len()
        invariant
            i <= data@.len(),
            terms == cube_terms(data@, mean, sd),
            running_avg(terms, 0, ZERO_BITS) == running_avg(terms, i as int, acc),
        decreases data@.len() - i,
    {
        let z = div64(sub64(data[i], mean), sd);
        let t = mul64(mul64(z, z), z);
        proof {
            assert(terms[i as int] == {
                let z = div_bits(sub_bits(data@[i as int], mean), sd);
                mul_bits(mul_bits(z, z), z)
            });
        }
        acc = add64(acc, div64(sub64(t, acc), from_u64((i + 1) as u64)));
        i = i + 1;
    }
    acc
}

/// Calculates the excess kurtosis of a dataset, deriving the mean and the
/// sample standard deviation first.
pub fn kurtosis(data: &Vec<u64>) -> (r: u64)
    requires
        data.len() >= 1,
    ensures
        r == spec_kurtosis_mean_sd(
            data@,
            spec_mean(data@),
            sqrt_bits(spec_variance_mean(data@, spec_mean(data@))),
        ),
{
    let m = mean(data);
    let est_sd = sd_mean(data, m);
    kurtosis_main_sd(data, m, est_sd)
}

/// The running fourth standardized moment about the supplied mean and
/// standard deviation, less three, so a Gaussian has kurtosis zero.  The
/// recurrence keeps the running value bounded, with no large sum to overflow.
pub fn kurtosis_main_sd(data: &Vec<u64>, mean: u64, sd: u64) -> (r: u64)
    ensures
        r == spec_kurtosis_mean_sd(data@, mean, sd),
{
    let ghost terms = fourth_terms(data@, mean, sd);
    let mut avg: u64 = ZERO_BITS;
    let mut i: usize = 0;
    while i < data.len()
        invariant
            i <= data@.len(),
            terms == fourth_terms(data@, mean, sd),
            running_avg(terms, 0, ZERO_BITS) == running_avg(terms, i as int, avg),
        decreases data@.len() - i,
    {
        let z = div64(sub64(data[i], mean), sd);
        let t = mul64(mul64(mul64(z, z), z), z);
        proof {
            assert(terms[i as int] == {
                let z = div_bits(sub_bits(data@[i as int], mean), sd);
                mul_bits(mul_bits(mul_bits(z, z), z), z)
            });
        }
        avg = add64(avg, div64(sub64(t, avg), from_u64((i + 1) as u64)));
        i = i + 1;
    }
    sub64(avg, THREE_BITS)
}

/// The lag-1 autocorrelation, deriving the mean first.
pub fn lag1autocorrelation(data: &Vec<u64>) -> (r: u64)
    requires
        data.len() >= 2,
    ensures
        r == spec_lag1_mean(data@, spec_mean(data@)),
{
    let m = mean(data);
    lag1autocorrelation_mean(data, m)
}

/// The lag-1 autocorrelation about a supplied mean: running estimates of the
/// consecutive cross-product sum `q` and the squared-deviation sum `v`, with
/// the coefficient `q / v`.
pub fn lag1autocorrelation_mean(data: &Vec<u64>, mean: u64) -> (r: u64)
    requires
        data.len() >= 2,
    ensures
        r == spec_lag1_mean(data@, mean),
{
    let d0 = sub64(data[0], mean);
    let mut q: u64 = ZERO_BITS;
    let mut v: u64 = mul64(d0, d0);
    let mut i: usize = 1;
    while i < data.len()
        invariant
            1 <= i <= data@.len(),
            data@.len() >= 1,
            lag1_rec(data@, mean, 1, ZERO_BITS, mul_bits(sub_bits(data@[0], mean), sub_bits(data@[0], mean)))
                == lag1_rec(data@, mean, i as int, q, v),
        decreases data@.len() - i,
    {
        let delta0 = sub64(data[i - 1], mean);
        let delta1 = sub64(data[i], mean);
        q = add64(q, div64(sub64(mul64(delta0, delta1), q), from_u64((i + 1) as u64)));
        v = add64(v, div64(sub64(mul64(delta1, delta1), v), from_u64((i + 1) as u64)));
        i = i + 1;
    }
    div64(q, v)
}

} // verus!
