//! Descriptive statistics over IEEE-754 double-precision data.
//!
//! Every double is carried as its 64-bit pattern (`u64`), so that the
//! recurrence algorithms themselves — running means, Welford-style
//! covariance and correlation, weighted moment accumulation, and order
//! statistics with an explicit NaN policy — are verified, while the rounded
//! arithmetic is performed by a software IEEE-754 implementation behind
//! trusted wrappers (see `ieee`).

pub mod ieee;
pub mod types;
pub mod central;
pub mod shape;
pub mod assoc;
pub mod weighted;
pub mod order;

pub use central::{
    mean, absdev, absdev_mean, variance_with_fixed_mean, sd_with_fixed_mean, variance_mean,
    sd_mean, variance, sd, tss_mean, tss,
};
pub use shape::{skew, skew_mean_sd, kurtosis, kurtosis_main_sd, lag1autocorrelation,
    lag1autocorrelation_mean};
pub use assoc::{covariance, covariance_mean, correlation, p_variance, t_test};
pub use weighted::{
    w_mean, w_absdev, w_absdev_mean, w_variance_with_fixed_mean, wsd_with_fixed_mean,
    w_variance_mean, w_sd_mean, w_sd, w_variance, w_tss_mean, w_tss, w_skew, w_skew_mean_sd,
    w_kurtosis, w_kurtosis_mean_sd,
};
pub use order::{max, min, minmax, median_from_sorted_data, quantile_from_sorted_data};
pub use types::{
    bits_of_u8, bits_of_u16, bits_of_u32, bits_of_u64, bits_of_usize, bits_of_i8, bits_of_i16,
    bits_of_i32, bits_of_i64, bits_of_isize,
};
