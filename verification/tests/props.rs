// Property checks on concrete data: the naive-average agreement of the
// running mean, non-negativity and exact rescaling of the variance family,
// correlation symmetry and bounds, quantile endpoints, the NaN policy of the
// extremum scans, unit and zero weights, and pooling a sample with itself.

use stat::{
    mean, absdev, variance_with_fixed_mean, variance_mean, variance, sd, sd_with_fixed_mean, tss, skew,
    kurtosis, lag1autocorrelation, covariance, correlation, p_variance, w_mean, w_variance,
    w_sd, w_tss, w_absdev, w_skew, w_kurtosis, max, min, minmax, median_from_sorted_data,
    quantile_from_sorted_data, bits_of_i8, bits_of_i16, bits_of_i32, bits_of_i64, bits_of_isize,
    bits_of_u8, bits_of_u16, bits_of_u32, bits_of_u64, bits_of_usize,
};

fn bits_of(data: &[f64]) -> Vec<u64> {
    data.iter().map(|x| x.to_bits()).collect()
}

fn close(a: f64, b: f64, rel: f64) -> bool {
    if b == 0.0 {
        a.abs() <= rel
    } else {
        ((a - b) / b).abs() <= rel
    }
}

const SAMPLE_A: [f64; 14] = [
    0.0421, 0.0941, 0.1064, 0.0242, 0.1331, 0.0773, 0.0243, 0.0815, 0.1186, 0.0356, 0.0728,
    0.0999, 0.0614, 0.0479,
];

const SAMPLE_B: [f64; 14] = [
    0.1081, 0.0986, 0.1566, 0.1961, 0.1125, 0.1942, 0.1079, 0.1021, 0.1583, 0.1673, 0.1675,
    0.1856, 0.1688, 0.1512,
];

#[test]
fn mean_matches_naive_average() {
    for data in [
        &SAMPLE_A[..],
        &SAMPLE_B[..],
        &[42.0][..],
        &[1.0, 2.0, 3.0, 4.0, 5.0, 6.0][..],
        &[-3.5, 7.25, 0.0, 1e6, -2e-3][..],
    ] {
        let naive: f64 = data.iter().sum::<f64>() / data.len() as f64;
        let running = f64::from_bits(mean(&bits_of(data)));
        assert!(close(running, naive, 1e-10), "{} vs {}", running, naive);
    }
}

#[test]
fn mean_exact_small_case() {
    // 1-point and 2-point means are exact, so any wrapper handing an
    // argument back unchanged would be caught here.
    assert_eq!(f64::from_bits(mean(&bits_of(&[42.0]))), 42.0);
    assert_eq!(f64::from_bits(mean(&bits_of(&[1.0, 3.0]))), 2.0);
    assert_eq!(f64::from_bits(sd_with_fixed_mean(&bits_of(&[0.0, 8.0]), (4.0f64).to_bits())), 4.0);
}

#[test]
fn variance_nonnegative() {
    for data in [
        &SAMPLE_A[..],
        &SAMPLE_B[..],
        &[1.0, 1.0, 1.0][..],
        &[-5.0, 5.0][..],
        &[1e-9, 2e-9, 3e-9, -1e-9][..],
    ] {
        let v = f64::from_bits(variance(&bits_of(data)));
        assert!(v >= 0.0, "variance {} < 0", v);
    }
}

#[test]
fn variance_rescaling_exact() {
    // The sample estimate is the fixed-mean estimate rescaled by n / (n - 1),
    // exactly, by construction.
    for data in [&SAMPLE_A[..], &SAMPLE_B[..], &[2.0, 4.0, 6.0, 9.0][..]] {
        let d = bits_of(data);
        let m = mean(&d);
        let vfm = f64::from_bits(variance_with_fixed_mean(&d, m));
        let vm = f64::from_bits(variance_mean(&d, m));
        let n = data.len() as f64;
        assert_eq!(vm, vfm * n / (n - 1.0));
    }
}

#[test]
fn shape_reference_sample() {
    let d = bits_of(&SAMPLE_A);
    let kurt = f64::from_bits(kurtosis(&d));
    assert!(close(kurt, -1.38583851548909, 1e-10), "kurtosis {}", kurt);
    let sk = f64::from_bits(skew(&d));
    assert!(close(sk, 0.0954642051479004, 1e-10), "skew {}", sk);
}

#[test]
fn correlation_symmetric_and_bounded() {
    let a = bits_of(&SAMPLE_A);
    let b = bits_of(&SAMPLE_B);
    assert_eq!(correlation(&a, &b), correlation(&b, &a));

    let c = bits_of(&[1.0, 2.0, 3.0, 4.0]);
    let d = bits_of(&[1.5, 1.0, 4.0, 3.0]);
    assert_eq!(correlation(&c, &d), correlation(&d, &c));

    for (x, y) in [(&a, &b), (&c, &d)] {
        let r = f64::from_bits(correlation(x, y));
        assert!(r >= -1.0 && r <= 1.0, "correlation {} out of range", r);
    }
}

#[test]
fn quantile_endpoints_are_extrema() {
    for data in [
        &[1.0, 2.0, 7.5][..],
        &SAMPLE_B[..],
        &[-4.0, -1.0, 0.0, 3.25, 9.0, 22.0][..],
    ] {
        let mut s: Vec<f64> = data.to_vec();
        s.sort_by(|a, b| a.partial_cmp(b).unwrap());
        let sorted = bits_of(&s);
        let lo = f64::from_bits(quantile_from_sorted_data(&sorted, (0.0f64).to_bits()));
        let hi = f64::from_bits(quantile_from_sorted_data(&sorted, (1.0f64).to_bits()));
        assert_eq!(lo, s[0]);
        assert_eq!(hi, s[s.len() - 1]);
    }
}

#[test]
fn median_of_even_integer_run() {
    // The ascending 20-element integer sample; both middle elements are 18,
    // so the median is exactly 18.0.
    let ints: [i32; 20] = [8, 10, 12, 12, 16, 16, 16, 17, 18, 18, 18, 18, 18, 20, 20, 20, 20, 20, 21, 22];
    let sorted: Vec<u64> = ints.iter().map(|x| bits_of_i32(*x)).collect();
    let m = f64::from_bits(median_from_sorted_data(&sorted));
    assert_eq!(m, 18.0);
}

#[test]
fn median_and_quantile_of_empty_data() {
    let empty: Vec<u64> = Vec::new();
    assert_eq!(f64::from_bits(median_from_sorted_data(&empty)), 0.0);
    assert_eq!(
        f64::from_bits(quantile_from_sorted_data(&empty, (0.5f64).to_bits())),
        0.0
    );
}

#[test]
fn nan_wins_at_any_position() {
    for pos in [0usize, 5, 13] {
        let mut data = bits_of(&SAMPLE_A);
        data[pos] = f64::NAN.to_bits();

        let (mx, mxi) = max(&data);
        assert!(f64::from_bits(mx).is_nan());
        assert_eq!(mxi, pos);

        let (mn, mni) = min(&data);
        assert!(f64::from_bits(mn).is_nan());
        assert_eq!(mni, pos);

        let (mn2, mni2, mx2, mxi2) = minmax(&data);
        assert!(f64::from_bits(mn2).is_nan());
        assert!(f64::from_bits(mx2).is_nan());
        assert_eq!(mni2 as usize, pos);
        assert_eq!(mxi2 as usize, pos);
    }
}

#[test]
fn unit_weights_reproduce_unweighted() {
    let data = bits_of(&SAMPLE_A);
    let ones = bits_of(&[1.0; 14]);
    let rel = 1e-10;

    let wm = f64::from_bits(w_mean(&ones, &data));
    let m = f64::from_bits(mean(&data));
    assert!(close(wm, m, rel));

    let wv = f64::from_bits(w_variance(&ones, &data));
    let v = f64::from_bits(variance(&data));
    assert!(close(wv, v, rel));

    let ws = f64::from_bits(w_sd(&ones, &data));
    let s = f64::from_bits(sd(&data));
    assert!(close(ws, s, rel));

    let wt = f64::from_bits(w_tss(&ones, &data));
    let t = f64::from_bits(tss(&data));
    assert!(close(wt, t, rel));

    let wa = f64::from_bits(w_absdev(&ones, &data));
    let a = f64::from_bits(absdev(&data));
    assert!(close(wa, a, rel));

    let wsk = f64::from_bits(w_skew(&ones, &data));
    let sk = f64::from_bits(skew(&data));
    assert!(close(wsk, sk, rel));

    let wk = f64::from_bits(w_kurtosis(&ones, &data));
    let k = f64::from_bits(kurtosis(&data));
    assert!(close(wk, k, rel));
}

#[test]
fn zero_weight_is_removal() {
    // A zero (or negative) weight entry leaves every weighted statistic
    // exactly as if the observation were never there.
    let data = bits_of(&[3.0, 8.0, 1.5, -2.0, 4.0]);
    let removed_data = bits_of(&[3.0, 8.0, -2.0, 4.0]);
    let removed_w = bits_of(&[2.0, 1.0, 0.5, 3.0]);

    for dead in [0.0f64, -7.25] {
        let w = bits_of(&[2.0, 1.0, dead, 0.5, 3.0]);
        assert_eq!(w_mean(&w, &data), w_mean(&removed_w, &removed_data));
        assert_eq!(w_variance(&w, &data), w_variance(&removed_w, &removed_data));
        assert_eq!(w_tss(&w, &data), w_tss(&removed_w, &removed_data));
        assert_eq!(w_absdev(&w, &data), w_absdev(&removed_w, &removed_data));
        assert_eq!(w_skew(&w, &data), w_skew(&removed_w, &removed_data));
        assert_eq!(w_kurtosis(&w, &data), w_kurtosis(&removed_w, &removed_data));
    }
}

#[test]
fn pooling_a_sample_with_itself() {
    for data in [&SAMPLE_A[..], &SAMPLE_B[..], &[2.0, 4.0, 9.0][..]] {
        let d = bits_of(data);
        assert_eq!(p_variance(&d, &d), variance(&d));
    }
}

#[test]
fn single_observation_gives_non_finite_sample_variance() {
    // Bessel's correction divides by n - 1: with one observation the
    // quotient is 0 / 0, a NaN by IEEE semantics, never a failure.
    let one = bits_of(&[5.0]);
    assert!(f64::from_bits(variance(&one)).is_nan());
}

#[test]
fn lag1_of_alternating_sequence() {
    // Perfectly alternating deviations give a lag-1 autocorrelation near -1.
    let data = bits_of(&[1.0, -1.0, 1.0, -1.0, 1.0, -1.0, 1.0, -1.0]);
    let r = f64::from_bits(lag1autocorrelation(&data));
    assert!(r < 0.0, "lag-1 autocorrelation {} not negative", r);
    assert!(close(r, -0.875, 1e-10), "lag-1 autocorrelation {}", r);
}

#[test]
fn covariance_of_identical_sequences_is_variance() {
    let d = bits_of(&SAMPLE_A);
    let c = f64::from_bits(covariance(&d, &d));
    let v = f64::from_bits(variance(&d));
    assert!(close(c, v, 1e-10));
}

#[test]
fn integer_coercions_widen_exactly() {
    assert_eq!(f64::from_bits(bits_of_i8(-7)), -7.0);
    assert_eq!(f64::from_bits(bits_of_i16(-300)), -300.0);
    assert_eq!(f64::from_bits(bits_of_i32(123456)), 123456.0);
    assert_eq!(f64::from_bits(bits_of_i64(-9007199254740992)), -9007199254740992.0);
    assert_eq!(f64::from_bits(bits_of_isize(-3)), -3.0);
    assert_eq!(f64::from_bits(bits_of_u8(200)), 200.0);
    assert_eq!(f64::from_bits(bits_of_u16(60000)), 60000.0);
    assert_eq!(f64::from_bits(bits_of_u32(4000000000)), 4000000000.0);
    assert_eq!(f64::from_bits(bits_of_u64(9007199254740992)), 9007199254740992.0);
    assert_eq!(f64::from_bits(bits_of_usize(17)), 17.0);
}
