// Integer samples through the numeric coercion layer: every observation is
// read as a double before the statistics run.

use stat::{
    mean, absdev, variance_with_fixed_mean, sd_with_fixed_mean, variance, sd, skew, kurtosis,
    covariance, correlation, p_variance, t_test, max, min, minmax, median_from_sorted_data,
    quantile_from_sorted_data, bits_of_i32,
};

fn bits_of_ints(data: &[i32]) -> Vec<u64> {
    data.iter().map(|x| bits_of_i32(*x)).collect()
}

fn test(status: bool, test_description: &str) {
    if status == true {
        println!("FAIL: {}\n", test_description);
        assert!(false);
    }
}

fn test_rel(result: f64, expected: f64, relative_error: f64, test_description: &str) {
    let status = if result.is_nan() || expected.is_nan() {
        result.is_nan() != expected.is_nan()
    } else if result.is_infinite() || expected.is_infinite() {
        result.is_infinite() != expected.is_infinite()
    } else if expected != 0.0 {
        (result - expected).abs() / expected.abs() > relative_error
    } else {
        result.abs() > relative_error
    };

    if status == true {
        println!(
            "FAIL: {} ({} observed vs {} expected)",
            test_description, result, expected
        );
        assert!(false);
    }
}

#[test]
fn test_i32_slice() {
    // sample sets of integers

    let slice_1 = bits_of_ints(&[1, 2, 3, 4, 5, 6]);

    let slice_a = bits_of_ints(&[
        17, 18, 16, 18, 12, 20, 18, 20, 20, 22, 20, 10, 8, 12, 16, 16, 18, 20, 18, 21,
    ]);

    let slice_b = bits_of_ints(&[
        19, 20, 22, 24, 10, 25, 20, 22, 21, 23, 20, 10, 12, 14, 12, 20, 22, 24, 23, 17,
    ]);

    let rel = 1.0e-10;

    {
        let mean = f64::from_bits(mean(&slice_a));
        let expected = 17.0;
        test_rel(mean, expected, rel, "mean(integer)");
    }

    {
        let mean = f64::from_bits(mean(&slice_1));
        let expected = 3.5;
        test_rel(mean, expected, rel, "mean(fractional)");
    }

    {
        let mean = mean(&slice_a);
        let variance = f64::from_bits(variance_with_fixed_mean(&slice_a, mean));
        let expected = 13.7;
        test_rel(variance, expected, rel, "variance_with_fixed_mean");
    }

    {
        let mean = mean(&slice_a);
        let sd = f64::from_bits(sd_with_fixed_mean(&slice_a, mean));
        let expected = 3.70135110466435;
        test_rel(sd, expected, rel, "sd_with_fixed_mean");
    }

    {
        let variance = f64::from_bits(variance(&slice_a));
        let expected = 14.4210526315789;
        test_rel(variance, expected, rel, "variance");
    }

    {
        let sd_est = f64::from_bits(sd(&slice_a));
        let expected = 3.79750610685209;
        test_rel(sd_est, expected, rel, "sd");
    }

    {
        let absdev = f64::from_bits(absdev(&slice_a));
        let expected = 2.9;
        test_rel(absdev, expected, rel, "absdev");
    }

    {
        let skew = f64::from_bits(skew(&slice_a));
        let expected = -0.909355923168064;
        test_rel(skew, expected, rel, "skew");
    }

    {
        let kurt = f64::from_bits(kurtosis(&slice_a));
        let expected = -0.233692524908094;
        test_rel(kurt, expected, rel, "kurtosis");
    }

    {
        let c = f64::from_bits(covariance(&slice_a, &slice_b));
        let expected = 14.5263157894737;
        test_rel(c, expected, rel, "covariance");
    }

    {
        let r = f64::from_bits(correlation(&slice_a, &slice_b));
        let expected = 0.793090350710101;
        test_rel(r, expected, rel, "correlation");
    }

    {
        let pv = f64::from_bits(p_variance(&slice_a, &slice_b));
        let expected = 18.8421052631579;
        test_rel(pv, expected, rel, "p_variance");
    }

    {
        let t = f64::from_bits(t_test(&slice_a, &slice_b));
        let expected = -1.45701922702927;
        test_rel(t, expected, rel, "t_test");
    }

    {
        let (maxf, max_index) = max(&slice_a);
        let max = f64::from_bits(maxf) as i64;
        let expected = 22i64;
        let expected_index = 9;

        let str1 = format!("max ({} observed vs {} expected)", max, expected);
        test(max != expected, &str1);

        let str2 = format!(
            "max index ({} observed vs {} expected)",
            max_index, expected_index
        );
        test(max_index != expected_index, &str2);
    }

    {
        let (minf, min_index) = min(&slice_a);
        let min = f64::from_bits(minf) as i32;
        let expected = 8;
        let expected_index = 12;

        let str1 = format!("min ({} observed vs {} expected)", min, expected);
        test(min != expected, &str1);

        let str2 = format!(
            "min index ({} observed vs {} expected)",
            min_index, expected_index
        );
        test(min_index != expected_index, &str2);
    }

    {
        let (minf, min_index, maxf, max_index) = minmax(&slice_a);
        let min = f64::from_bits(minf) as i32;
        let max = f64::from_bits(maxf) as i32;
        let expected_max = 22;
        let expected_min = 8;
        let expected_max_index = 9;
        let expected_min_index = 12;

        let str1 = format!("minmax max ({} observed vs {} expected)", max, expected_max);
        test(max != expected_max, &str1);

        let str2 = format!("minmax min ({} observed vs {} expected)", min, expected_min);
        test(min != expected_min, &str2);

        let str3 = format!(
            "minmax index max ({} observed vs {} expected)",
            max_index, expected_max_index
        );
        test(max_index != expected_max_index, &str3);

        let str4 = format!(
            "minmax index min ({} observed vs {} expected)",
            min_index, expected_min_index
        );
        test(min_index != expected_min_index, &str4);
    }

    let mut sorted_i = vec![17, 18, 16, 18, 12, 20, 18, 20, 20, 22, 20, 10, 8, 12, 16, 16, 18, 20, 18, 21];
    sorted_i.sort();
    let sorted = bits_of_ints(&sorted_i);

    {
        let median = f64::from_bits(median_from_sorted_data(&sorted));
        let expected = 18.0;
        test_rel(median, expected, rel, "median_from_sorted_data(even)");
    }

    {
        let zeroth = f64::from_bits(quantile_from_sorted_data(&sorted, (0.0f64).to_bits()));
        let expected = 8.0;
        test_rel(zeroth, expected, rel, "quantile_from_sorted_data(0)");
    }

    {
        let top = f64::from_bits(quantile_from_sorted_data(&sorted, (1.0f64).to_bits()));
        let expected = 22.0;
        test_rel(top, expected, rel, "quantile_from_sorted_data(100)");
    }

    {
        let median = f64::from_bits(quantile_from_sorted_data(&sorted, (0.5f64).to_bits()));
        let expected = 18.0;
        test_rel(median, expected, rel, "quantile_from_sorted_data(50, even)");
    }
}
