use d_size_measure::weight_hundredths;

#[test]
fn weight_of_zero_amount_is_zero() {
    assert_eq!(weight_hundredths(0, 90), 0);
}

#[test]
fn weight_below_ceiling_is_the_amount() {
    assert_eq!(weight_hundredths(1, 90), 1);
    assert_eq!(weight_hundredths(45, 90), 45);
    assert_eq!(weight_hundredths(89, 90), 89);
    assert_eq!(weight_hundredths(90, 90), 90);
}

#[test]
fn weight_above_ceiling_clamps_to_ceiling() {
    assert_eq!(weight_hundredths(91, 90), 90);
    assert_eq!(weight_hundredths(100, 90), 90);
    assert_eq!(weight_hundredths(1_000_000, 90), 90);
    assert_eq!(weight_hundredths(u64::MAX, 90), 90);
}

#[test]
fn weight_never_exceeds_one() {
    // The scale constant is 100, independent of the ceiling: with a ceiling
    // above 100 the weight still clamps to 1 (100 hundredths).
    assert_eq!(weight_hundredths(99, 200), 99);
    assert_eq!(weight_hundredths(100, 200), 100);
    assert_eq!(weight_hundredths(150, 200), 100);
    assert_eq!(weight_hundredths(u64::MAX, u64::MAX), 100);
}

// The two scenarios below run the whole sample for a fixed uniform draw.
// The library fixes the weight exactly; the floating-point completion
// (biased = u^(1 - w), result = min + biased * (max - min)) belongs to the
// host shell and is recomputed here from the library's weight.

#[test]
fn sample_scenario_large_burn() {
    // Burning 100 under a ceiling of 90 weights the draw by 0.9; with
    // u = 0.5 the biased draw is 0.5^0.1 and the sample lands near the top
    // of [0.2, 10.0].
    let w_hundredths = weight_hundredths(100, 90);
    assert_eq!(w_hundredths, 90);
    let w = w_hundredths as f64 / 100.0;
    let u: f64 = 0.5;
    let result = 0.2 + u.powf(1.0 - w) * (10.0 - 0.2);
    assert!((result - 9.343723317060713).abs() < 1e-6);
}

#[test]
fn sample_scenario_zero_burn() {
    // Burning nothing leaves the draw unbiased: with u = 0.5 the sample is
    // the middle of [0.2, 10.0], which is 5.1 up to rounding.
    let w_hundredths = weight_hundredths(0, 90);
    assert_eq!(w_hundredths, 0);
    let w = w_hundredths as f64 / 100.0;
    let u: f64 = 0.5;
    let result = 0.2 + u.powf(1.0 - w) * (10.0 - 0.2);
    assert!((result - 5.1).abs() < 1e-6);
}

#[test]
fn weight_is_monotone_in_the_amount() {
    let amounts: [u64; 7] = [0, 1, 44, 45, 89, 90, 200];
    for w in amounts.windows(2) {
        assert!(weight_hundredths(w[0], 90) <= weight_hundredths(w[1], 90));
    }
}
