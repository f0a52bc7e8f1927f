use data_collector::bmi::compute_bmi;
use data_collector::patient::Measure;

#[test]
fn bmi_is_ten_weight_over_height_squared() {
    // weight 3.5 kg, height 52 cm, both in millionths of their unit
    let bmi = compute_bmi(Measure::from_micros(3_500_000), Measure::from_micros(52_000_000));
    assert_eq!(bmi.num, 35_000_000_000_000);
    assert_eq!(bmi.den, 2_704_000_000_000_000);
    // as a fraction, that is exactly 10 * 3.5 / 52^2 == 35 / 2704
    assert_eq!(bmi.num * 2_704, 35 * bmi.den);
}

#[test]
fn bmi_of_negative_or_zero_measurements_is_still_exact() {
    let bmi = compute_bmi(Measure::from_micros(-1_000_000), Measure::from_micros(0));
    assert_eq!(bmi.num, -10_000_000_000_000);
    assert_eq!(bmi.den, 0);
}
