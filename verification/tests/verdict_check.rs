use sgemm_harness::verdict::{
    battery_sizes, deviation_passes, overall_verdict, CheckResult, TOLERANCE_BITS,
};

#[test]
fn tolerance_bits_encode_one_thousandth() {
    assert_eq!(TOLERANCE_BITS, (1e-3f32).to_bits());
}

#[test]
fn zero_deviation_passes() {
    assert!(deviation_passes((0.0f32).to_bits()));
}

#[test]
fn deviation_at_tolerance_passes() {
    assert!(deviation_passes((1e-3f32).to_bits()));
    assert!(deviation_passes((0.9e-3f32).to_bits()));
}

#[test]
fn deviation_over_tolerance_fails() {
    assert!(!deviation_passes((1.1e-3f32).to_bits()));
    assert!(!deviation_passes((0.5f32).to_bits()));
}

#[test]
fn nan_deviation_fails() {
    assert!(!deviation_passes(f32::NAN.to_bits()));
    assert!(!deviation_passes((-f32::NAN).to_bits()));
}

#[test]
fn infinite_deviation_fails() {
    assert!(!deviation_passes(f32::INFINITY.to_bits()));
}

#[test]
fn subnormal_deviation_passes() {
    assert!(deviation_passes(f32::MIN_POSITIVE.to_bits()));
    assert!(deviation_passes(1u32)); // smallest subnormal
}

#[test]
fn check_result_derives_its_flag() {
    let good = CheckResult::new(String::from("naive"), 64, (1e-4f32).to_bits());
    assert!(good.passed);
    assert_eq!(good.problem_size, 64);
    assert_eq!(good.kernel_name, "naive");
    let bad = CheckResult::new(String::from("tiled"), 128, (0.25f32).to_bits());
    assert!(!bad.passed);
}

#[test]
fn overall_verdict_is_conjunction() {
    let all_good = vec![
        CheckResult::new(String::from("naive"), 8, 0),
        CheckResult::new(String::from("naive"), 32, (1e-5f32).to_bits()),
    ];
    assert!(overall_verdict(&all_good));
    let mixed = vec![
        CheckResult::new(String::from("naive"), 8, 0),
        CheckResult::new(String::from("naive"), 32, (0.9f32).to_bits()),
    ];
    assert!(!overall_verdict(&mixed));
    let empty: Vec<CheckResult> = vec![];
    assert!(overall_verdict(&empty));
}

#[test]
fn battery_exercises_tile_alignment() {
    assert_eq!(battery_sizes(), vec![8, 32, 64, 128, 256]);
}
