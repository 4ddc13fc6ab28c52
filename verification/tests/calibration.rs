use strain_gauge::calibrate::to_millivolts;

#[test]
fn nominal_values() {
    // reference 2048: gauge codes 1024 and 512 give 600 mV and 300 mV
    assert_eq!(to_millivolts(2048, 1024), 600);
    assert_eq!(to_millivolts(2048, 512), 300);
}

#[test]
fn zero_reference_is_guarded() {
    assert_eq!(to_millivolts(0, 0), 0);
    assert_eq!(to_millivolts(0, 1234), 0);
    assert_eq!(to_millivolts(0, 65535), 0);
}

#[test]
fn zero_sample_gives_zero() {
    assert_eq!(to_millivolts(2048, 0), 0);
    assert_eq!(to_millivolts(1, 0), 0);
}

#[test]
fn full_scale_is_reference_voltage() {
    assert_eq!(to_millivolts(4095, 4095), 1200);
    assert_eq!(to_millivolts(1, 1), 1200);
}

#[test]
fn truncating_division() {
    // 1023 * 1200 / 2048 = 599.41..., truncated
    assert_eq!(to_millivolts(2048, 1023), 599);
    // 3 * 1200 / 7 = 514.28..., truncated
    assert_eq!(to_millivolts(7, 3), 514);
}

#[test]
fn oversized_quotient_is_reduced_mod_2_16() {
    // 4095 * 1200 / 1 = 4914000; reduced modulo 65536 that is 64336
    assert_eq!(to_millivolts(1, 4095), 64336);
}
