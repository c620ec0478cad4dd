use canvas_bridge::scale::{ScaleFactor, unscaled_len};

#[test]
fn integral_density_scales_exactly() {
    let density = ScaleFactor::from_ratio(2, 1);
    assert_eq!(unscaled_len(800, density), 1600);
    assert_eq!(unscaled_len(600, density), 1200);
}

#[test]
fn half_pixels_round_to_nearest() {
    // 801 * 1.5 == 1201.5 and 601 * 1.5 == 901.5: halves round up,
    // never truncate.
    let density = ScaleFactor::from_ratio(3, 2);
    assert_eq!(unscaled_len(801, density), 1202);
    assert_eq!(unscaled_len(601, density), 902);
    assert_eq!(unscaled_len(800, density), 1200);
}

#[test]
fn fractions_below_half_round_down() {
    // 801 * 1.25 == 1001.25.
    let density = ScaleFactor::from_ratio(5, 4);
    assert_eq!(unscaled_len(801, density), 1001);
}

#[test]
fn identity_density_keeps_sizes() {
    let density = ScaleFactor::identity();
    assert_eq!(unscaled_len(0, density), 0);
    assert_eq!(unscaled_len(123, density), 123);
}
