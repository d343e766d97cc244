use hdr_widget::rational::Scale;
use hdr_widget::sizing::{
    enforce_logical_size, exceeds_tolerance, LogicalSize, PhysicalSize, TARGET_HEIGHT_LOGICAL,
    TARGET_WIDTH_LOGICAL,
};

const TARGET: Option<LogicalSize> = Some(LogicalSize { width: 160, height: 60 });

fn size(width: u32, height: u32) -> Option<PhysicalSize> {
    Some(PhysicalSize { width, height })
}

fn scale(numer: u32, denom: u32) -> Option<Scale> {
    Some(Scale { numer, denom })
}

#[test]
fn target_is_160_by_60() {
    assert_eq!(TARGET_WIDTH_LOGICAL, 160);
    assert_eq!(TARGET_HEIGHT_LOGICAL, 60);
}

#[test]
fn exact_size_is_kept() {
    assert_eq!(enforce_logical_size(size(160, 60), scale(1, 1)), None);
    assert_eq!(enforce_logical_size(size(240, 90), scale(3, 2)), None);
    assert_eq!(enforce_logical_size(size(200, 75), scale(120, 96)), None);
    assert_eq!(enforce_logical_size(size(320, 120), scale(2, 1)), None);
}

#[test]
fn one_pixel_off_at_scale_one_is_corrected() {
    assert_eq!(enforce_logical_size(size(161, 60), scale(1, 1)), TARGET);
    assert_eq!(enforce_logical_size(size(159, 60), scale(1, 1)), TARGET);
    assert_eq!(enforce_logical_size(size(160, 61), scale(1, 1)), TARGET);
    assert_eq!(enforce_logical_size(size(160, 59), scale(1, 1)), TARGET);
    assert_eq!(enforce_logical_size(size(0, 0), scale(1, 1)), TARGET);
}

#[test]
fn a_size_left_from_another_scale_is_corrected() {
    assert_eq!(enforce_logical_size(size(160, 60), scale(3, 2)), TARGET);
    assert_eq!(enforce_logical_size(size(240, 90), scale(1, 1)), TARGET);
}

#[test]
fn the_tolerance_is_a_tenth_of_a_unit() {
    // At scale 20 one pixel is a twentieth of a unit.
    assert_eq!(enforce_logical_size(size(3201, 1200), scale(20, 1)), None);
    assert_eq!(enforce_logical_size(size(3202, 1200), scale(20, 1)), None);
    assert_eq!(enforce_logical_size(size(3203, 1200), scale(20, 1)), TARGET);
    assert_eq!(enforce_logical_size(size(3198, 1200), scale(20, 1)), None);
    assert_eq!(enforce_logical_size(size(3197, 1200), scale(20, 1)), TARGET);
    assert_eq!(enforce_logical_size(size(3200, 1202), scale(20, 1)), None);
    assert_eq!(enforce_logical_size(size(3200, 1203), scale(20, 1)), TARGET);
    assert_eq!(enforce_logical_size(size(3200, 1197), scale(20, 1)), TARGET);
}

#[test]
fn exactly_a_tenth_off_is_within_the_tolerance() {
    assert!(!exceeds_tolerance(1601, Scale { numer: 10, denom: 1 }, 160));
    assert!(!exceeds_tolerance(1599, Scale { numer: 10, denom: 1 }, 160));
    assert!(exceeds_tolerance(1602, Scale { numer: 10, denom: 1 }, 160));
    assert!(exceeds_tolerance(1598, Scale { numer: 10, denom: 1 }, 160));
}

#[test]
fn without_a_current_size_nothing_is_done() {
    assert_eq!(enforce_logical_size(None, scale(1, 1)), None);
    assert_eq!(enforce_logical_size(None, None), None);
}

#[test]
fn without_a_scale_pixels_are_units() {
    assert_eq!(enforce_logical_size(size(160, 60), None), None);
    assert_eq!(enforce_logical_size(size(240, 90), None), TARGET);
}

#[test]
fn extreme_values_do_not_overflow() {
    assert_eq!(enforce_logical_size(size(u32::MAX, u32::MAX), scale(u32::MAX, u32::MAX)), TARGET);
    assert_eq!(enforce_logical_size(size(u32::MAX, u32::MAX), scale(1, u32::MAX)), TARGET);
    assert_eq!(enforce_logical_size(size(0, 0), scale(u32::MAX, 1)), TARGET);
}

#[test]
fn decision_agrees_with_the_quotient_in_floating_point() {
    // Scales that a binary fraction holds exactly, and sizes around the target.
    for dpi in [96u32, 120, 144, 168, 192, 240, 288, 384] {
        let factor = dpi as f64 / 96.0;
        let w0 = (160.0 * factor).round() as u32;
        let h0 = (60.0 * factor).round() as u32;
        for dw in 0..7u32 {
            for dh in 0..7u32 {
                let w = w0 + dw - 3;
                let h = h0 + dh - 3;
                let off = (w as f64 / factor - 160.0).abs() > 0.1
                    || (h as f64 / factor - 60.0).abs() > 0.1;
                let expected = if off { TARGET } else { None };
                assert_eq!(enforce_logical_size(size(w, h), scale(dpi, 96)), expected, "{} {} {}", dpi, w, h);
            }
        }
    }
}
