use wmi_json::ieee::{is_finite_double, is_finite_single, widen_single};

#[test]
fn finite_singles_are_told_from_the_rest() {
    let mut bits: u32 = 0;
    loop {
        assert_eq!(is_finite_single(bits), f32::from_bits(bits).is_finite());
        match bits.checked_add(40_009) {
            Some(next) => bits = next,
            None => break,
        }
    }
    assert!(is_finite_single(0x7f7f_ffff));
    assert!(!is_finite_single(0x7f80_0000));
    assert!(!is_finite_single(0x7f80_0001));
    assert!(!is_finite_single(0xff80_0000));
    assert!(!is_finite_single(0xffff_ffff));
}

#[test]
fn finite_doubles_are_told_from_the_rest() {
    let mut bits: u64 = 0;
    loop {
        assert_eq!(is_finite_double(bits), f64::from_bits(bits).is_finite());
        match bits.checked_add(0x0000_3fff_ffff_fff1) {
            Some(next) => bits = next,
            None => break,
        }
    }
    assert!(is_finite_double(0x7fef_ffff_ffff_ffff));
    assert!(!is_finite_double(0x7ff0_0000_0000_0000));
    assert!(!is_finite_double(0x7ff0_0000_0000_0001));
    assert!(!is_finite_double(0xfff0_0000_0000_0000));
    assert!(!is_finite_double(u64::MAX));
}

#[test]
fn widening_agrees_with_the_machine() {
    let mut bits: u32 = 0;
    loop {
        let x = f32::from_bits(bits);
        if x.is_finite() {
            assert_eq!(widen_single(bits), Some((x as f64).to_bits()), "bits {bits:#x}");
        } else {
            assert_eq!(widen_single(bits), None);
        }
        match bits.checked_add(9_973) {
            Some(next) => bits = next,
            None => break,
        }
    }
}

#[test]
fn widening_of_subnormals() {
    assert_eq!(widen_single(0x0000_0001), Some(0x36a0_0000_0000_0000));
    assert_eq!(widen_single(0x8000_0001), Some(0xb6a0_0000_0000_0000));
    assert_eq!(widen_single(0x007f_ffff), Some(0x380f_ffff_c000_0000));
    assert_eq!(widen_single(0x0040_0000), Some(0x3800_0000_0000_0000));
    for fraction in 1u32..0x80_0000 {
        if fraction % 7 == 0 || fraction < 4096 {
            let x = f32::from_bits(fraction);
            assert_eq!(widen_single(fraction), Some((x as f64).to_bits()));
        }
    }
}

#[test]
fn widening_of_zeros_and_bounds() {
    assert_eq!(widen_single(0), Some(0));
    assert_eq!(widen_single(0x8000_0000), Some(0x8000_0000_0000_0000));
    assert_eq!(widen_single(0x0080_0000), Some(0x3810_0000_0000_0000));
    assert_eq!(widen_single(0x3f80_0000), Some(0x3ff0_0000_0000_0000));
    assert_eq!(widen_single(0x7f7f_ffff), Some(0x47ef_ffff_e000_0000));
    assert_eq!(widen_single(0x7f80_0000), None);
    assert_eq!(widen_single(0x7fc0_0000), None);
}
