use vec3::binary64::{equal, negate, INFINITY, SIGN_BIT, MAGNITUDE_BITS};

fn samples() -> Vec<u64> {
    let mut v = vec![
        0x0000_0000_0000_0000,
        0x0000_0000_0000_0001,
        0x000f_ffff_ffff_ffff,
        0x0010_0000_0000_0000,
        0x0010_0000_0000_0001,
        0x001f_ffff_ffff_ffff,
        0x0020_0000_0000_0000,
        0x3ff0_0000_0000_0000,
        0x3ff0_0000_0000_0001,
        0x4000_0000_0000_0000,
        0x4014_0000_0000_0000,
        0x7fe0_0000_0000_0000,
        0x7fef_ffff_ffff_ffff,
        0x7ff0_0000_0000_0000,
        0x7ff0_0000_0000_0001,
        0x7ff8_0000_0000_0000,
        0x7fff_ffff_ffff_ffff,
    ];
    let positive = v.clone();
    for p in positive {
        v.push(p | 0x8000_0000_0000_0000);
    }
    v
}

#[test]
fn constants_name_the_fields() {
    assert_eq!(SIGN_BIT, (-0.0f64).to_bits());
    assert_eq!(INFINITY, f64::INFINITY.to_bits());
    assert_eq!(MAGNITUDE_BITS, !SIGN_BIT);
    assert_eq!(SIGN_BIT | INFINITY, f64::NEG_INFINITY.to_bits());
}

#[test]
fn negate_known_values() {
    assert_eq!(negate(0x3ff0_0000_0000_0000), 0xbff0_0000_0000_0000);
    assert_eq!(negate(0xbff0_0000_0000_0000), 0x3ff0_0000_0000_0000);
    assert_eq!(negate(0), 0x8000_0000_0000_0000);
    assert_eq!(negate(0x8000_0000_0000_0000), 0);
    assert_eq!(negate(0x7ff8_0000_0000_0001), 0xfff8_0000_0000_0001);
    assert_eq!(negate(5.0f64.to_bits()), (-5.0f64).to_bits());
}

#[test]
fn negate_agrees_with_the_processor() {
    for bits in samples() {
        assert_eq!(negate(bits), (-f64::from_bits(bits)).to_bits());
        assert_eq!(negate(negate(bits)), bits);
    }
}

#[test]
fn equal_known_values() {
    assert!(equal(0x3ff0_0000_0000_0000, 0x3ff0_0000_0000_0000));
    assert!(!equal(0x3ff0_0000_0000_0000, 0x3ff0_0000_0000_0001));
    assert!(!equal(0x3ff0_0000_0000_0000, 0xbff0_0000_0000_0000));
    assert!(equal(0, 0x8000_0000_0000_0000));
    assert!(equal(0x8000_0000_0000_0000, 0));
    assert!(!equal(0, 1));
    assert!(!equal(1, 0x8000_0000_0000_0001));
    assert!(equal(0x7ff0_0000_0000_0000, 0x7ff0_0000_0000_0000));
    assert!(!equal(0x7ff0_0000_0000_0000, 0xfff0_0000_0000_0000));
    assert!(!equal(0x7ff8_0000_0000_0000, 0x7ff8_0000_0000_0000));
    assert!(!equal(0x7ff0_0000_0000_0001, 0x7ff0_0000_0000_0001));
    assert!(!equal(0xfff8_0000_0000_0000, 0));
    assert!(!equal(0, 0x7fff_ffff_ffff_ffff));
}

#[test]
fn equal_tells_subnormal_from_least_normal() {
    assert!(!equal(0x000f_ffff_ffff_ffff, 0x0010_0000_0000_0000));
    assert!(!equal(0x0010_0000_0000_0000, 0x0020_0000_0000_0000));
    assert!(!equal(0x0008_0000_0000_0000, 0x0010_0000_0000_0000));
}

#[test]
fn equal_agrees_with_the_processor() {
    let all = samples();
    for &a in all.iter() {
        for &b in all.iter() {
            assert_eq!(equal(a, b), f64::from_bits(a) == f64::from_bits(b), "{:#x} {:#x}", a, b);
        }
    }
}

#[test]
fn equal_is_kept_by_negation() {
    let all = samples();
    for &a in all.iter() {
        for &b in all.iter() {
            assert_eq!(equal(negate(a), negate(b)), equal(a, b));
        }
    }
}
