use mscorlib_safe::decimal::{Decimal96, build_c_decimal, build_rust_decimal, DECIMAL_NEG};
use rust_decimal::Decimal;

#[test]
fn c_decimal() {
    let d = Decimal::new(0xFFFFFFFFFFFF, 0);
    let d = d * Decimal::new(0xFFFFFFFF, 0);
    assert_eq!(d.is_sign_positive(), true);
    assert_eq!(format!("{}", d), "1208925819333149903028225");

    let c = build_c_decimal(d);
    println!("({}, {}, {}, {})", c.hi32, c.lo64, c.scale, c.sign);
    println!("{:?}", d.serialize());
    assert_eq!(c.hi32, 65535);
    assert_eq!(c.lo64, 18446462594437873665);
    assert_eq!(c.scale, 0);
    assert_eq!(c.sign, 0);
}

#[test]
fn rust_decimal_from() {
    let d = Decimal96 { reserved: 0, scale: 0, sign: 0, hi32: 65535, lo64: 18446462594437873665 };
    let new_d = build_rust_decimal(d);
    println!("{:?}", new_d.serialize());
    assert_eq!(format!("{}", new_d), "1208925819333149903028225");
}

#[test]
fn decimal_exactness_all_scales() {
    // Representative magnitudes spanning the 96-bit range, including the
    // maximum, at every scale, both signs: from_wire(to_wire(d)) == d.
    let magnitudes: [(u32, u32, u32); 5] = [
        (1, 0, 0),
        (0xFFFF_FFFF, 0, 0),
        (0, 0xFFFF_FFFF, 0),
        (0x1234_5678, 0x9ABC_DEF0, 0x0FED_CBA9),
        (0xFFFF_FFFF, 0xFFFF_FFFF, 0xFFFF_FFFF),
    ];
    for scale in 0u32..=28u32 {
        for (lo, mid, hi) in magnitudes.iter().copied() {
            for negative in [false, true] {
                let d = Decimal::from_parts(lo, mid, hi, negative, scale);
                let w = build_c_decimal(d);
                assert_eq!(w.scale as u32, scale);
                assert_eq!(w.sign == DECIMAL_NEG, negative);
                let back = build_rust_decimal(w);
                assert_eq!(back, d);
                assert_eq!(back.serialize(), d.serialize());
            }
        }
    }
}

#[test]
fn decimal_wire_round_trip_concrete() {
    let w = Decimal96 {
        reserved: 0,
        scale: 17,
        sign: DECIMAL_NEG,
        hi32: 0xDEAD_BEEF,
        lo64: 0x0123_4567_89AB_CDEF,
    };
    let back = build_c_decimal(build_rust_decimal(w));
    assert_eq!(back, w);
}
