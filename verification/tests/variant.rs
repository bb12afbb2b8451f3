use mscorlib_safe::decimal::{Decimal96, build_c_decimal, build_rust_decimal};
use mscorlib_safe::new_safearray::RSafeArray;
use mscorlib_safe::new_variant::{
    CVariant, Currency, Date, Int, SCode, UInt, Variant, WirePayload, VT_PSHORT,
};
use mscorlib_safe::primitives::{VT_BOOL, VT_BSTR, VT_DECIMAL, VT_I2, VT_I8};
use mscorlib_safe::result::{ClrError, SourceLocation};
use mscorlib_safe::variant::{WrappedDispatch, WrappedUnknown};
use rust_decimal::Decimal;

fn round_trips(v: Variant) {
    let w = v.into_c_variant();
    let back = Variant::from_c_variant(&w).unwrap();
    assert_eq!(back, v);
}

#[test]
fn scalar_round_trip_every_tag() {
    round_trips(Variant::LongLong(-7_000_000_000));
    round_trips(Variant::Long(-70000));
    round_trips(Variant::Byte(200));
    round_trips(Variant::Short(-300));
    round_trips(Variant::Float(1.5f32.to_bits()));
    round_trips(Variant::Double(2.25f64.to_bits()));
    round_trips(Variant::Bool(true));
    round_trips(Variant::Bool(false));
    round_trips(Variant::ErrorCode(SCode(-2147467259)));
    round_trips(Variant::Currency(Currency(123456)));
    round_trips(Variant::Date(Date(44000.5f64.to_bits())));
    round_trips(Variant::Unknown(WrappedUnknown::new(0xdead)));
    round_trips(Variant::Dispatch(WrappedDispatch::new(0xbeef)));
    round_trips(Variant::PByte(Box::new(9)));
    round_trips(Variant::PShort(Box::new(-9)));
    round_trips(Variant::PLong(Box::new(-99)));
    round_trips(Variant::PLongLong(Box::new(-999)));
    round_trips(Variant::PFloat(Box::new(3.5f32.to_bits())));
    round_trips(Variant::PDouble(Box::new(4.5f64.to_bits())));
    round_trips(Variant::PBool(Box::new(true)));
    round_trips(Variant::PErrorCode(Box::new(SCode(5))));
    round_trips(Variant::PCurrency(Box::new(Currency(-1))));
    round_trips(Variant::PDate(Box::new(Date(1))));
    round_trips(Variant::PUnknown(Box::new(WrappedUnknown::new(1))));
    round_trips(Variant::PDispatch(Box::new(WrappedDispatch::new(2))));
    round_trips(Variant::ByRef(0x1000));
    round_trips(Variant::Char(-5));
    round_trips(Variant::UShort(65535));
    round_trips(Variant::ULong(4000000000));
    round_trips(Variant::ULongLong(18000000000000000000));
    round_trips(Variant::Int(Int(-1)));
    round_trips(Variant::UInt(UInt(1)));
    round_trips(Variant::PDecimal(Box::new(Decimal96 {
        reserved: 0,
        scale: 2,
        sign: 0,
        hi32: 0,
        lo64: 123,
    })));
    round_trips(Variant::PChar(Box::new(7)));
    round_trips(Variant::PUShort(Box::new(8)));
    round_trips(Variant::PULong(Box::new(9)));
    round_trips(Variant::PULongLong(Box::new(10)));
    round_trips(Variant::PInt(Box::new(Int(11))));
    round_trips(Variant::PUInt(Box::new(UInt(12))));
    round_trips(Variant::Decimal(Decimal96 {
        reserved: 0,
        scale: 28,
        sign: 0x80,
        hi32: 1,
        lo64: 2,
    }));
    round_trips(Variant::Empty);
    round_trips(Variant::Null);
}

#[test]
fn string_round_trip() {
    round_trips(Variant::BString(String::from("hello")));
    round_trips(Variant::PBString(Box::new(String::from("wide \u{20AC} text"))));
}

#[test]
fn nested_round_trip() {
    round_trips(Variant::PVariant(Box::new(Variant::Short(3))));
    round_trips(Variant::Array(RSafeArray::Longs(vec![1, 2, 3])));
    round_trips(Variant::PArray(Box::new(RSafeArray::Bools(vec![true, false]))));
    round_trips(Variant::Array(RSafeArray::Variants(vec![
        Variant::Bool(true),
        Variant::LongLong(-1),
        Variant::BString(String::from("x")),
    ])));
}

#[test]
fn bool_sentinel_encoding() {
    // True must encode to the all-ones sentinel, not 1; false to all-zero.
    let wt = Variant::Bool(true).into_c_variant();
    assert_eq!(wt.vt, VT_BOOL);
    assert_eq!(wt.payload, WirePayload::BoolVal(-1));
    let wf = Variant::Bool(false).into_c_variant();
    assert_eq!(wf.payload, WirePayload::BoolVal(0));
}

#[test]
fn bool_sentinel_decoding() {
    // Only the all-ones sentinel decodes to true; any other word is false.
    for (raw, expected) in [(-1i16, true), (0i16, false), (1i16, false), (0x55i16, false)] {
        let w = CVariant {
            vt: VT_BOOL,
            reserved1: 0,
            reserved2: 0,
            reserved3: 0,
            payload: WirePayload::BoolVal(raw),
        };
        assert_eq!(Variant::from_c_variant(&w).unwrap(), Variant::Bool(expected));
    }
}

#[test]
fn vartype_table_values() {
    assert_eq!(Variant::Short(0).vartype(), VT_I2);
    assert_eq!(Variant::LongLong(0).vartype(), VT_I8);
    assert_eq!(Variant::Bool(false).vartype(), VT_BOOL);
    assert_eq!(Variant::BString(String::new()).vartype(), VT_BSTR);
    assert_eq!(
        Variant::Decimal(Decimal96 { reserved: 0, scale: 0, sign: 0, hi32: 0, lo64: 0 }).vartype(),
        VT_DECIMAL
    );
    assert_eq!(Variant::PShort(Box::new(0)).vartype(), VT_PSHORT);
}

#[test]
fn unknown_vartype_is_refused() {
    let w = CVariant {
        vt: 999,
        reserved1: 0,
        reserved2: 0,
        reserved3: 0,
        payload: WirePayload::Nothing,
    };
    assert_eq!(
        Variant::from_c_variant(&w),
        Err(ClrError::UnsupportedVartype { vt: 999 })
    );
}

#[test]
fn mismatched_payload_is_refused() {
    let w = CVariant {
        vt: VT_I8,
        reserved1: 0,
        reserved2: 0,
        reserved3: 0,
        payload: WirePayload::LVal(5),
    };
    assert_eq!(
        Variant::from_c_variant(&w),
        Err(ClrError::Conversion { source: SourceLocation::VariantDecode })
    );
}

#[test]
fn nested_decimal_array_scenario() {
    // A tagged value holding a nested array of three decimals with scale
    // two survives the round trip with sign, scale and magnitude intact.
    let sources = [Decimal::new(123, 2), Decimal::new(456, 2), Decimal::new(789, 2)];
    let wires: Vec<Decimal96> = sources.iter().map(|d| build_c_decimal(*d)).collect();
    let v = Variant::Array(RSafeArray::Decimals(wires.clone()));
    let encoded = v.into_c_variant();
    let decoded = Variant::from_c_variant(&encoded).unwrap();
    match decoded {
        Variant::Array(RSafeArray::Decimals(ds)) => {
            assert_eq!(ds.len(), 3);
            for (i, d96) in ds.iter().enumerate() {
                assert_eq!(*d96, wires[i]);
                assert_eq!(d96.scale, 2);
                assert_eq!(d96.sign, 0);
                assert_eq!(build_rust_decimal(*d96), sources[i]);
            }
        },
        _ => panic!("Incorrect type"),
    }
}
