use mscorlib_safe::new_safearray::RSafeArray;
use mscorlib_safe::new_variant::WirePayload;
use mscorlib_safe::primitives::{Primitive, Primitives, VT_I2, VT_I4};
use mscorlib_safe::result::{
    ClrError, CommonHresultValues, Hresult, SourceLocation, DISP_E_BADINDEX, E_FAIL, E_INVALID_ARG,
};
use mscorlib_safe::safearray::{SafeArrayBound, SafeArrayHost};
use mscorlib_safe::struct_wrappers::{CInterfaceMapping, InterfaceMapping};
use mscorlib_safe::variant::WrappedUnknown;

#[test]
fn hundred_shorts_scenario() {
    // Encode [0, 1, ..., 99] as signed 16-bit, check the reported count
    // and wire tag, decode back, and check the element at index 10.
    let mut v: Vec<i16> = Vec::new();
    for ix in 0i16..100i16 {
        v.push(ix);
    }
    let mut host = SafeArrayHost::new();
    let psa = RSafeArray::Shorts(v).into_safe_array(&mut host).unwrap();

    assert_eq!(host.get_vartype(psa), Ok(VT_I2));
    assert_eq!(host.get_dim(psa), 1);
    let lower = host.get_lbound(psa, 1).unwrap();
    let upper = host.get_ubound(psa, 1).unwrap();
    assert_eq!(upper - lower, 100);

    let back = RSafeArray::from_safe_array(&mut host, psa).unwrap();
    match back {
        RSafeArray::Shorts(es) => {
            assert_eq!(es.len(), 100);
            assert_eq!(es[10], 10);
        },
        _ => panic!("Incorrect type"),
    }
}

#[test]
fn bounds_non_zero() {
    // An array whose lower bound is 5 decodes to the right count and
    // values, indexed relative to that bound, never assumed zero-based.
    let mut host = SafeArrayHost::new();
    let psa = host.create(VT_I4, vec![SafeArrayBound { c_elements: 10, l_lbound: 5 }]);
    assert_ne!(psa, 0);
    assert_eq!(host.get_lbound(psa, 1), Ok(5));
    assert_eq!(host.get_ubound(psa, 1), Ok(15));
    for ix in 5..15i32 {
        let hr = host.put_element(psa, ix, WirePayload::LVal(ix * 100));
        assert_eq!(hr, 0);
    }
    let back = RSafeArray::from_safe_array(&mut host, psa).unwrap();
    match back {
        RSafeArray::Longs(es) => {
            assert_eq!(es.len(), 10);
            assert_eq!(es[0], 500);
            assert_eq!(es[9], 1400);
        },
        _ => panic!("Incorrect type"),
    }
}

#[test]
fn multi_dimension_rejection() {
    // A two-dimensional array is refused with the designated error, and
    // the source array is still destroyed.
    let mut host = SafeArrayHost::new();
    let psa = host.create(
        VT_I4,
        vec![
            SafeArrayBound { c_elements: 2, l_lbound: 0 },
            SafeArrayBound { c_elements: 3, l_lbound: 0 },
        ],
    );
    assert_ne!(psa, 0);
    assert_eq!(host.destroyed(), 0);
    let r = RSafeArray::from_safe_array(&mut host, psa);
    assert_eq!(r, Err(ClrError::UnsupportedDimensions { dims: 2 }));
    assert_eq!(host.destroyed(), 1);
}

#[test]
fn cleanup_on_failed_element_read() {
    // A decode that loses an element read partway still destroys the
    // source array exactly once.
    let mut v: Vec<i16> = Vec::new();
    for ix in 0i16..5i16 {
        v.push(ix);
    }
    let mut host = SafeArrayHost::new();
    let psa = RSafeArray::Shorts(v).into_safe_array(&mut host).unwrap();
    assert_eq!(host.created(), 1);
    assert_eq!(host.destroyed(), 0);

    host.inject_get_fault(2);
    let r = RSafeArray::from_safe_array(&mut host, psa);
    assert_eq!(
        r,
        Err(ClrError::InnerCall { hr: E_FAIL, source: SourceLocation::SafeArrayGetElement })
    );
    assert_eq!(host.created(), 1);
    assert_eq!(host.destroyed(), 1);
}

#[test]
fn empty_and_single_round_trip() {
    // The edge sizes: an empty array must not crash bound iteration, and
    // a one-element array survives unchanged.
    let mut host = SafeArrayHost::new();

    let psa = RSafeArray::ULongs(Vec::new()).into_safe_array(&mut host).unwrap();
    let back = RSafeArray::from_safe_array(&mut host, psa).unwrap();
    assert_eq!(back, RSafeArray::ULongs(Vec::new()));

    let psa = RSafeArray::UChars(vec![42]).into_safe_array(&mut host).unwrap();
    let back = RSafeArray::from_safe_array(&mut host, psa).unwrap();
    assert_eq!(back, RSafeArray::UChars(vec![42]));
}

#[test]
fn host_status_codes() {
    let mut host = SafeArrayHost::new();
    assert_eq!(host.destroy(7), E_INVALID_ARG);

    let psa = host.create(VT_I2, vec![SafeArrayBound { c_elements: 2, l_lbound: 0 }]);
    assert_ne!(psa, 0);
    assert_eq!(host.put_element(psa, 5, WirePayload::IVal(1)), DISP_E_BADINDEX);
    assert_eq!(host.put_element(psa, 0, WirePayload::LVal(1)), E_INVALID_ARG);
    match host.get_element(psa, 9) {
        Err(hr) => assert_eq!(hr, DISP_E_BADINDEX),
        Ok(_) => panic!("Incorrect type"),
    }
    assert_eq!(host.destroy(psa), 0);
    assert_eq!(host.destroy(psa), E_INVALID_ARG);
}

#[test]
fn hresult_classification() {
    let cases: Vec<(i32, CommonHresultValues)> = vec![
        (0, CommonHresultValues::SOk),
        (0x80004004u32 as i32, CommonHresultValues::EAbort),
        (0x80070005u32 as i32, CommonHresultValues::EAccessDenied),
        (E_FAIL, CommonHresultValues::EFail),
        (0x80070006u32 as i32, CommonHresultValues::EHandle),
        (E_INVALID_ARG, CommonHresultValues::EInvalidArg),
        (0x80004002u32 as i32, CommonHresultValues::ENoInterface),
        (0x80004001u32 as i32, CommonHresultValues::ENotImpl),
        (0x8007000Eu32 as i32, CommonHresultValues::EOutOfMemory),
        (0x80004003u32 as i32, CommonHresultValues::EPointer),
        (0x8000FFFFu32 as i32, CommonHresultValues::EUnexpected),
        (12345, CommonHresultValues::EUnknownValue),
    ];
    for (code, expected) in cases {
        assert_eq!(CommonHresultValues::from(Hresult(code)), expected);
    }
}

#[test]
fn primitive_tags() {
    assert_eq!(u16::from(Primitives::I16), 2);
    assert_eq!(u16::from(Primitives::Bool), 11);
    assert_eq!(u16::from(Primitives::Decimal), 14);
    assert_eq!(u16::from(Primitives::ByRef), 0x4000);
    assert_eq!(7i64.prim_type(), Primitives::I64);
    assert_eq!(*7u32.get(), 7u32);
}

#[test]
fn interface_mapping_composes() {
    let mut host = SafeArrayHost::new();
    let tm = RSafeArray::Unknowns(vec![WrappedUnknown::new(11), WrappedUnknown::new(12)])
        .into_safe_array(&mut host)
        .unwrap();
    let im = RSafeArray::Unknowns(vec![WrappedUnknown::new(21)])
        .into_safe_array(&mut host)
        .unwrap();
    let cim = CInterfaceMapping {
        target_type: 0x100,
        interface_type: 0x200,
        target_methods: tm,
        interface_methods: im,
    };
    let m = InterfaceMapping::from_c_interface_mapping(&mut host, &cim).unwrap();
    assert_eq!(m.target.ptr, 0x100);
    assert_eq!(m.interface.ptr, 0x200);
    assert_eq!(
        m.target_methods,
        RSafeArray::Unknowns(vec![WrappedUnknown::new(11), WrappedUnknown::new(12)])
    );
    assert_eq!(m.interface_methods, RSafeArray::Unknowns(vec![WrappedUnknown::new(21)]));
    assert_eq!(host.destroyed(), 2);
}

#[test]
fn every_element_kind_round_trips() {
    // One small array per supported element kind, out to a foreign
    // handle and back, element for element.
    let d96 = mscorlib_safe::decimal::Decimal96 {
        reserved: 0,
        scale: 3,
        sign: 0x80,
        hi32: 7,
        lo64: 900,
    };
    let cases: Vec<RSafeArray> = vec![
        RSafeArray::Shorts(vec![-1, 0, 1]),
        RSafeArray::Longs(vec![-100, 0, 100]),
        RSafeArray::Floats(vec![1.5f32.to_bits(), 0, 2.5f32.to_bits()]),
        RSafeArray::Doubles(vec![1.25f64.to_bits(), 0, 3.5f64.to_bits()]),
        RSafeArray::Currencies(vec![
            mscorlib_safe::new_variant::Currency(-5),
            mscorlib_safe::new_variant::Currency(0),
            mscorlib_safe::new_variant::Currency(5),
        ]),
        RSafeArray::Dates(vec![
            mscorlib_safe::new_variant::Date(1.0f64.to_bits()),
            mscorlib_safe::new_variant::Date(0),
            mscorlib_safe::new_variant::Date(2.0f64.to_bits()),
        ]),
        RSafeArray::BStrings(vec!["a".to_string(), "".to_string(), "cde".to_string()]),
        RSafeArray::Dispatchs(vec![
            mscorlib_safe::variant::WrappedDispatch::new(1),
            mscorlib_safe::variant::WrappedDispatch::new(0),
            mscorlib_safe::variant::WrappedDispatch::new(3),
        ]),
        RSafeArray::Bools(vec![true, false, true]),
        RSafeArray::Variants(vec![
            mscorlib_safe::new_variant::Variant::Short(7),
            mscorlib_safe::new_variant::Variant::Bool(true),
            mscorlib_safe::new_variant::Variant::Empty,
        ]),
        RSafeArray::Unknowns(vec![
            WrappedUnknown::new(4),
            WrappedUnknown::new(5),
            WrappedUnknown::new(6),
        ]),
        RSafeArray::Decimals(vec![d96, d96, d96]),
        RSafeArray::Chars(vec![-1, 0, 1]),
        RSafeArray::UChars(vec![0, 128, 255]),
        RSafeArray::UShorts(vec![0, 1, 65535]),
        RSafeArray::ULongs(vec![0, 1, 4294967295]),
        RSafeArray::Ints(vec![
            mscorlib_safe::new_variant::Int(-2),
            mscorlib_safe::new_variant::Int(0),
            mscorlib_safe::new_variant::Int(2),
        ]),
        RSafeArray::UInts(vec![
            mscorlib_safe::new_variant::UInt(0),
            mscorlib_safe::new_variant::UInt(1),
            mscorlib_safe::new_variant::UInt(2),
        ]),
    ];
    let mut host = SafeArrayHost::new();
    for case in &cases {
        let psa = case.into_safe_array(&mut host).unwrap();
        let back = RSafeArray::from_safe_array(&mut host, psa).unwrap();
        assert_eq!(&back, case);
    }
    assert_eq!(host.created(), 18);
    assert_eq!(host.destroyed(), 18);
}
