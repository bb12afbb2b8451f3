use mscorlib_safe::new_safearray::RSafeArray;
use mscorlib_safe::new_variant::{Int, UInt, Variant};
use mscorlib_safe::new_variant::WirePayload;
use mscorlib_safe::primitives::VT_I2;
use mscorlib_safe::safearray::{SafeArrayBound, SafeArrayHost};
use mscorlib_safe::variant::WrappedDispatch;

#[test]
fn from_rust_safearray_to_low_level() {
    let mut v: Vec<i16> = Vec::new();
    for ix in 0i16..100i16 {
        v.push(ix)
    }
    let rsa = RSafeArray::Shorts(v);
    let ovt = rsa.vartype();
    let mut host = SafeArrayHost::new();
    let psa = rsa.into_safe_array(&mut host).unwrap();

    let vt = host.get_vartype(psa);
    assert!(vt.is_ok());
    assert_eq!(ovt, vt.unwrap());

    let val = host.get_element(psa, 10);
    assert!(val.is_ok());
    match val.unwrap() {
        WirePayload::IVal(x) => assert_eq!(x, 10),
        _ => panic!("Incorrect type"),
    }

    host.destroy(psa);
}

#[test]
fn from_low_level_to_rust_safearray() {
    let mut host = SafeArrayHost::new();
    let psa = host.create(VT_I2, vec![SafeArrayBound { c_elements: 10, l_lbound: 0 }]);
    for ix in 0..10i16 {
        let hr = host.put_element(psa, ix as i32, WirePayload::IVal(ix));
        assert_eq!(hr, 0);
    }

    let rsa = RSafeArray::from_safe_array(&mut host, psa).unwrap();
    assert_eq!(rsa.len(), 10);
    assert_eq!(rsa.vartype(), VT_I2);
    if let RSafeArray::Shorts(array) = rsa {
        assert_eq!(array[3], 3)
    } else {
        panic!("Incorrect type")
    };
}

#[test]
fn test_i32() {
    let mut vc = Vec::new();
    for ix in 0..100i32 {
        vc.push(ix);
    }
    let rsa: RSafeArray = RSafeArray::from(vc);
    if let RSafeArray::Longs(array) = rsa {
        assert_eq!(array[50], 50);
    } else {
        panic!("Incorrect type");
    }
}

#[test]
fn test_f32() {
    let mut vc = Vec::new();
    let mut val = 0.0f32;
    for _ix in 0..100 {
        vc.push(val.to_bits());
        val += 1.0f32;
    }
    let rsa = RSafeArray::Floats(vc);
    if let RSafeArray::Floats(array) = rsa {
        assert_eq!(f32::from_bits(array[50]), 50.0);
    } else {
        panic!("Incorrect type");
    }
}

#[test]
fn test_f64() {
    let mut vc = Vec::new();
    let mut val = 0.0f64;
    for _ix in 0..100 {
        vc.push(val.to_bits());
        val += 1.0f64;
    }
    let rsa = RSafeArray::Doubles(vc);
    if let RSafeArray::Doubles(array) = rsa {
        assert_eq!(f64::from_bits(array[50]), 50.0);
    } else {
        panic!("Incorrect type");
    }
}

#[test]
fn test_str() {
    let mut vc = Vec::new();
    let mut val = 0.0f64;
    for _ix in 0..100 {
        vc.push(val.to_string());
        val += 1.0f64;
    }
    let rsa: RSafeArray = RSafeArray::from(vc);
    if let RSafeArray::BStrings(array) = rsa {
        assert_eq!(array[50], "50");
    } else {
        panic!("Incorrect type");
    }
}

#[test]
fn test_idispatch() {
    let mut vc = Vec::new();
    for _ix in 0..100 {
        vc.push(WrappedDispatch::new(0));
    }
    let rsa: RSafeArray = RSafeArray::from(vc);
    if let RSafeArray::Dispatchs(array) = rsa {
        assert!(array[50].is_null());
    } else {
        panic!("Incorrect type");
    }
}

#[test]
fn test_bool() {
    let mut vc = Vec::new();
    for ix in 0..100 {
        vc.push(ix % 2 == 0);
    }
    let rsa: RSafeArray = RSafeArray::from(vc);
    if let RSafeArray::Bools(array) = rsa {
        assert_eq!(array[50], true);
    } else {
        panic!("Incorrect type");
    }
}

#[test]
fn test_variant() {
    let mut vc = Vec::new();
    for ix in 0..100 {
        let vt = Variant::from(ix % 2 == 0);
        vc.push(vt);
    }
    let rsa: RSafeArray = RSafeArray::from(vc);
    if let RSafeArray::Variants(array) = rsa {
        assert_eq!(array[50], Variant::Bool(true));
    } else {
        panic!("Incorrect type");
    }
}

#[test]
fn test_i8() {
    let mut vc = Vec::new();
    for ix in 0..100i8 {
        vc.push(ix);
    }
    let rsa: RSafeArray = RSafeArray::from(vc);
    if let RSafeArray::Chars(array) = rsa {
        assert_eq!(array[50], 50i8);
    } else {
        panic!("Incorrect type");
    }
}

#[test]
fn test_u8() {
    let mut vc = Vec::new();
    for ix in 0..100u8 {
        vc.push(ix);
    }
    let rsa: RSafeArray = RSafeArray::from(vc);
    if let RSafeArray::UChars(array) = rsa {
        assert_eq!(array[50], 50u8);
    } else {
        panic!("Incorrect type");
    }
}

#[test]
fn test_u16() {
    let mut vc = Vec::new();
    for ix in 0..100u16 {
        vc.push(ix);
    }
    let rsa: RSafeArray = RSafeArray::from(vc);
    if let RSafeArray::UShorts(array) = rsa {
        assert_eq!(array[50], 50u16);
    } else {
        panic!("Incorrect type");
    }
}

#[test]
fn test_u32() {
    let mut vc = Vec::new();
    for ix in 0..100u32 {
        vc.push(ix);
    }
    let rsa: RSafeArray = RSafeArray::from(vc);
    if let RSafeArray::ULongs(array) = rsa {
        assert_eq!(array[50], 50u32);
    } else {
        panic!("Incorrect type");
    }
}

#[test]
fn test_int() {
    let mut vc = Vec::new();
    let val = 1i32 << 30;
    for ix in val..(val + 100) {
        vc.push(Int(ix));
    }
    let rsa: RSafeArray = RSafeArray::from(vc);
    if let RSafeArray::Ints(array) = rsa {
        assert_eq!(array[50], Int(1073741874i32));
    } else {
        panic!("Incorrect type");
    }
}

#[test]
fn test_uint() {
    let mut vc = Vec::new();
    let val = 1u32 << 30;
    for ix in val..(val + 100) {
        vc.push(UInt(ix));
    }
    let rsa: RSafeArray = RSafeArray::from(vc);
    if let RSafeArray::UInts(array) = rsa {
        assert_eq!(array[50], UInt(1073741874u32));
    } else {
        panic!("Incorrect type");
    }
}
