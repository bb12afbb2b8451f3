use mscorlib_safe::bstring::{BStr, BString};

#[test]
fn hello_round_trip() {
    // Encode to the foreign buffer representation and decode back.
    let bs = BString::from_str("hello");
    assert_eq!(bs.len(), 5);
    let sys = bs.as_sys();
    assert_eq!(sys.sys_len(), 5);
    let back = BString::from_ptr_safe(&sys);
    assert_eq!(back.to_string(), "hello");
}

#[test]
fn empty_string_never_reads() {
    // The empty string's decode path reports zero length and reads no
    // unit from the buffer.
    let bs = BString::new();
    assert_eq!(bs.len(), 0);
    let sys = bs.as_sys();
    assert_eq!(sys.sys_len(), 0);
    let back = BString::from_ptr_safe(&sys);
    assert_eq!(back.len(), 0);
    assert_eq!(back.to_string(), "");
}

#[test]
fn from_ptr_respects_claimed_length() {
    let sys = BStr::from_units(vec![0x68, 0x65, 0x6C, 0x6C, 0x6F]);
    let partial = BString::from_ptr(&sys, 4);
    assert_eq!(partial.to_string(), "hell");
    let none = BString::from_ptr(&sys, 0);
    assert_eq!(none.len(), 0);
}

#[test]
fn non_ascii_units_round_trip() {
    let bs = BString::from_str("h\u{20AC}llo");
    let units = bs.into_vec();
    assert_eq!(units, vec![0x68, 0x20AC, 0x6C, 0x6C, 0x6F]);
    let again = BString::from_vec(units);
    assert_eq!(again.to_string(), "h\u{20AC}llo");
}

#[test]
fn unpaired_surrogate_is_replaced() {
    let bs = BString::from_vec(vec![0xD800]);
    assert_eq!(bs.to_string(), "\u{FFFD}");
}
