//! The tagged variant: a closed sum over every wire shape the foreign
//! tagged union can carry, and its bidirectional codec against the raw
//! tagged-union record.
//!
//! The mapping between the 16-bit wire tag and the active payload arm is
//! the single source of truth of this layer: encoding determines the tag
//! from the arm, decoding dispatches on the tag and demands the matching
//! payload arm. Both directions are total over the supported tag set, and
//! decoding answers every unsupported or inconsistent wire value with a
//! typed error, never with a guess.
//!
//! Floating-point wire shapes are carried as their IEEE 754 bit patterns,
//! so that the codec stays bit-exact.

use vstd::prelude::*;
use crate::bstring::{BStr, BString, utf16_lossy_of, utf16_units_of};
use crate::decimal::Decimal96;
use crate::new_safearray::{RSafeArray, RSafeArrayView, array_wire_exact, lemma_array_round_trip,
    spec_array_len, spec_array_of, spec_wire_array, vw_array};
use crate::primitives::{VT_ARRAY, VT_BOOL, VT_BSTR, VT_BYREF, VT_CY, VT_DATE, VT_DECIMAL,
    VT_DISPATCH, VT_EMPTY, VT_ERROR, VT_I1, VT_I2, VT_I4, VT_I8, VT_INT, VT_NULL, VT_R4, VT_R8,
    VT_UI1, VT_UI2, VT_UI4, VT_UI8, VT_UINT, VT_UNKNOWN, VT_VARIANT, VARIANT_FALSE, VARIANT_TRUE};
use crate::result::{ClrError, SourceLocation};
use crate::safearray::{CSafeArrayData, CSafeArrayDataView, vw_cdata};
use crate::variant::{WrappedDispatch, WrappedUnknown};

verus! {

/// Wire tag: pointer to unsigned 8-bit integer (the by-reference
/// modifier combined with the pointee's tag, and so for each pointer
/// tag below).
pub const VT_PBYTE: u16 = 0x4011;
/// Wire tag: pointer to signed 16-bit integer.
pub const VT_PSHORT: u16 = 0x4002;
/// Wire tag: pointer to signed 32-bit integer.
pub const VT_PLONG: u16 = 0x4003;
/// Wire tag: pointer to signed 64-bit integer.
pub const VT_PLONGLONG: u16 = 0x4014;
/// Wire tag: pointer to 32-bit floating point.
pub const VT_PFLOAT: u16 = 0x4004;
/// Wire tag: pointer to 64-bit floating point.
pub const VT_PDOUBLE: u16 = 0x4005;
/// Wire tag: pointer to wire boolean.
pub const VT_PBOOL: u16 = 0x400B;
/// Wire tag: pointer to error code.
pub const VT_PERROR: u16 = 0x400A;
/// Wire tag: pointer to currency.
pub const VT_PCY: u16 = 0x4006;
/// Wire tag: pointer to date.
pub const VT_PDATE: u16 = 0x4007;
/// Wire tag: pointer to string buffer.
pub const VT_PBSTR: u16 = 0x4008;
/// Wire tag: pointer to base interface pointer.
pub const VT_PUNKNOWN: u16 = 0x400D;
/// Wire tag: pointer to dispatch-capable interface pointer.
pub const VT_PDISPATCH: u16 = 0x4009;
/// Wire tag: pointer to safe array.
pub const VT_PARRAY: u16 = 0x6000;
/// Wire tag: pointer to a nested tagged value.
pub const VT_PVARIANT: u16 = 0x400C;
/// Wire tag: pointer to the decimal wire struct.
pub const VT_PDECIMAL: u16 = 0x400E;
/// Wire tag: pointer to signed 8-bit integer.
pub const VT_PCHAR: u16 = 0x4010;
/// Wire tag: pointer to unsigned 16-bit integer.
pub const VT_PUSHORT: u16 = 0x4012;
/// Wire tag: pointer to unsigned 32-bit integer.
pub const VT_PULONG: u16 = 0x4013;
/// Wire tag: pointer to unsigned 64-bit integer.
pub const VT_PULONGLONG: u16 = 0x4015;
/// Wire tag: pointer to platform signed integer.
pub const VT_PINT: u16 = 0x4016;
/// Wire tag: pointer to platform unsigned integer.
pub const VT_PUINT: u16 = 0x4017;

/// Currency: a 64-bit fixed-point value, in ten-thousandths.
#[derive(Debug, Clone, Copy, PartialEq, Eq, Structural)]
pub struct Currency(pub i64);

/// An error code carried as a value.
#[derive(Debug, Clone, Copy, PartialEq, Eq, Structural)]
pub struct SCode(pub i32);

/// The platform signed integer wire kind, distinct from the fixed 32-bit
/// kind though equal in width.
#[derive(Debug, Clone, Copy, PartialEq, Eq, Structural)]
pub struct Int(pub i32);

/// The platform unsigned integer wire kind, distinct from the fixed
/// 32-bit kind though equal in width.
#[derive(Debug, Clone, Copy, PartialEq, Eq, Structural)]
pub struct UInt(pub u32);

/// A date: the IEEE 754 bit pattern of the foreign floating-point
/// epoch-day value, carried bit-exactly.
#[derive(Debug, Clone, Copy, PartialEq, Eq, Structural)]
pub struct Date(pub u64);


impl DeepView for Currency {
    type V = Currency;

    open spec fn deep_view(&self) -> Currency {
        *self
    }
}

impl DeepView for SCode {
    type V = SCode;

    open spec fn deep_view(&self) -> SCode {
        *self
    }
}

impl DeepView for Int {
    type V = Int;

    open spec fn deep_view(&self) -> Int {
        *self
    }
}

impl DeepView for UInt {
    type V = UInt;

    open spec fn deep_view(&self) -> UInt {
        *self
    }
}

impl DeepView for Date {
    type V = Date;

    open spec fn deep_view(&self) -> Date {
        *self
    }
}

/// The tagged variant: one arm for every supported wire shape. A `P`-named
/// arm is the by-reference form of its kind and owns the cell the foreign
/// pointer pointed at, copied and boxed, uniformly for every arm.
/// `Float`, `Double`, `PFloat` and `PDouble` hold IEEE 754 bit patterns.
#[derive(Debug, PartialEq)]
pub enum Variant {
    LongLong(i64),
    Long(i32),
    Byte(u8),
    Short(i16),
    Float(u32),
    Double(u64),
    Bool(bool),
    ErrorCode(SCode),
    Currency(Currency),
    Date(Date),
    BString(String),
    Unknown(WrappedUnknown),
    Dispatch(WrappedDispatch),
    Array(RSafeArray),
    PByte(Box<u8>),
    PShort(Box<i16>),
    PLong(Box<i32>),
    PLongLong(Box<i64>),
    PFloat(Box<u32>),
    PDouble(Box<u64>),
    PBool(Box<bool>),
    PErrorCode(Box<SCode>),
    PCurrency(Box<Currency>),
    PDate(Box<Date>),
    PBString(Box<String>),
    PUnknown(Box<WrappedUnknown>),
    PDispatch(Box<WrappedDispatch>),
    PArray(Box<RSafeArray>),
    PVariant(Box<Variant>),
    ByRef(usize),
    Char(i8),
    UShort(u16),
    ULong(u32),
    ULongLong(u64),
    Int(Int),
    UInt(UInt),
    PDecimal(Box<Decimal96>),
    PChar(Box<i8>),
    PUShort(Box<u16>),
    PULong(Box<u32>),
    PULongLong(Box<u64>),
    PInt(Box<Int>),
    PUInt(Box<UInt>),
    Decimal(Decimal96),
    Empty,
    Null,
}

/// The active member of the raw tagged union's payload. Each arm is named
/// after the union accessor the tag selects. A by-reference tag's payload
/// owns the foreign cell the pointer referred to, so it reuses the arm of
/// the pointed-at kind.
#[derive(Debug, PartialEq)]
pub enum WirePayload {
    LlVal(i64),
    LVal(i32),
    BVal(u8),
    IVal(i16),
    FltVal(u32),
    DblVal(u64),
    BoolVal(i16),
    Scode(i32),
    CyVal(i64),
    DateVal(u64),
    BstrVal(BStr),
    PunkVal(usize),
    PdispVal(usize),
    Parray(CSafeArrayData),
    PvarVal(Box<CVariant>),
    Byref(usize),
    CVal(i8),
    UiVal(u16),
    UlVal(u32),
    UllVal(u64),
    IntVal(i32),
    UintVal(u32),
    DecVal(Decimal96),
    Nothing,
}

/// The raw tagged union record: a 16-bit tag, three reserved words, and
/// the payload member the tag selects.
#[derive(Debug, PartialEq)]
pub struct CVariant {
    pub vt: u16,
    pub reserved1: u16,
    pub reserved2: u16,
    pub reserved3: u16,
    pub payload: WirePayload,
}


/// The mathematical shadow of [`Variant`]: strings as their code points,
/// vectors as sequences, owned boxes of scalars as the scalar itself.
pub enum VariantView {
    LongLong(i64),
    Long(i32),
    Byte(u8),
    Short(i16),
    Float(u32),
    Double(u64),
    Bool(bool),
    ErrorCode(SCode),
    Currency(Currency),
    Date(Date),
    BString(Seq<char>),
    Unknown(WrappedUnknown),
    Dispatch(WrappedDispatch),
    Array(RSafeArrayView),
    PByte(u8),
    PShort(i16),
    PLong(i32),
    PLongLong(i64),
    PFloat(u32),
    PDouble(u64),
    PBool(bool),
    PErrorCode(SCode),
    PCurrency(Currency),
    PDate(Date),
    PBString(Seq<char>),
    PUnknown(WrappedUnknown),
    PDispatch(WrappedDispatch),
    PArray(RSafeArrayView),
    PVariant(Box<VariantView>),
    ByRef(usize),
    Char(i8),
    UShort(u16),
    ULong(u32),
    ULongLong(u64),
    Int(Int),
    UInt(UInt),
    PDecimal(Decimal96),
    PChar(i8),
    PUShort(u16),
    PULong(u32),
    PULongLong(u64),
    PInt(Int),
    PUInt(UInt),
    Decimal(Decimal96),
    Empty,
    Null,
}

/// The mathematical shadow of [`WirePayload`].
pub enum WirePayloadView {
    LlVal(i64),
    LVal(i32),
    BVal(u8),
    IVal(i16),
    FltVal(u32),
    DblVal(u64),
    BoolVal(i16),
    Scode(i32),
    CyVal(i64),
    DateVal(u64),
    BstrVal(Seq<u16>),
    PunkVal(usize),
    PdispVal(usize),
    Parray(CSafeArrayDataView),
    PvarVal(Box<CVariantView>),
    Byref(usize),
    CVal(i8),
    UiVal(u16),
    UlVal(u32),
    UllVal(u64),
    IntVal(i32),
    UintVal(u32),
    DecVal(Decimal96),
    Nothing,
}

/// The mathematical shadow of [`CVariant`].
pub struct CVariantView {
    pub vt: u16,
    pub reserved1: u16,
    pub reserved2: u16,
    pub reserved3: u16,
    pub payload: WirePayloadView,
}

/// The shadow of a variant, arm by arm.
pub open spec fn vw_variant(v: Variant) -> VariantView
    decreases v,
{
    match v {
        Variant::LongLong(x) => VariantView::LongLong(x),
        Variant::Long(x) => VariantView::Long(x),
        Variant::Byte(x) => VariantView::Byte(x),
        Variant::Short(x) => VariantView::Short(x),
        Variant::Float(x) => VariantView::Float(x),
        Variant::Double(x) => VariantView::Double(x),
        Variant::Bool(x) => VariantView::Bool(x),
        Variant::ErrorCode(x) => VariantView::ErrorCode(x),
        Variant::Currency(x) => VariantView::Currency(x),
        Variant::Date(x) => VariantView::Date(x),
        Variant::BString(s) => VariantView::BString(s@),
        Variant::Unknown(p) => VariantView::Unknown(p),
        Variant::Dispatch(p) => VariantView::Dispatch(p),
        Variant::Array(a) => VariantView::Array(vw_array(a)),
        Variant::PByte(b) => VariantView::PByte(*b),
        Variant::PShort(b) => VariantView::PShort(*b),
        Variant::PLong(b) => VariantView::PLong(*b),
        Variant::PLongLong(b) => VariantView::PLongLong(*b),
        Variant::PFloat(b) => VariantView::PFloat(*b),
        Variant::PDouble(b) => VariantView::PDouble(*b),
        Variant::PBool(b) => VariantView::PBool(*b),
        Variant::PErrorCode(b) => VariantView::PErrorCode(*b),
        Variant::PCurrency(b) => VariantView::PCurrency(*b),
        Variant::PDate(b) => VariantView::PDate(*b),
        Variant::PBString(b) => VariantView::PBString((*b)@),
        Variant::PUnknown(b) => VariantView::PUnknown(*b),
        Variant::PDispatch(b) => VariantView::PDispatch(*b),
        Variant::PArray(b) => VariantView::PArray(vw_array(*b)),
        Variant::PVariant(b) => VariantView::PVariant(Box::new(vw_variant(*b))),
        Variant::ByRef(p) => VariantView::ByRef(p),
        Variant::Char(x) => VariantView::Char(x),
        Variant::UShort(x) => VariantView::UShort(x),
        Variant::ULong(x) => VariantView::ULong(x),
        Variant::ULongLong(x) => VariantView::ULongLong(x),
        Variant::Int(x) => VariantView::Int(x),
        Variant::UInt(x) => VariantView::UInt(x),
        Variant::PDecimal(b) => VariantView::PDecimal(*b),
        Variant::PChar(b) => VariantView::PChar(*b),
        Variant::PUShort(b) => VariantView::PUShort(*b),
        Variant::PULong(b) => VariantView::PULong(*b),
        Variant::PULongLong(b) => VariantView::PULongLong(*b),
        Variant::PInt(b) => VariantView::PInt(*b),
        Variant::PUInt(b) => VariantView::PUInt(*b),
        Variant::Decimal(d) => VariantView::Decimal(d),
        Variant::Empty => VariantView::Empty,
        Variant::Null => VariantView::Null,
    }
}

/// The shadows of a run of variants, element by element.
pub open spec fn vw_variants(s: Seq<Variant>) -> Seq<VariantView>
    decreases s,
{
    if s.len() == 0 {
        Seq::empty()
    } else {
        seq![vw_variant(s[0])] + vw_variants(s.subrange(1, s.len() as int))
    }
}


/// The shadow of a run of variants is as long as the run, and shadows it
/// element by element.
pub proof fn lemma_vw_variants(s: Seq<Variant>)
    ensures
        vw_variants(s).len() == s.len(),
        forall|i: int| 0 <= i < s.len() ==> vw_variants(s)[i] == vw_variant(s[i]),
    decreases s,
{
    if s.len() > 0 {
        lemma_vw_variants(s.subrange(1, s.len() as int));
    }
}

/// The shadow of a run of cells is as long as the run, and shadows it
/// element by element.
pub proof fn lemma_vw_cells(s: Seq<WirePayload>)
    ensures
        vw_cells(s).len() == s.len(),
        forall|i: int| 0 <= i < s.len() ==> vw_cells(s)[i] == vw_payload(s[i]),
    decreases s,
{
    if s.len() > 0 {
        lemma_vw_cells(s.subrange(1, s.len() as int));
    }
}

/// The shadow of a wire payload, arm by arm.
pub open spec fn vw_payload(p: WirePayload) -> WirePayloadView
    decreases p,
{
    match p {
        WirePayload::LlVal(x) => WirePayloadView::LlVal(x),
        WirePayload::LVal(x) => WirePayloadView::LVal(x),
        WirePayload::BVal(x) => WirePayloadView::BVal(x),
        WirePayload::IVal(x) => WirePayloadView::IVal(x),
        WirePayload::FltVal(x) => WirePayloadView::FltVal(x),
        WirePayload::DblVal(x) => WirePayloadView::DblVal(x),
        WirePayload::BoolVal(x) => WirePayloadView::BoolVal(x),
        WirePayload::Scode(x) => WirePayloadView::Scode(x),
        WirePayload::CyVal(x) => WirePayloadView::CyVal(x),
        WirePayload::DateVal(x) => WirePayloadView::DateVal(x),
        WirePayload::BstrVal(b) => WirePayloadView::BstrVal(b@),
        WirePayload::PunkVal(p) => WirePayloadView::PunkVal(p),
        WirePayload::PdispVal(p) => WirePayloadView::PdispVal(p),
        WirePayload::Parray(c) => WirePayloadView::Parray(vw_cdata(c)),
        WirePayload::PvarVal(b) => WirePayloadView::PvarVal(Box::new(vw_cvariant(*b))),
        WirePayload::Byref(p) => WirePayloadView::Byref(p),
        WirePayload::CVal(x) => WirePayloadView::CVal(x),
        WirePayload::UiVal(x) => WirePayloadView::UiVal(x),
        WirePayload::UlVal(x) => WirePayloadView::UlVal(x),
        WirePayload::UllVal(x) => WirePayloadView::UllVal(x),
        WirePayload::IntVal(x) => WirePayloadView::IntVal(x),
        WirePayload::UintVal(x) => WirePayloadView::UintVal(x),
        WirePayload::DecVal(d) => WirePayloadView::DecVal(d),
        WirePayload::Nothing => WirePayloadView::Nothing,
    }
}

/// The shadows of a run of wire payload cells, element by element.
pub open spec fn vw_cells(s: Seq<WirePayload>) -> Seq<WirePayloadView>
    decreases s,
{
    if s.len() == 0 {
        Seq::empty()
    } else {
        seq![vw_payload(s[0])] + vw_cells(s.subrange(1, s.len() as int))
    }
}

/// The shadow of a raw tagged union record.
pub open spec fn vw_cvariant(w: CVariant) -> CVariantView
    decreases w,
{
    CVariantView {
        vt: w.vt,
        reserved1: w.reserved1,
        reserved2: w.reserved2,
        reserved3: w.reserved3,
        payload: vw_payload(w.payload),
    }
}

impl DeepView for Variant {
    type V = VariantView;

    open spec fn deep_view(&self) -> VariantView {
        vw_variant(*self)
    }
}

impl DeepView for WirePayload {
    type V = WirePayloadView;

    open spec fn deep_view(&self) -> WirePayloadView {
        vw_payload(*self)
    }
}

impl DeepView for CVariant {
    type V = CVariantView;

    open spec fn deep_view(&self) -> CVariantView {
        vw_cvariant(*self)
    }
}

/// The wire tag each variant arm encodes to: the tag table of the layer.
pub open spec fn spec_vartype(v: VariantView) -> u16 {
    match v {
        VariantView::LongLong(_) => VT_I8,
        VariantView::Long(_) => VT_I4,
        VariantView::Byte(_) => VT_UI1,
        VariantView::Short(_) => VT_I2,
        VariantView::Float(_) => VT_R4,
        VariantView::Double(_) => VT_R8,
        VariantView::Bool(_) => VT_BOOL,
        VariantView::ErrorCode(_) => VT_ERROR,
        VariantView::Currency(_) => VT_CY,
        VariantView::Date(_) => VT_DATE,
        VariantView::BString(_) => VT_BSTR,
        VariantView::Unknown(_) => VT_UNKNOWN,
        VariantView::Dispatch(_) => VT_DISPATCH,
        VariantView::Array(_) => VT_ARRAY,
        VariantView::PByte(_) => VT_PBYTE,
        VariantView::PShort(_) => VT_PSHORT,
        VariantView::PLong(_) => VT_PLONG,
        VariantView::PLongLong(_) => VT_PLONGLONG,
        VariantView::PFloat(_) => VT_PFLOAT,
        VariantView::PDouble(_) => VT_PDOUBLE,
        VariantView::PBool(_) => VT_PBOOL,
        VariantView::PErrorCode(_) => VT_PERROR,
        VariantView::PCurrency(_) => VT_PCY,
        VariantView::PDate(_) => VT_PDATE,
        VariantView::PBString(_) => VT_PBSTR,
        VariantView::PUnknown(_) => VT_PUNKNOWN,
        VariantView::PDispatch(_) => VT_PDISPATCH,
        VariantView::PArray(_) => VT_PARRAY,
        VariantView::PVariant(_) => VT_PVARIANT,
        VariantView::ByRef(_) => VT_BYREF,
        VariantView::Char(_) => VT_I1,
        VariantView::UShort(_) => VT_UI2,
        VariantView::ULong(_) => VT_UI4,
        VariantView::ULongLong(_) => VT_UI8,
        VariantView::Int(_) => VT_INT,
        VariantView::UInt(_) => VT_UINT,
        VariantView::PDecimal(_) => VT_PDECIMAL,
        VariantView::PChar(_) => VT_PCHAR,
        VariantView::PUShort(_) => VT_PUSHORT,
        VariantView::PULong(_) => VT_PULONG,
        VariantView::PULongLong(_) => VT_PULONGLONG,
        VariantView::PInt(_) => VT_PINT,
        VariantView::PUInt(_) => VT_PUINT,
        VariantView::Decimal(_) => VT_DECIMAL,
        VariantView::Empty => VT_EMPTY,
        VariantView::Null => VT_NULL,
    }
}


/// The payload member each variant arm encodes to: the mirror of the tag
/// table, over the shadows. Strings go out as their UTF-16 code units; a
/// boolean goes out as the all-ones or all-zero sentinel; a by-reference
/// arm hands its owned cell to the foreign side.
pub open spec fn spec_wire_payload(v: VariantView) -> WirePayloadView
    decreases v, 0int,
{
    match v {
        VariantView::LongLong(x) => WirePayloadView::LlVal(x),
        VariantView::Long(x) => WirePayloadView::LVal(x),
        VariantView::Byte(x) => WirePayloadView::BVal(x),
        VariantView::Short(x) => WirePayloadView::IVal(x),
        VariantView::Float(x) => WirePayloadView::FltVal(x),
        VariantView::Double(x) => WirePayloadView::DblVal(x),
        VariantView::Bool(b) => WirePayloadView::BoolVal(
            if b {
                VARIANT_TRUE
            } else {
                VARIANT_FALSE
            },
        ),
        VariantView::ErrorCode(c) => WirePayloadView::Scode(c.0),
        VariantView::Currency(c) => WirePayloadView::CyVal(c.0),
        VariantView::Date(d) => WirePayloadView::DateVal(d.0),
        VariantView::BString(s) => WirePayloadView::BstrVal(utf16_units_of(s)),
        VariantView::Unknown(p) => WirePayloadView::PunkVal(p.ptr),
        VariantView::Dispatch(p) => WirePayloadView::PdispVal(p.ptr),
        VariantView::Array(a) => WirePayloadView::Parray(spec_wire_array(a)),
        VariantView::PByte(x) => WirePayloadView::BVal(x),
        VariantView::PShort(x) => WirePayloadView::IVal(x),
        VariantView::PLong(x) => WirePayloadView::LVal(x),
        VariantView::PLongLong(x) => WirePayloadView::LlVal(x),
        VariantView::PFloat(x) => WirePayloadView::FltVal(x),
        VariantView::PDouble(x) => WirePayloadView::DblVal(x),
        VariantView::PBool(b) => WirePayloadView::BoolVal(
            if b {
                VARIANT_TRUE
            } else {
                VARIANT_FALSE
            },
        ),
        VariantView::PErrorCode(c) => WirePayloadView::Scode(c.0),
        VariantView::PCurrency(c) => WirePayloadView::CyVal(c.0),
        VariantView::PDate(d) => WirePayloadView::DateVal(d.0),
        VariantView::PBString(s) => WirePayloadView::BstrVal(utf16_units_of(s)),
        VariantView::PUnknown(p) => WirePayloadView::PunkVal(p.ptr),
        VariantView::PDispatch(p) => WirePayloadView::PdispVal(p.ptr),
        VariantView::PArray(a) => WirePayloadView::Parray(spec_wire_array(a)),
        VariantView::PVariant(b) => WirePayloadView::PvarVal(Box::new(spec_wire_of(*b))),
        VariantView::ByRef(p) => WirePayloadView::Byref(p),
        VariantView::Char(x) => WirePayloadView::CVal(x),
        VariantView::UShort(x) => WirePayloadView::UiVal(x),
        VariantView::ULong(x) => WirePayloadView::UlVal(x),
        VariantView::ULongLong(x) => WirePayloadView::UllVal(x),
        VariantView::Int(x) => WirePayloadView::IntVal(x.0),
        VariantView::UInt(x) => WirePayloadView::UintVal(x.0),
        VariantView::PDecimal(d) => WirePayloadView::DecVal(d),
        VariantView::PChar(x) => WirePayloadView::CVal(x),
        VariantView::PUShort(x) => WirePayloadView::UiVal(x),
        VariantView::PULong(x) => WirePayloadView::UlVal(x),
        VariantView::PULongLong(x) => WirePayloadView::UllVal(x),
        VariantView::PInt(x) => WirePayloadView::IntVal(x.0),
        VariantView::PUInt(x) => WirePayloadView::UintVal(x.0),
        VariantView::Decimal(d) => WirePayloadView::DecVal(d),
        VariantView::Empty => WirePayloadView::Nothing,
        VariantView::Null => WirePayloadView::Nothing,
    }
}

/// The raw tagged union a variant encodes to: its tag, clear reserved
/// words, and the payload of its arm.
pub open spec fn spec_wire_of(v: VariantView) -> CVariantView
    decreases v, 1int,
{
    CVariantView {
        vt: spec_vartype(v),
        reserved1: 0,
        reserved2: 0,
        reserved3: 0,
        payload: spec_wire_payload(v),
    }
}

/// The variant a raw tagged union decodes to, or the typed error that
/// refuses it: an unsupported tag, or a payload member that does not
/// agree with the tag. The boolean sentinel decodes by comparison with
/// all-ones; the empty and null tags read no payload at all.
pub open spec fn spec_variant_of(w: CVariantView) -> Result<VariantView, ClrError>
    decreases w, 1int,
{
    if w.vt == VT_I8 {
        match w.payload {
            WirePayloadView::LlVal(x) => Ok(VariantView::LongLong(x)),
            _ => Err(ClrError::Conversion { source: SourceLocation::VariantDecode }),
        }
    } else if w.vt == VT_I4 {
        match w.payload {
            WirePayloadView::LVal(x) => Ok(VariantView::Long(x)),
            _ => Err(ClrError::Conversion { source: SourceLocation::VariantDecode }),
        }
    } else if w.vt == VT_UI1 {
        match w.payload {
            WirePayloadView::BVal(x) => Ok(VariantView::Byte(x)),
            _ => Err(ClrError::Conversion { source: SourceLocation::VariantDecode }),
        }
    } else if w.vt == VT_I2 {
        match w.payload {
            WirePayloadView::IVal(x) => Ok(VariantView::Short(x)),
            _ => Err(ClrError::Conversion { source: SourceLocation::VariantDecode }),
        }
    } else if w.vt == VT_R4 {
        match w.payload {
            WirePayloadView::FltVal(x) => Ok(VariantView::Float(x)),
            _ => Err(ClrError::Conversion { source: SourceLocation::VariantDecode }),
        }
    } else if w.vt == VT_R8 {
        match w.payload {
            WirePayloadView::DblVal(x) => Ok(VariantView::Double(x)),
            _ => Err(ClrError::Conversion { source: SourceLocation::VariantDecode }),
        }
    } else if w.vt == VT_BOOL {
        match w.payload {
            WirePayloadView::BoolVal(x) => Ok(VariantView::Bool(x == VARIANT_TRUE)),
            _ => Err(ClrError::Conversion { source: SourceLocation::VariantDecode }),
        }
    } else if w.vt == VT_ERROR {
        match w.payload {
            WirePayloadView::Scode(x) => Ok(VariantView::ErrorCode(SCode(x))),
            _ => Err(ClrError::Conversion { source: SourceLocation::VariantDecode }),
        }
    } else if w.vt == VT_CY {
        match w.payload {
            WirePayloadView::CyVal(x) => Ok(VariantView::Currency(Currency(x))),
            _ => Err(ClrError::Conversion { source: SourceLocation::VariantDecode }),
        }
    } else if w.vt == VT_DATE {
        match w.payload {
            WirePayloadView::DateVal(x) => Ok(VariantView::Date(Date(x))),
            _ => Err(ClrError::Conversion { source: SourceLocation::VariantDecode }),
        }
    } else if w.vt == VT_BSTR {
        match w.payload {
            WirePayloadView::BstrVal(u) => Ok(VariantView::BString(utf16_lossy_of(u))),
            _ => Err(ClrError::Conversion { source: SourceLocation::VariantDecode }),
        }
    } else if w.vt == VT_UNKNOWN {
        match w.payload {
            WirePayloadView::PunkVal(p) => Ok(VariantView::Unknown(WrappedUnknown { ptr: p })),
            _ => Err(ClrError::Conversion { source: SourceLocation::VariantDecode }),
        }
    } else if w.vt == VT_DISPATCH {
        match w.payload {
            WirePayloadView::PdispVal(p) => Ok(VariantView::Dispatch(WrappedDispatch { ptr: p })),
            _ => Err(ClrError::Conversion { source: SourceLocation::VariantDecode }),
        }
    } else if w.vt == VT_ARRAY {
        match w.payload {
            WirePayloadView::Parray(c) => match spec_array_of(c) {
                Ok(a) => Ok(VariantView::Array(a)),
                Err(e) => Err(e),
            },
            _ => Err(ClrError::Conversion { source: SourceLocation::VariantDecode }),
        }
    } else if w.vt == VT_PBYTE {
        match w.payload {
            WirePayloadView::BVal(x) => Ok(VariantView::PByte(x)),
            _ => Err(ClrError::Conversion { source: SourceLocation::VariantDecode }),
        }
    } else if w.vt == VT_PSHORT {
        match w.payload {
            WirePayloadView::IVal(x) => Ok(VariantView::PShort(x)),
            _ => Err(ClrError::Conversion { source: SourceLocation::VariantDecode }),
        }
    } else if w.vt == VT_PLONG {
        match w.payload {
            WirePayloadView::LVal(x) => Ok(VariantView::PLong(x)),
            _ => Err(ClrError::Conversion { source: SourceLocation::VariantDecode }),
        }
    } else if w.vt == VT_PLONGLONG {
        match w.payload {
            WirePayloadView::LlVal(x) => Ok(VariantView::PLongLong(x)),
            _ => Err(ClrError::Conversion { source: SourceLocation::VariantDecode }),
        }
    } else if w.vt == VT_PFLOAT {
        match w.payload {
            WirePayloadView::FltVal(x) => Ok(VariantView::PFloat(x)),
            _ => Err(ClrError::Conversion { source: SourceLocation::VariantDecode }),
        }
    } else if w.vt == VT_PDOUBLE {
        match w.payload {
            WirePayloadView::DblVal(x) => Ok(VariantView::PDouble(x)),
            _ => Err(ClrError::Conversion { source: SourceLocation::VariantDecode }),
        }
    } else if w.vt == VT_PBOOL {
        match w.payload {
            WirePayloadView::BoolVal(x) => Ok(VariantView::PBool(x == VARIANT_TRUE)),
            _ => Err(ClrError::Conversion { source: SourceLocation::VariantDecode }),
        }
    } else if w.vt == VT_PERROR {
        match w.payload {
            WirePayloadView::Scode(x) => Ok(VariantView::PErrorCode(SCode(x))),
            _ => Err(ClrError::Conversion { source: SourceLocation::VariantDecode }),
        }
    } else if w.vt == VT_PCY {
        match w.payload {
            WirePayloadView::CyVal(x) => Ok(VariantView::PCurrency(Currency(x))),
            _ => Err(ClrError::Conversion { source: SourceLocation::VariantDecode }),
        }
    } else if w.vt == VT_PDATE {
        match w.payload {
            WirePayloadView::DateVal(x) => Ok(VariantView::PDate(Date(x))),
            _ => Err(ClrError::Conversion { source: SourceLocation::VariantDecode }),
        }
    } else if w.vt == VT_PBSTR {
        match w.payload {
            WirePayloadView::BstrVal(u) => Ok(VariantView::PBString(utf16_lossy_of(u))),
            _ => Err(ClrError::Conversion { source: SourceLocation::VariantDecode }),
        }
    } else if w.vt == VT_PUNKNOWN {
        match w.payload {
            WirePayloadView::PunkVal(p) => Ok(VariantView::PUnknown(WrappedUnknown { ptr: p })),
            _ => Err(ClrError::Conversion { source: SourceLocation::VariantDecode }),
        }
    } else if w.vt == VT_PDISPATCH {
        match w.payload {
            WirePayloadView::PdispVal(p) => Ok(VariantView::PDispatch(WrappedDispatch { ptr: p })),
            _ => Err(ClrError::Conversion { source: SourceLocation::VariantDecode }),
        }
    } else if w.vt == VT_PARRAY {
        match w.payload {
            WirePayloadView::Parray(c) => match spec_array_of(c) {
                Ok(a) => Ok(VariantView::PArray(a)),
                Err(e) => Err(e),
            },
            _ => Err(ClrError::Conversion { source: SourceLocation::VariantDecode }),
        }
    } else if w.vt == VT_PVARIANT {
        match w.payload {
            WirePayloadView::PvarVal(b) => match spec_variant_of(*b) {
                Ok(v) => Ok(VariantView::PVariant(Box::new(v))),
                Err(e) => Err(e),
            },
            _ => Err(ClrError::Conversion { source: SourceLocation::VariantDecode }),
        }
    } else if w.vt == VT_BYREF {
        match w.payload {
            WirePayloadView::Byref(p) => Ok(VariantView::ByRef(p)),
            _ => Err(ClrError::Conversion { source: SourceLocation::VariantDecode }),
        }
    } else if w.vt == VT_I1 {
        match w.payload {
            WirePayloadView::CVal(x) => Ok(VariantView::Char(x)),
            _ => Err(ClrError::Conversion { source: SourceLocation::VariantDecode }),
        }
    } else if w.vt == VT_UI2 {
        match w.payload {
            WirePayloadView::UiVal(x) => Ok(VariantView::UShort(x)),
            _ => Err(ClrError::Conversion { source: SourceLocation::VariantDecode }),
        }
    } else if w.vt == VT_UI4 {
        match w.payload {
            WirePayloadView::UlVal(x) => Ok(VariantView::ULong(x)),
            _ => Err(ClrError::Conversion { source: SourceLocation::VariantDecode }),
        }
    } else if w.vt == VT_UI8 {
        match w.payload {
            WirePayloadView::UllVal(x) => Ok(VariantView::ULongLong(x)),
            _ => Err(ClrError::Conversion { source: SourceLocation::VariantDecode }),
        }
    } else if w.vt == VT_INT {
        match w.payload {
            WirePayloadView::IntVal(x) => Ok(VariantView::Int(Int(x))),
            _ => Err(ClrError::Conversion { source: SourceLocation::VariantDecode }),
        }
    } else if w.vt == VT_UINT {
        match w.payload {
            WirePayloadView::UintVal(x) => Ok(VariantView::UInt(UInt(x))),
            _ => Err(ClrError::Conversion { source: SourceLocation::VariantDecode }),
        }
    } else if w.vt == VT_PDECIMAL {
        match w.payload {
            WirePayloadView::DecVal(d) => Ok(VariantView::PDecimal(d)),
            _ => Err(ClrError::Conversion { source: SourceLocation::VariantDecode }),
        }
    } else if w.vt == VT_PCHAR {
        match w.payload {
            WirePayloadView::CVal(x) => Ok(VariantView::PChar(x)),
            _ => Err(ClrError::Conversion { source: SourceLocation::VariantDecode }),
        }
    } else if w.vt == VT_PUSHORT {
        match w.payload {
            WirePayloadView::UiVal(x) => Ok(VariantView::PUShort(x)),
            _ => Err(ClrError::Conversion { source: SourceLocation::VariantDecode }),
        }
    } else if w.vt == VT_PULONG {
        match w.payload {
            WirePayloadView::UlVal(x) => Ok(VariantView::PULong(x)),
            _ => Err(ClrError::Conversion { source: SourceLocation::VariantDecode }),
        }
    } else if w.vt == VT_PULONGLONG {
        match w.payload {
            WirePayloadView::UllVal(x) => Ok(VariantView::PULongLong(x)),
            _ => Err(ClrError::Conversion { source: SourceLocation::VariantDecode }),
        }
    } else if w.vt == VT_PINT {
        match w.payload {
            WirePayloadView::IntVal(x) => Ok(VariantView::PInt(Int(x))),
            _ => Err(ClrError::Conversion { source: SourceLocation::VariantDecode }),
        }
    } else if w.vt == VT_PUINT {
        match w.payload {
            WirePayloadView::UintVal(x) => Ok(VariantView::PUInt(UInt(x))),
            _ => Err(ClrError::Conversion { source: SourceLocation::VariantDecode }),
        }
    } else if w.vt == VT_DECIMAL {
        match w.payload {
            WirePayloadView::DecVal(d) => Ok(VariantView::Decimal(d)),
            _ => Err(ClrError::Conversion { source: SourceLocation::VariantDecode }),
        }
    } else if w.vt == VT_EMPTY {
        Ok(VariantView::Empty)
    } else if w.vt == VT_NULL {
        Ok(VariantView::Null)
    } else {
        Err(ClrError::UnsupportedVartype { vt: w.vt })
    }
}


/// A run of variants small enough for the wire, element by element.
pub open spec fn variants_fit_wire(s: Seq<VariantView>) -> bool
    decreases s, 0int,
{
    s.len() == 0 || (fits_wire(s[0]) && variants_fit_wire(s.subrange(1, s.len() as int)))
}

/// A variant small enough for the wire: every array it carries, however
/// deeply nested, has an element count the foreign 32-bit bound field can
/// hold.
pub open spec fn fits_wire(v: VariantView) -> bool
    decreases v, 1int,
{
    match v {
        VariantView::Array(a) => array_fits_wire(a),
        VariantView::PArray(a) => array_fits_wire(a),
        VariantView::PVariant(b) => fits_wire(*b),
        _ => true,
    }
}

/// An array small enough for the wire: its element count fits the
/// foreign 32-bit bound field, and so does every array nested in its
/// elements.
pub open spec fn array_fits_wire(a: RSafeArrayView) -> bool
    decreases a, 2int,
{
    &&& spec_array_len(a) <= u32::MAX
    &&& match a {
        RSafeArrayView::Variants(s) => variants_fit_wire(s),
        _ => true,
    }
}

/// Fitting the wire is a property of each element of a run.
pub proof fn lemma_variants_fit_wire_index(s: Seq<VariantView>)
    requires
        variants_fit_wire(s),
    ensures
        forall|i: int| 0 <= i < s.len() ==> fits_wire(#[trigger] s[i]),
    decreases s,
{
    if s.len() > 0 {
        lemma_variants_fit_wire_index(s.subrange(1, s.len() as int));
        assert forall|i: int| 0 <= i < s.len() implies fits_wire(#[trigger] s[i]) by {
            if i > 0 {
                assert(s[i] == s.subrange(1, s.len() as int)[i - 1]);
            }
        }
    }
}


/// The arms whose payload is one scalar cell, a pointer identity, or an
/// owned scalar cell: everything but strings, arrays and nested variants.
pub open spec fn is_scalar_arm(v: VariantView) -> bool {
    match v {
        VariantView::BString(_) => false,
        VariantView::PBString(_) => false,
        VariantView::Array(_) => false,
        VariantView::PArray(_) => false,
        VariantView::PVariant(_) => false,
        _ => true,
    }
}

/// Round trip of the variant codec, scalar tags: for every scalar tag
/// and every representable value of it, decoding the encoding gives the
/// value back, exactly.
pub proof fn lemma_scalar_round_trip(v: VariantView)
    requires
        is_scalar_arm(v),
    ensures
        spec_variant_of(spec_wire_of(v)) == Ok::<VariantView, ClrError>(v),
{
    match v {
        VariantView::LongLong(_) => {
            assert(spec_variant_of(spec_wire_of(v)) == Ok::<VariantView, ClrError>(v));
        },
        VariantView::Long(_) => {
            assert(spec_variant_of(spec_wire_of(v)) == Ok::<VariantView, ClrError>(v));
        },
        VariantView::Byte(_) => {
            assert(spec_variant_of(spec_wire_of(v)) == Ok::<VariantView, ClrError>(v));
        },
        VariantView::Short(_) => {
            assert(spec_variant_of(spec_wire_of(v)) == Ok::<VariantView, ClrError>(v));
        },
        VariantView::Float(_) => {
            assert(spec_variant_of(spec_wire_of(v)) == Ok::<VariantView, ClrError>(v));
        },
        VariantView::Double(_) => {
            assert(spec_variant_of(spec_wire_of(v)) == Ok::<VariantView, ClrError>(v));
        },
        VariantView::Bool(_) => {
            assert(spec_variant_of(spec_wire_of(v)) == Ok::<VariantView, ClrError>(v));
        },
        VariantView::ErrorCode(_) => {
            assert(spec_variant_of(spec_wire_of(v)) == Ok::<VariantView, ClrError>(v));
        },
        VariantView::Currency(_) => {
            assert(spec_variant_of(spec_wire_of(v)) == Ok::<VariantView, ClrError>(v));
        },
        VariantView::Date(_) => {
            assert(spec_variant_of(spec_wire_of(v)) == Ok::<VariantView, ClrError>(v));
        },
        VariantView::Unknown(_) => {
            assert(spec_variant_of(spec_wire_of(v)) == Ok::<VariantView, ClrError>(v));
        },
        VariantView::Dispatch(_) => {
            assert(spec_variant_of(spec_wire_of(v)) == Ok::<VariantView, ClrError>(v));
        },
        VariantView::PByte(_) => {
            assert(spec_variant_of(spec_wire_of(v)) == Ok::<VariantView, ClrError>(v));
        },
        VariantView::PShort(_) => {
            assert(spec_variant_of(spec_wire_of(v)) == Ok::<VariantView, ClrError>(v));
        },
        VariantView::PLong(_) => {
            assert(spec_variant_of(spec_wire_of(v)) == Ok::<VariantView, ClrError>(v));
        },
        VariantView::PLongLong(_) => {
            assert(spec_variant_of(spec_wire_of(v)) == Ok::<VariantView, ClrError>(v));
        },
        VariantView::PFloat(_) => {
            assert(spec_variant_of(spec_wire_of(v)) == Ok::<VariantView, ClrError>(v));
        },
        VariantView::PDouble(_) => {
            assert(spec_variant_of(spec_wire_of(v)) == Ok::<VariantView, ClrError>(v));
        },
        VariantView::PBool(_) => {
            assert(spec_variant_of(spec_wire_of(v)) == Ok::<VariantView, ClrError>(v));
        },
        VariantView::PErrorCode(_) => {
            assert(spec_variant_of(spec_wire_of(v)) == Ok::<VariantView, ClrError>(v));
        },
        VariantView::PCurrency(_) => {
            assert(spec_variant_of(spec_wire_of(v)) == Ok::<VariantView, ClrError>(v));
        },
        VariantView::PDate(_) => {
            assert(spec_variant_of(spec_wire_of(v)) == Ok::<VariantView, ClrError>(v));
        },
        VariantView::PUnknown(_) => {
            assert(spec_variant_of(spec_wire_of(v)) == Ok::<VariantView, ClrError>(v));
        },
        VariantView::PDispatch(_) => {
            assert(spec_variant_of(spec_wire_of(v)) == Ok::<VariantView, ClrError>(v));
        },
        VariantView::ByRef(_) => {
            assert(spec_variant_of(spec_wire_of(v)) == Ok::<VariantView, ClrError>(v));
        },
        VariantView::Char(_) => {
            assert(spec_variant_of(spec_wire_of(v)) == Ok::<VariantView, ClrError>(v));
        },
        VariantView::UShort(_) => {
            assert(spec_variant_of(spec_wire_of(v)) == Ok::<VariantView, ClrError>(v));
        },
        VariantView::ULong(_) => {
            assert(spec_variant_of(spec_wire_of(v)) == Ok::<VariantView, ClrError>(v));
        },
        VariantView::ULongLong(_) => {
            assert(spec_variant_of(spec_wire_of(v)) == Ok::<VariantView, ClrError>(v));
        },
        VariantView::Int(_) => {
            assert(spec_variant_of(spec_wire_of(v)) == Ok::<VariantView, ClrError>(v));
        },
        VariantView::UInt(_) => {
            assert(spec_variant_of(spec_wire_of(v)) == Ok::<VariantView, ClrError>(v));
        },
        VariantView::PDecimal(_) => {
            assert(spec_variant_of(spec_wire_of(v)) == Ok::<VariantView, ClrError>(v));
        },
        VariantView::PChar(_) => {
            assert(spec_variant_of(spec_wire_of(v)) == Ok::<VariantView, ClrError>(v));
        },
        VariantView::PUShort(_) => {
            assert(spec_variant_of(spec_wire_of(v)) == Ok::<VariantView, ClrError>(v));
        },
        VariantView::PULong(_) => {
            assert(spec_variant_of(spec_wire_of(v)) == Ok::<VariantView, ClrError>(v));
        },
        VariantView::PULongLong(_) => {
            assert(spec_variant_of(spec_wire_of(v)) == Ok::<VariantView, ClrError>(v));
        },
        VariantView::PInt(_) => {
            assert(spec_variant_of(spec_wire_of(v)) == Ok::<VariantView, ClrError>(v));
        },
        VariantView::PUInt(_) => {
            assert(spec_variant_of(spec_wire_of(v)) == Ok::<VariantView, ClrError>(v));
        },
        VariantView::Decimal(_) => {
            assert(spec_variant_of(spec_wire_of(v)) == Ok::<VariantView, ClrError>(v));
        },
        VariantView::Empty => {
            assert(spec_variant_of(spec_wire_of(v)) == Ok::<VariantView, ClrError>(v));
        },
        VariantView::Null => {
            assert(spec_variant_of(spec_wire_of(v)) == Ok::<VariantView, ClrError>(v));
        },
        _ => {},
    }
}


/// A run of variants whose encoding is lossless, element by element.
pub open spec fn variants_wire_exact(s: Seq<VariantView>) -> bool
    decreases s, 0int,
{
    s.len() == 0 || (wire_exact(s[0]) && variants_wire_exact(s.subrange(1, s.len() as int)))
}

/// A variant whose encoding is lossless: it carries no string — whose
/// decoding replaces unpaired surrogates by design — and every array in
/// it, however deeply nested, has an element count the wire's 32-bit
/// bound field can hold.
pub open spec fn wire_exact(v: VariantView) -> bool
    decreases v, 1int,
{
    match v {
        VariantView::BString(_) => false,
        VariantView::PBString(_) => false,
        VariantView::Array(a) => array_wire_exact(a),
        VariantView::PArray(a) => array_wire_exact(a),
        VariantView::PVariant(b) => wire_exact(*b),
        _ => true,
    }
}

/// Fitting the wire losslessly is a property of each element of a run.
pub proof fn lemma_variants_wire_exact_index(s: Seq<VariantView>)
    requires
        variants_wire_exact(s),
    ensures
        forall|i: int| 0 <= i < s.len() ==> wire_exact(#[trigger] s[i]),
    decreases s,
{
    if s.len() > 0 {
        lemma_variants_wire_exact_index(s.subrange(1, s.len() as int));
        assert forall|i: int| 0 <= i < s.len() implies wire_exact(#[trigger] s[i]) by {
            if i > 0 {
                assert(s[i] == s.subrange(1, s.len() as int)[i - 1]);
            }
        }
    }
}

/// Round trip of the variant codec, in full: decoding the encoding of
/// any variant whose encoding is lossless gives the variant back — the
/// scalar tags of `lemma_scalar_round_trip`, and on top of them the
/// by-reference arms, nested variants, and whole arrays of every element
/// kind but strings.
pub proof fn lemma_variant_round_trip(v: VariantView)
    requires
        wire_exact(v),
    ensures
        spec_variant_of(spec_wire_of(v)) == Ok::<VariantView, ClrError>(v),
    decreases v,
{
    match v {
        VariantView::Array(a) => {
            lemma_array_round_trip(a);
            assert(spec_variant_of(spec_wire_of(v)) == Ok::<VariantView, ClrError>(v));
        },
        VariantView::PArray(a) => {
            lemma_array_round_trip(a);
            assert(spec_variant_of(spec_wire_of(v)) == Ok::<VariantView, ClrError>(v));
        },
        VariantView::PVariant(b) => {
            lemma_variant_round_trip(*b);
            assert(spec_variant_of(spec_wire_of(v)) == Ok::<VariantView, ClrError>(v));
        },
        _ => {
            lemma_scalar_round_trip(v);
        },
    }
}

/// The boolean sentinel law: true encodes to the all-ones sentinel and
/// false to all-zero, and decoding compares against the sentinel itself,
/// so that only all-ones decodes to true.
pub proof fn lemma_bool_sentinel()
    ensures
        spec_wire_of(VariantView::Bool(true)).payload == WirePayloadView::BoolVal(VARIANT_TRUE),
        spec_wire_of(VariantView::Bool(false)).payload == WirePayloadView::BoolVal(VARIANT_FALSE),
        forall|x: i16|
            spec_variant_of(
                CVariantView {
                    vt: VT_BOOL,
                    reserved1: 0,
                    reserved2: 0,
                    reserved3: 0,
                    payload: WirePayloadView::BoolVal(x),
                },
            ) == Ok::<VariantView, ClrError>(VariantView::Bool(x == VARIANT_TRUE)),
{
}


/// Copies one payload cell, as the foreign per-element accessor does.
pub(crate) fn dup_payload(p: &WirePayload) -> (r: WirePayload)
    ensures
        r.deep_view() == p.deep_view(),
    decreases p,
{
    match p {
        WirePayload::LlVal(x) => WirePayload::LlVal(*x),
        WirePayload::LVal(x) => WirePayload::LVal(*x),
        WirePayload::BVal(x) => WirePayload::BVal(*x),
        WirePayload::IVal(x) => WirePayload::IVal(*x),
        WirePayload::FltVal(x) => WirePayload::FltVal(*x),
        WirePayload::DblVal(x) => WirePayload::DblVal(*x),
        WirePayload::BoolVal(x) => WirePayload::BoolVal(*x),
        WirePayload::Scode(x) => WirePayload::Scode(*x),
        WirePayload::CyVal(x) => WirePayload::CyVal(*x),
        WirePayload::DateVal(x) => WirePayload::DateVal(*x),
        WirePayload::BstrVal(b) => WirePayload::BstrVal(b.duplicate()),
        WirePayload::PunkVal(x) => WirePayload::PunkVal(*x),
        WirePayload::PdispVal(x) => WirePayload::PdispVal(*x),
        WirePayload::Parray(c) => {
            proof {
                assert(decreases_to!(*p => *c));
            }
            WirePayload::Parray(dup_cdata(c))
        },
        WirePayload::PvarVal(b) => {
            proof {
                assert(decreases_to!(*p => **b));
            }
            WirePayload::PvarVal(Box::new(dup_cvariant(&**b)))
        },
        WirePayload::Byref(x) => WirePayload::Byref(*x),
        WirePayload::CVal(x) => WirePayload::CVal(*x),
        WirePayload::UiVal(x) => WirePayload::UiVal(*x),
        WirePayload::UlVal(x) => WirePayload::UlVal(*x),
        WirePayload::UllVal(x) => WirePayload::UllVal(*x),
        WirePayload::IntVal(x) => WirePayload::IntVal(*x),
        WirePayload::UintVal(x) => WirePayload::UintVal(*x),
        WirePayload::DecVal(d) => WirePayload::DecVal(*d),
        WirePayload::Nothing => WirePayload::Nothing,
    }
}

/// Copies one raw tagged union record.
pub(crate) fn dup_cvariant(w: &CVariant) -> (r: CVariant)
    ensures
        r.deep_view() == w.deep_view(),
    decreases w,
{
    proof {
        assert(decreases_to!(*w => w.payload));
    }
    CVariant {
        vt: w.vt,
        reserved1: w.reserved1,
        reserved2: w.reserved2,
        reserved3: w.reserved3,
        payload: dup_payload(&w.payload),
    }
}

/// Copies one raw foreign array record, cell by cell.
#[verifier::loop_isolation(false)]
pub(crate) fn dup_cdata(c: &CSafeArrayData) -> (r: CSafeArrayData)
    ensures
        r.deep_view() == c.deep_view(),
    decreases c,
{
    let bounds = c.bounds.clone();
    let mut cells: Vec<WirePayload> = Vec::new();
    let mut i: usize = 0;
    while i < c.cells.len()
        invariant
            i <= c.cells@.len(),
            cells@.len() == i,
            forall|j: int|
                0 <= j < i ==> vw_payload(#[trigger] cells@[j]) == vw_payload(c.cells@[j]),
        decreases c.cells@.len() - i,
    {
        proof {
            assert(decreases_to!(*c => c.cells));
            assert(decreases_to!(c.cells => c.cells@));
            assert(decreases_to!(c.cells@ => c.cells@[i as int]));
        }
        let cell = dup_payload(&c.cells[i]);
        cells.push(cell);
        i = i + 1;
    }
    let r = CSafeArrayData { vt: c.vt, bounds, cells };
    proof {
        lemma_vw_cells(cells@);
        lemma_vw_cells(c.cells@);
        assert(vw_cells(cells@) =~= vw_cells(c.cells@));
        assert(bounds@ =~= c.bounds@);
        assert(r.bounds.deep_view() =~= c.bounds.deep_view());
        assert(r.deep_view() =~= c.deep_view());
    }
    r
}

impl Variant {
    /// The wire tag this value encodes to, determined by the active arm
    /// alone.
    pub fn vartype(&self) -> (vt: u16)
        ensures
            vt == spec_vartype(self.deep_view()),
    {
        match self {
            Variant::LongLong(_) => VT_I8,
            Variant::Long(_) => VT_I4,
            Variant::Byte(_) => VT_UI1,
            Variant::Short(_) => VT_I2,
            Variant::Float(_) => VT_R4,
            Variant::Double(_) => VT_R8,
            Variant::Bool(_) => VT_BOOL,
            Variant::ErrorCode(_) => VT_ERROR,
            Variant::Currency(_) => VT_CY,
            Variant::Date(_) => VT_DATE,
            Variant::BString(_) => VT_BSTR,
            Variant::Unknown(_) => VT_UNKNOWN,
            Variant::Dispatch(_) => VT_DISPATCH,
            Variant::Array(_) => VT_ARRAY,
            Variant::PByte(_) => VT_PBYTE,
            Variant::PShort(_) => VT_PSHORT,
            Variant::PLong(_) => VT_PLONG,
            Variant::PLongLong(_) => VT_PLONGLONG,
            Variant::PFloat(_) => VT_PFLOAT,
            Variant::PDouble(_) => VT_PDOUBLE,
            Variant::PBool(_) => VT_PBOOL,
            Variant::PErrorCode(_) => VT_PERROR,
            Variant::PCurrency(_) => VT_PCY,
            Variant::PDate(_) => VT_PDATE,
            Variant::PBString(_) => VT_PBSTR,
            Variant::PUnknown(_) => VT_PUNKNOWN,
            Variant::PDispatch(_) => VT_PDISPATCH,
            Variant::PArray(_) => VT_PARRAY,
            Variant::PVariant(_) => VT_PVARIANT,
            Variant::ByRef(_) => VT_BYREF,
            Variant::Char(_) => VT_I1,
            Variant::UShort(_) => VT_UI2,
            Variant::ULong(_) => VT_UI4,
            Variant::ULongLong(_) => VT_UI8,
            Variant::Int(_) => VT_INT,
            Variant::UInt(_) => VT_UINT,
            Variant::PDecimal(_) => VT_PDECIMAL,
            Variant::PChar(_) => VT_PCHAR,
            Variant::PUShort(_) => VT_PUSHORT,
            Variant::PULong(_) => VT_PULONG,
            Variant::PULongLong(_) => VT_PULONGLONG,
            Variant::PInt(_) => VT_PINT,
            Variant::PUInt(_) => VT_PUINT,
            Variant::Decimal(_) => VT_DECIMAL,
            Variant::Empty => VT_EMPTY,
            Variant::Null => VT_NULL,
        }
    }

    /// Encodes this value as the raw tagged union record: the tag of the
    /// active arm, clear reserved words, and the payload member the tag
    /// selects. A string arm allocates a fresh foreign buffer; a
    /// by-reference arm hands over its owned cell; an array arm encodes
    /// the whole array.
    pub fn into_c_variant(&self) -> (r: CVariant)
        requires
            fits_wire(self.deep_view()),
        ensures
            r.deep_view() == spec_wire_of(self.deep_view()),
        decreases self,
    {
        let vt = self.vartype();
        let payload: WirePayload = match self {
            Variant::LongLong(x) => WirePayload::LlVal(*x),
            Variant::Long(x) => WirePayload::LVal(*x),
            Variant::Byte(x) => WirePayload::BVal(*x),
            Variant::Short(x) => WirePayload::IVal(*x),
            Variant::Float(x) => WirePayload::FltVal(*x),
            Variant::Double(x) => WirePayload::DblVal(*x),
            Variant::Bool(b) => WirePayload::BoolVal(
                if *b {
                    VARIANT_TRUE
                } else {
                    VARIANT_FALSE
                },
            ),
            Variant::ErrorCode(c) => WirePayload::Scode(c.0),
            Variant::Currency(c) => WirePayload::CyVal(c.0),
            Variant::Date(d) => WirePayload::DateVal(d.0),
            Variant::BString(s) => WirePayload::BstrVal(BString::from_str(s.as_str()).as_sys()),
            Variant::Unknown(p) => WirePayload::PunkVal(p.ptr),
            Variant::Dispatch(p) => WirePayload::PdispVal(p.ptr),
            Variant::Array(a) => {
                proof {
                    assert(decreases_to!(*self => *a));
                }
                WirePayload::Parray(a.to_wire())
            },
            Variant::PByte(b) => WirePayload::BVal(**b),
            Variant::PShort(b) => WirePayload::IVal(**b),
            Variant::PLong(b) => WirePayload::LVal(**b),
            Variant::PLongLong(b) => WirePayload::LlVal(**b),
            Variant::PFloat(b) => WirePayload::FltVal(**b),
            Variant::PDouble(b) => WirePayload::DblVal(**b),
            Variant::PBool(b) => WirePayload::BoolVal(
                if **b {
                    VARIANT_TRUE
                } else {
                    VARIANT_FALSE
                },
            ),
            Variant::PErrorCode(b) => WirePayload::Scode((**b).0),
            Variant::PCurrency(b) => WirePayload::CyVal((**b).0),
            Variant::PDate(b) => WirePayload::DateVal((**b).0),
            Variant::PBString(b) => WirePayload::BstrVal(
                BString::from_str((**b).as_str()).as_sys(),
            ),
            Variant::PUnknown(b) => WirePayload::PunkVal((**b).ptr),
            Variant::PDispatch(b) => WirePayload::PdispVal((**b).ptr),
            Variant::PArray(b) => {
                proof {
                    assert(decreases_to!(*self => **b));
                }
                WirePayload::Parray((**b).to_wire())
            },
            Variant::PVariant(b) => {
                proof {
                    assert(decreases_to!(*self => **b));
                }
                WirePayload::PvarVal(Box::new((**b).into_c_variant()))
            },
            Variant::ByRef(p) => WirePayload::Byref(*p),
            Variant::Char(x) => WirePayload::CVal(*x),
            Variant::UShort(x) => WirePayload::UiVal(*x),
            Variant::ULong(x) => WirePayload::UlVal(*x),
            Variant::ULongLong(x) => WirePayload::UllVal(*x),
            Variant::Int(x) => WirePayload::IntVal(x.0),
            Variant::UInt(x) => WirePayload::UintVal(x.0),
            Variant::PDecimal(b) => WirePayload::DecVal(**b),
            Variant::PChar(b) => WirePayload::CVal(**b),
            Variant::PUShort(b) => WirePayload::UiVal(**b),
            Variant::PULong(b) => WirePayload::UlVal(**b),
            Variant::PULongLong(b) => WirePayload::UllVal(**b),
            Variant::PInt(b) => WirePayload::IntVal((**b).0),
            Variant::PUInt(b) => WirePayload::UintVal((**b).0),
            Variant::Decimal(d) => WirePayload::DecVal(*d),
            Variant::Empty => WirePayload::Nothing,
            Variant::Null => WirePayload::Nothing,
        };
        CVariant { vt, reserved1: 0, reserved2: 0, reserved3: 0, payload }
    }

    /// Decodes a raw tagged union record into the matching variant arm,
    /// dispatching on the tag. An unrecognized tag, or a payload member
    /// that does not agree with the tag, is answered with a typed error.
    /// A by-reference payload's cell is copied and boxed; the empty and
    /// null tags read no payload at all.
    pub fn from_c_variant(w: &CVariant) -> (r: Result<Variant, ClrError>)
        ensures
            r matches Ok(v) ==> spec_variant_of(w.deep_view()) == Ok::<VariantView, ClrError>(
                v.deep_view(),
            ),
            r matches Err(e) ==> spec_variant_of(w.deep_view()) == Err::<VariantView, ClrError>(e),
        decreases w,
    {
        if w.vt == VT_I8 {
            match &w.payload {
                WirePayload::LlVal(x) => Ok(Variant::LongLong(*x)),
                _ => Err(ClrError::Conversion { source: SourceLocation::VariantDecode }),
            }
        } else if w.vt == VT_I4 {
            match &w.payload {
                WirePayload::LVal(x) => Ok(Variant::Long(*x)),
                _ => Err(ClrError::Conversion { source: SourceLocation::VariantDecode }),
            }
        } else if w.vt == VT_UI1 {
            match &w.payload {
                WirePayload::BVal(x) => Ok(Variant::Byte(*x)),
                _ => Err(ClrError::Conversion { source: SourceLocation::VariantDecode }),
            }
        } else if w.vt == VT_I2 {
            match &w.payload {
                WirePayload::IVal(x) => Ok(Variant::Short(*x)),
                _ => Err(ClrError::Conversion { source: SourceLocation::VariantDecode }),
            }
        } else if w.vt == VT_R4 {
            match &w.payload {
                WirePayload::FltVal(x) => Ok(Variant::Float(*x)),
                _ => Err(ClrError::Conversion { source: SourceLocation::VariantDecode }),
            }
        } else if w.vt == VT_R8 {
            match &w.payload {
                WirePayload::DblVal(x) => Ok(Variant::Double(*x)),
                _ => Err(ClrError::Conversion { source: SourceLocation::VariantDecode }),
            }
        } else if w.vt == VT_BOOL {
            match &w.payload {
                WirePayload::BoolVal(x) => Ok(Variant::Bool(*x == VARIANT_TRUE)),
                _ => Err(ClrError::Conversion { source: SourceLocation::VariantDecode }),
            }
        } else if w.vt == VT_ERROR {
            match &w.payload {
                WirePayload::Scode(x) => Ok(Variant::ErrorCode(SCode(*x))),
                _ => Err(ClrError::Conversion { source: SourceLocation::VariantDecode }),
            }
        } else if w.vt == VT_CY {
            match &w.payload {
                WirePayload::CyVal(x) => Ok(Variant::Currency(Currency(*x))),
                _ => Err(ClrError::Conversion { source: SourceLocation::VariantDecode }),
            }
        } else if w.vt == VT_DATE {
            match &w.payload {
                WirePayload::DateVal(x) => Ok(Variant::Date(Date(*x))),
                _ => Err(ClrError::Conversion { source: SourceLocation::VariantDecode }),
            }
        } else if w.vt == VT_BSTR {
            match &w.payload {
                WirePayload::BstrVal(b) => Ok(Variant::BString(BString::from_ptr_safe(b).to_string())),
                _ => Err(ClrError::Conversion { source: SourceLocation::VariantDecode }),
            }
        } else if w.vt == VT_UNKNOWN {
            match &w.payload {
                WirePayload::PunkVal(p) => Ok(Variant::Unknown(WrappedUnknown { ptr: *p })),
                _ => Err(ClrError::Conversion { source: SourceLocation::VariantDecode }),
            }
        } else if w.vt == VT_DISPATCH {
            match &w.payload {
                WirePayload::PdispVal(p) => Ok(Variant::Dispatch(WrappedDispatch { ptr: *p })),
                _ => Err(ClrError::Conversion { source: SourceLocation::VariantDecode }),
            }
        } else if w.vt == VT_ARRAY {
            match &w.payload {
                WirePayload::Parray(c) => {
                    proof {
                        assert(decreases_to!(*w => w.payload));
                        assert(decreases_to!(w.payload => *c));
                    }
                    match RSafeArray::from_wire(c) {
                        Ok(a) => Ok(Variant::Array(a)),
                        Err(e) => Err(e),
                    }
                },
                _ => Err(ClrError::Conversion { source: SourceLocation::VariantDecode }),
            }
        } else if w.vt == VT_PBYTE {
            match &w.payload {
                WirePayload::BVal(x) => Ok(Variant::PByte(Box::new(*x))),
                _ => Err(ClrError::Conversion { source: SourceLocation::VariantDecode }),
            }
        } else if w.vt == VT_PSHORT {
            match &w.payload {
                WirePayload::IVal(x) => Ok(Variant::PShort(Box::new(*x))),
                _ => Err(ClrError::Conversion { source: SourceLocation::VariantDecode }),
            }
        } else if w.vt == VT_PLONG {
            match &w.payload {
                WirePayload::LVal(x) => Ok(Variant::PLong(Box::new(*x))),
                _ => Err(ClrError::Conversion { source: SourceLocation::VariantDecode }),
            }
        } else if w.vt == VT_PLONGLONG {
            match &w.payload {
                WirePayload::LlVal(x) => Ok(Variant::PLongLong(Box::new(*x))),
                _ => Err(ClrError::Conversion { source: SourceLocation::VariantDecode }),
            }
        } else if w.vt == VT_PFLOAT {
            match &w.payload {
                WirePayload::FltVal(x) => Ok(Variant::PFloat(Box::new(*x))),
                _ => Err(ClrError::Conversion { source: SourceLocation::VariantDecode }),
            }
        } else if w.vt == VT_PDOUBLE {
            match &w.payload {
                WirePayload::DblVal(x) => Ok(Variant::PDouble(Box::new(*x))),
                _ => Err(ClrError::Conversion { source: SourceLocation::VariantDecode }),
            }
        } else if w.vt == VT_PBOOL {
            match &w.payload {
                WirePayload::BoolVal(x) => Ok(Variant::PBool(Box::new(*x == VARIANT_TRUE))),
                _ => Err(ClrError::Conversion { source: SourceLocation::VariantDecode }),
            }
        } else if w.vt == VT_PERROR {
            match &w.payload {
                WirePayload::Scode(x) => Ok(Variant::PErrorCode(Box::new(SCode(*x)))),
                _ => Err(ClrError::Conversion { source: SourceLocation::VariantDecode }),
            }
        } else if w.vt == VT_PCY {
            match &w.payload {
                WirePayload::CyVal(x) => Ok(Variant::PCurrency(Box::new(Currency(*x)))),
                _ => Err(ClrError::Conversion { source: SourceLocation::VariantDecode }),
            }
        } else if w.vt == VT_PDATE {
            match &w.payload {
                WirePayload::DateVal(x) => Ok(Variant::PDate(Box::new(Date(*x)))),
                _ => Err(ClrError::Conversion { source: SourceLocation::VariantDecode }),
            }
        } else if w.vt == VT_PBSTR {
            match &w.payload {
                WirePayload::BstrVal(b) => Ok(Variant::PBString(Box::new(BString::from_ptr_safe(b).to_string()))),
                _ => Err(ClrError::Conversion { source: SourceLocation::VariantDecode }),
            }
        } else if w.vt == VT_PUNKNOWN {
            match &w.payload {
                WirePayload::PunkVal(p) => Ok(Variant::PUnknown(Box::new(WrappedUnknown { ptr: *p }))),
                _ => Err(ClrError::Conversion { source: SourceLocation::VariantDecode }),
            }
        } else if w.vt == VT_PDISPATCH {
            match &w.payload {
                WirePayload::PdispVal(p) => Ok(Variant::PDispatch(Box::new(WrappedDispatch { ptr: *p }))),
                _ => Err(ClrError::Conversion { source: SourceLocation::VariantDecode }),
            }
        } else if w.vt == VT_PARRAY {
            match &w.payload {
                WirePayload::Parray(c) => {
                    proof {
                        assert(decreases_to!(*w => w.payload));
                        assert(decreases_to!(w.payload => *c));
                    }
                    match RSafeArray::from_wire(c) {
                        Ok(a) => Ok(Variant::PArray(Box::new(a))),
                        Err(e) => Err(e),
                    }
                },
                _ => Err(ClrError::Conversion { source: SourceLocation::VariantDecode }),
            }
        } else if w.vt == VT_PVARIANT {
            match &w.payload {
                WirePayload::PvarVal(b) => {
                    proof {
                        assert(decreases_to!(*w => w.payload));
                        assert(decreases_to!(w.payload => **b));
                    }
                    match Variant::from_c_variant(&**b) {
                        Ok(v) => Ok(Variant::PVariant(Box::new(v))),
                        Err(e) => Err(e),
                    }
                },
                _ => Err(ClrError::Conversion { source: SourceLocation::VariantDecode }),
            }
        } else if w.vt == VT_BYREF {
            match &w.payload {
                WirePayload::Byref(p) => Ok(Variant::ByRef(*p)),
                _ => Err(ClrError::Conversion { source: SourceLocation::VariantDecode }),
            }
        } else if w.vt == VT_I1 {
            match &w.payload {
                WirePayload::CVal(x) => Ok(Variant::Char(*x)),
                _ => Err(ClrError::Conversion { source: SourceLocation::VariantDecode }),
            }
        } else if w.vt == VT_UI2 {
            match &w.payload {
                WirePayload::UiVal(x) => Ok(Variant::UShort(*x)),
                _ => Err(ClrError::Conversion { source: SourceLocation::VariantDecode }),
            }
        } else if w.vt == VT_UI4 {
            match &w.payload {
                WirePayload::UlVal(x) => Ok(Variant::ULong(*x)),
                _ => Err(ClrError::Conversion { source: SourceLocation::VariantDecode }),
            }
        } else if w.vt == VT_UI8 {
            match &w.payload {
                WirePayload::UllVal(x) => Ok(Variant::ULongLong(*x)),
                _ => Err(ClrError::Conversion { source: SourceLocation::VariantDecode }),
            }
        } else if w.vt == VT_INT {
            match &w.payload {
                WirePayload::IntVal(x) => Ok(Variant::Int(Int(*x))),
                _ => Err(ClrError::Conversion { source: SourceLocation::VariantDecode }),
            }
        } else if w.vt == VT_UINT {
            match &w.payload {
                WirePayload::UintVal(x) => Ok(Variant::UInt(UInt(*x))),
                _ => Err(ClrError::Conversion { source: SourceLocation::VariantDecode }),
            }
        } else if w.vt == VT_PDECIMAL {
            match &w.payload {
                WirePayload::DecVal(d) => Ok(Variant::PDecimal(Box::new(*d))),
                _ => Err(ClrError::Conversion { source: SourceLocation::VariantDecode }),
            }
        } else if w.vt == VT_PCHAR {
            match &w.payload {
                WirePayload::CVal(x) => Ok(Variant::PChar(Box::new(*x))),
                _ => Err(ClrError::Conversion { source: SourceLocation::VariantDecode }),
            }
        } else if w.vt == VT_PUSHORT {
            match &w.payload {
                WirePayload::UiVal(x) => Ok(Variant::PUShort(Box::new(*x))),
                _ => Err(ClrError::Conversion { source: SourceLocation::VariantDecode }),
            }
        } else if w.vt == VT_PULONG {
            match &w.payload {
                WirePayload::UlVal(x) => Ok(Variant::PULong(Box::new(*x))),
                _ => Err(ClrError::Conversion { source: SourceLocation::VariantDecode }),
            }
        } else if w.vt == VT_PULONGLONG {
            match &w.payload {
                WirePayload::UllVal(x) => Ok(Variant::PULongLong(Box::new(*x))),
                _ => Err(ClrError::Conversion { source: SourceLocation::VariantDecode }),
            }
        } else if w.vt == VT_PINT {
            match &w.payload {
                WirePayload::IntVal(x) => Ok(Variant::PInt(Box::new(Int(*x)))),
                _ => Err(ClrError::Conversion { source: SourceLocation::VariantDecode }),
            }
        } else if w.vt == VT_PUINT {
            match &w.payload {
                WirePayload::UintVal(x) => Ok(Variant::PUInt(Box::new(UInt(*x)))),
                _ => Err(ClrError::Conversion { source: SourceLocation::VariantDecode }),
            }
        } else if w.vt == VT_DECIMAL {
            match &w.payload {
                WirePayload::DecVal(d) => Ok(Variant::Decimal(*d)),
                _ => Err(ClrError::Conversion { source: SourceLocation::VariantDecode }),
            }
        } else if w.vt == VT_EMPTY {
            Ok(Variant::Empty)
        } else if w.vt == VT_NULL {
            Ok(Variant::Null)
        } else {
            Err(ClrError::UnsupportedVartype { vt: w.vt })
        }
    }
}


/// Each host value lifts into the variant arm of its kind.
impl From<i64> for Variant {
    fn from(in_value: i64) -> (r: Variant) {
        Variant::LongLong(in_value)
    }
}

impl vstd::std_specs::convert::FromSpecImpl<i64> for Variant {
    open spec fn obeys_from_spec() -> bool {
        true
    }

    open spec fn from_spec(in_value: i64) -> Variant {
        Variant::LongLong(in_value)
    }
}

impl From<i32> for Variant {
    fn from(in_value: i32) -> (r: Variant) {
        Variant::Long(in_value)
    }
}

impl vstd::std_specs::convert::FromSpecImpl<i32> for Variant {
    open spec fn obeys_from_spec() -> bool {
        true
    }

    open spec fn from_spec(in_value: i32) -> Variant {
        Variant::Long(in_value)
    }
}

impl From<u8> for Variant {
    fn from(in_value: u8) -> (r: Variant) {
        Variant::Byte(in_value)
    }
}

impl vstd::std_specs::convert::FromSpecImpl<u8> for Variant {
    open spec fn obeys_from_spec() -> bool {
        true
    }

    open spec fn from_spec(in_value: u8) -> Variant {
        Variant::Byte(in_value)
    }
}

impl From<i16> for Variant {
    fn from(in_value: i16) -> (r: Variant) {
        Variant::Short(in_value)
    }
}

impl vstd::std_specs::convert::FromSpecImpl<i16> for Variant {
    open spec fn obeys_from_spec() -> bool {
        true
    }

    open spec fn from_spec(in_value: i16) -> Variant {
        Variant::Short(in_value)
    }
}

impl From<bool> for Variant {
    fn from(in_value: bool) -> (r: Variant) {
        Variant::Bool(in_value)
    }
}

impl vstd::std_specs::convert::FromSpecImpl<bool> for Variant {
    open spec fn obeys_from_spec() -> bool {
        true
    }

    open spec fn from_spec(in_value: bool) -> Variant {
        Variant::Bool(in_value)
    }
}

impl From<SCode> for Variant {
    fn from(in_value: SCode) -> (r: Variant) {
        Variant::ErrorCode(in_value)
    }
}

impl vstd::std_specs::convert::FromSpecImpl<SCode> for Variant {
    open spec fn obeys_from_spec() -> bool {
        true
    }

    open spec fn from_spec(in_value: SCode) -> Variant {
        Variant::ErrorCode(in_value)
    }
}

impl From<Currency> for Variant {
    fn from(in_value: Currency) -> (r: Variant) {
        Variant::Currency(in_value)
    }
}

impl vstd::std_specs::convert::FromSpecImpl<Currency> for Variant {
    open spec fn obeys_from_spec() -> bool {
        true
    }

    open spec fn from_spec(in_value: Currency) -> Variant {
        Variant::Currency(in_value)
    }
}

impl From<Date> for Variant {
    fn from(in_value: Date) -> (r: Variant) {
        Variant::Date(in_value)
    }
}

impl vstd::std_specs::convert::FromSpecImpl<Date> for Variant {
    open spec fn obeys_from_spec() -> bool {
        true
    }

    open spec fn from_spec(in_value: Date) -> Variant {
        Variant::Date(in_value)
    }
}

impl From<String> for Variant {
    fn from(in_value: String) -> (r: Variant) {
        Variant::BString(in_value)
    }
}

impl vstd::std_specs::convert::FromSpecImpl<String> for Variant {
    open spec fn obeys_from_spec() -> bool {
        true
    }

    open spec fn from_spec(in_value: String) -> Variant {
        Variant::BString(in_value)
    }
}

impl From<WrappedUnknown> for Variant {
    fn from(in_value: WrappedUnknown) -> (r: Variant) {
        Variant::Unknown(in_value)
    }
}

impl vstd::std_specs::convert::FromSpecImpl<WrappedUnknown> for Variant {
    open spec fn obeys_from_spec() -> bool {
        true
    }

    open spec fn from_spec(in_value: WrappedUnknown) -> Variant {
        Variant::Unknown(in_value)
    }
}

impl From<WrappedDispatch> for Variant {
    fn from(in_value: WrappedDispatch) -> (r: Variant) {
        Variant::Dispatch(in_value)
    }
}

impl vstd::std_specs::convert::FromSpecImpl<WrappedDispatch> for Variant {
    open spec fn obeys_from_spec() -> bool {
        true
    }

    open spec fn from_spec(in_value: WrappedDispatch) -> Variant {
        Variant::Dispatch(in_value)
    }
}

impl From<RSafeArray> for Variant {
    fn from(in_value: RSafeArray) -> (r: Variant) {
        Variant::Array(in_value)
    }
}

impl vstd::std_specs::convert::FromSpecImpl<RSafeArray> for Variant {
    open spec fn obeys_from_spec() -> bool {
        true
    }

    open spec fn from_spec(in_value: RSafeArray) -> Variant {
        Variant::Array(in_value)
    }
}

impl From<Box<u8>> for Variant {
    fn from(in_value: Box<u8>) -> (r: Variant) {
        Variant::PByte(in_value)
    }
}

impl vstd::std_specs::convert::FromSpecImpl<Box<u8>> for Variant {
    open spec fn obeys_from_spec() -> bool {
        true
    }

    open spec fn from_spec(in_value: Box<u8>) -> Variant {
        Variant::PByte(in_value)
    }
}

impl From<Box<i16>> for Variant {
    fn from(in_value: Box<i16>) -> (r: Variant) {
        Variant::PShort(in_value)
    }
}

impl vstd::std_specs::convert::FromSpecImpl<Box<i16>> for Variant {
    open spec fn obeys_from_spec() -> bool {
        true
    }

    open spec fn from_spec(in_value: Box<i16>) -> Variant {
        Variant::PShort(in_value)
    }
}

impl From<Box<i32>> for Variant {
    fn from(in_value: Box<i32>) -> (r: Variant) {
        Variant::PLong(in_value)
    }
}

impl vstd::std_specs::convert::FromSpecImpl<Box<i32>> for Variant {
    open spec fn obeys_from_spec() -> bool {
        true
    }

    open spec fn from_spec(in_value: Box<i32>) -> Variant {
        Variant::PLong(in_value)
    }
}

impl From<Box<i64>> for Variant {
    fn from(in_value: Box<i64>) -> (r: Variant) {
        Variant::PLongLong(in_value)
    }
}

impl vstd::std_specs::convert::FromSpecImpl<Box<i64>> for Variant {
    open spec fn obeys_from_spec() -> bool {
        true
    }

    open spec fn from_spec(in_value: Box<i64>) -> Variant {
        Variant::PLongLong(in_value)
    }
}

impl From<Box<bool>> for Variant {
    fn from(in_value: Box<bool>) -> (r: Variant) {
        Variant::PBool(in_value)
    }
}

impl vstd::std_specs::convert::FromSpecImpl<Box<bool>> for Variant {
    open spec fn obeys_from_spec() -> bool {
        true
    }

    open spec fn from_spec(in_value: Box<bool>) -> Variant {
        Variant::PBool(in_value)
    }
}

impl From<Box<SCode>> for Variant {
    fn from(in_value: Box<SCode>) -> (r: Variant) {
        Variant::PErrorCode(in_value)
    }
}

impl vstd::std_specs::convert::FromSpecImpl<Box<SCode>> for Variant {
    open spec fn obeys_from_spec() -> bool {
        true
    }

    open spec fn from_spec(in_value: Box<SCode>) -> Variant {
        Variant::PErrorCode(in_value)
    }
}

impl From<Box<Currency>> for Variant {
    fn from(in_value: Box<Currency>) -> (r: Variant) {
        Variant::PCurrency(in_value)
    }
}

impl vstd::std_specs::convert::FromSpecImpl<Box<Currency>> for Variant {
    open spec fn obeys_from_spec() -> bool {
        true
    }

    open spec fn from_spec(in_value: Box<Currency>) -> Variant {
        Variant::PCurrency(in_value)
    }
}

impl From<Box<Date>> for Variant {
    fn from(in_value: Box<Date>) -> (r: Variant) {
        Variant::PDate(in_value)
    }
}

impl vstd::std_specs::convert::FromSpecImpl<Box<Date>> for Variant {
    open spec fn obeys_from_spec() -> bool {
        true
    }

    open spec fn from_spec(in_value: Box<Date>) -> Variant {
        Variant::PDate(in_value)
    }
}

impl From<Box<String>> for Variant {
    fn from(in_value: Box<String>) -> (r: Variant) {
        Variant::PBString(in_value)
    }
}

impl vstd::std_specs::convert::FromSpecImpl<Box<String>> for Variant {
    open spec fn obeys_from_spec() -> bool {
        true
    }

    open spec fn from_spec(in_value: Box<String>) -> Variant {
        Variant::PBString(in_value)
    }
}

impl From<Box<WrappedUnknown>> for Variant {
    fn from(in_value: Box<WrappedUnknown>) -> (r: Variant) {
        Variant::PUnknown(in_value)
    }
}

impl vstd::std_specs::convert::FromSpecImpl<Box<WrappedUnknown>> for Variant {
    open spec fn obeys_from_spec() -> bool {
        true
    }

    open spec fn from_spec(in_value: Box<WrappedUnknown>) -> Variant {
        Variant::PUnknown(in_value)
    }
}

impl From<Box<WrappedDispatch>> for Variant {
    fn from(in_value: Box<WrappedDispatch>) -> (r: Variant) {
        Variant::PDispatch(in_value)
    }
}

impl vstd::std_specs::convert::FromSpecImpl<Box<WrappedDispatch>> for Variant {
    open spec fn obeys_from_spec() -> bool {
        true
    }

    open spec fn from_spec(in_value: Box<WrappedDispatch>) -> Variant {
        Variant::PDispatch(in_value)
    }
}

impl From<Box<RSafeArray>> for Variant {
    fn from(in_value: Box<RSafeArray>) -> (r: Variant) {
        Variant::PArray(in_value)
    }
}

impl vstd::std_specs::convert::FromSpecImpl<Box<RSafeArray>> for Variant {
    open spec fn obeys_from_spec() -> bool {
        true
    }

    open spec fn from_spec(in_value: Box<RSafeArray>) -> Variant {
        Variant::PArray(in_value)
    }
}

impl From<Box<Variant>> for Variant {
    fn from(in_value: Box<Variant>) -> (r: Variant) {
        Variant::PVariant(in_value)
    }
}

impl vstd::std_specs::convert::FromSpecImpl<Box<Variant>> for Variant {
    open spec fn obeys_from_spec() -> bool {
        true
    }

    open spec fn from_spec(in_value: Box<Variant>) -> Variant {
        Variant::PVariant(in_value)
    }
}

impl From<usize> for Variant {
    fn from(in_value: usize) -> (r: Variant) {
        Variant::ByRef(in_value)
    }
}

impl vstd::std_specs::convert::FromSpecImpl<usize> for Variant {
    open spec fn obeys_from_spec() -> bool {
        true
    }

    open spec fn from_spec(in_value: usize) -> Variant {
        Variant::ByRef(in_value)
    }
}

impl From<i8> for Variant {
    fn from(in_value: i8) -> (r: Variant) {
        Variant::Char(in_value)
    }
}

impl vstd::std_specs::convert::FromSpecImpl<i8> for Variant {
    open spec fn obeys_from_spec() -> bool {
        true
    }

    open spec fn from_spec(in_value: i8) -> Variant {
        Variant::Char(in_value)
    }
}

impl From<u16> for Variant {
    fn from(in_value: u16) -> (r: Variant) {
        Variant::UShort(in_value)
    }
}

impl vstd::std_specs::convert::FromSpecImpl<u16> for Variant {
    open spec fn obeys_from_spec() -> bool {
        true
    }

    open spec fn from_spec(in_value: u16) -> Variant {
        Variant::UShort(in_value)
    }
}

impl From<u32> for Variant {
    fn from(in_value: u32) -> (r: Variant) {
        Variant::ULong(in_value)
    }
}

impl vstd::std_specs::convert::FromSpecImpl<u32> for Variant {
    open spec fn obeys_from_spec() -> bool {
        true
    }

    open spec fn from_spec(in_value: u32) -> Variant {
        Variant::ULong(in_value)
    }
}

impl From<u64> for Variant {
    fn from(in_value: u64) -> (r: Variant) {
        Variant::ULongLong(in_value)
    }
}

impl vstd::std_specs::convert::FromSpecImpl<u64> for Variant {
    open spec fn obeys_from_spec() -> bool {
        true
    }

    open spec fn from_spec(in_value: u64) -> Variant {
        Variant::ULongLong(in_value)
    }
}

impl From<Int> for Variant {
    fn from(in_value: Int) -> (r: Variant) {
        Variant::Int(in_value)
    }
}

impl vstd::std_specs::convert::FromSpecImpl<Int> for Variant {
    open spec fn obeys_from_spec() -> bool {
        true
    }

    open spec fn from_spec(in_value: Int) -> Variant {
        Variant::Int(in_value)
    }
}

impl From<UInt> for Variant {
    fn from(in_value: UInt) -> (r: Variant) {
        Variant::UInt(in_value)
    }
}

impl vstd::std_specs::convert::FromSpecImpl<UInt> for Variant {
    open spec fn obeys_from_spec() -> bool {
        true
    }

    open spec fn from_spec(in_value: UInt) -> Variant {
        Variant::UInt(in_value)
    }
}

impl From<Box<Decimal96>> for Variant {
    fn from(in_value: Box<Decimal96>) -> (r: Variant) {
        Variant::PDecimal(in_value)
    }
}

impl vstd::std_specs::convert::FromSpecImpl<Box<Decimal96>> for Variant {
    open spec fn obeys_from_spec() -> bool {
        true
    }

    open spec fn from_spec(in_value: Box<Decimal96>) -> Variant {
        Variant::PDecimal(in_value)
    }
}

impl From<Box<i8>> for Variant {
    fn from(in_value: Box<i8>) -> (r: Variant) {
        Variant::PChar(in_value)
    }
}

impl vstd::std_specs::convert::FromSpecImpl<Box<i8>> for Variant {
    open spec fn obeys_from_spec() -> bool {
        true
    }

    open spec fn from_spec(in_value: Box<i8>) -> Variant {
        Variant::PChar(in_value)
    }
}

impl From<Box<u16>> for Variant {
    fn from(in_value: Box<u16>) -> (r: Variant) {
        Variant::PUShort(in_value)
    }
}

impl vstd::std_specs::convert::FromSpecImpl<Box<u16>> for Variant {
    open spec fn obeys_from_spec() -> bool {
        true
    }

    open spec fn from_spec(in_value: Box<u16>) -> Variant {
        Variant::PUShort(in_value)
    }
}

impl From<Box<u32>> for Variant {
    fn from(in_value: Box<u32>) -> (r: Variant) {
        Variant::PULong(in_value)
    }
}

impl vstd::std_specs::convert::FromSpecImpl<Box<u32>> for Variant {
    open spec fn obeys_from_spec() -> bool {
        true
    }

    open spec fn from_spec(in_value: Box<u32>) -> Variant {
        Variant::PULong(in_value)
    }
}

impl From<Box<u64>> for Variant {
    fn from(in_value: Box<u64>) -> (r: Variant) {
        Variant::PULongLong(in_value)
    }
}

impl vstd::std_specs::convert::FromSpecImpl<Box<u64>> for Variant {
    open spec fn obeys_from_spec() -> bool {
        true
    }

    open spec fn from_spec(in_value: Box<u64>) -> Variant {
        Variant::PULongLong(in_value)
    }
}

impl From<Box<Int>> for Variant {
    fn from(in_value: Box<Int>) -> (r: Variant) {
        Variant::PInt(in_value)
    }
}

impl vstd::std_specs::convert::FromSpecImpl<Box<Int>> for Variant {
    open spec fn obeys_from_spec() -> bool {
        true
    }

    open spec fn from_spec(in_value: Box<Int>) -> Variant {
        Variant::PInt(in_value)
    }
}

impl From<Box<UInt>> for Variant {
    fn from(in_value: Box<UInt>) -> (r: Variant) {
        Variant::PUInt(in_value)
    }
}

impl vstd::std_specs::convert::FromSpecImpl<Box<UInt>> for Variant {
    open spec fn obeys_from_spec() -> bool {
        true
    }

    open spec fn from_spec(in_value: Box<UInt>) -> Variant {
        Variant::PUInt(in_value)
    }
}

impl From<Decimal96> for Variant {
    fn from(in_value: Decimal96) -> (r: Variant) {
        Variant::Decimal(in_value)
    }
}

impl vstd::std_specs::convert::FromSpecImpl<Decimal96> for Variant {
    open spec fn obeys_from_spec() -> bool {
        true
    }

    open spec fn from_spec(in_value: Decimal96) -> Variant {
        Variant::Decimal(in_value)
    }
}

} // verus!
