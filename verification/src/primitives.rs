//! The wire type tags of the foreign ABI, and the host primitives that map
//! onto them.

use vstd::prelude::*;

verus! {

/// Wire tag: no value.
pub const VT_EMPTY: u16 = 0;
/// Wire tag: the typed null value.
pub const VT_NULL: u16 = 1;
/// Wire tag: signed 16-bit integer.
pub const VT_I2: u16 = 2;
/// Wire tag: signed 32-bit integer.
pub const VT_I4: u16 = 3;
/// Wire tag: 32-bit floating point.
pub const VT_R4: u16 = 4;
/// Wire tag: 64-bit floating point.
pub const VT_R8: u16 = 5;
/// Wire tag: currency, a 64-bit fixed-point value.
pub const VT_CY: u16 = 6;
/// Wire tag: date, a floating-point epoch day.
pub const VT_DATE: u16 = 7;
/// Wire tag: the foreign string buffer.
pub const VT_BSTR: u16 = 8;
/// Wire tag: dispatch-capable interface pointer.
pub const VT_DISPATCH: u16 = 9;
/// Wire tag: error code.
pub const VT_ERROR: u16 = 10;
/// Wire tag: boolean, with an all-ones sentinel for true.
pub const VT_BOOL: u16 = 11;
/// Wire tag: a nested tagged value.
pub const VT_VARIANT: u16 = 12;
/// Wire tag: base interface pointer.
pub const VT_UNKNOWN: u16 = 13;
/// Wire tag: the decimal wire struct.
pub const VT_DECIMAL: u16 = 14;
/// Wire tag: signed 8-bit integer.
pub const VT_I1: u16 = 16;
/// Wire tag: unsigned 8-bit integer.
pub const VT_UI1: u16 = 17;
/// Wire tag: unsigned 16-bit integer.
pub const VT_UI2: u16 = 18;
/// Wire tag: unsigned 32-bit integer.
pub const VT_UI4: u16 = 19;
/// Wire tag: signed 64-bit integer.
pub const VT_I8: u16 = 20;
/// Wire tag: unsigned 64-bit integer.
pub const VT_UI8: u16 = 21;
/// Wire tag: platform signed integer.
pub const VT_INT: u16 = 22;
/// Wire tag: platform unsigned integer.
pub const VT_UINT: u16 = 23;
/// Wire tag: no type at all.
pub const VT_VOID: u16 = 24;
/// Wire tag: a typed pointer.
pub const VT_PTR: u16 = 26;
/// Wire tag: a narrow nul-terminated string.
pub const VT_LPSTR: u16 = 30;
/// Wire tag: a wide nul-terminated string.
pub const VT_LPWSTR: u16 = 31;
/// Wire tag: platform-width signed integer pointer.
pub const VT_INT_PTR: u16 = 37;
/// Wire tag: platform-width unsigned integer pointer.
pub const VT_UINT_PTR: u16 = 38;
/// Wire tag: a class identifier.
pub const VT_CLSID: u16 = 72;
/// Wire tag modifier: the payload is a safe array.
pub const VT_ARRAY: u16 = 0x2000;
/// Wire tag modifier: the payload is a pointer to the tagged kind.
pub const VT_BYREF: u16 = 0x4000;

/// The boolean wire type's sentinel for true: all ones, not 1.
pub const VARIANT_TRUE: i16 = -1;
/// The boolean wire type's value for false: all zeros.
pub const VARIANT_FALSE: i16 = 0;

/// The closed set of host primitives that have a wire tag of their own.
#[derive(Debug, Clone, Copy, PartialEq, Eq, Structural)]
pub enum Primitives {
    I16,
    I32,
    F32,
    F64,
    Currency,
    Date,
    ErrorCode,
    Bool,
    Decimal,
    Char,
    UChar,
    U16,
    U32,
    I64,
    U64,
    Void,
    Ptr,
    CNulTermString,
    CWideNulTermString,
    IntPtr,
    UIntPtr,
    ClassId,
    ByRef,
}

/// The wire tag of each host primitive kind.
pub open spec fn spec_primitive_vartype(p: Primitives) -> u16 {
    match p {
        Primitives::I16 => VT_I2,
        Primitives::I32 => VT_I4,
        Primitives::F32 => VT_R4,
        Primitives::F64 => VT_R8,
        Primitives::Currency => VT_CY,
        Primitives::Date => VT_DATE,
        Primitives::ErrorCode => VT_ERROR,
        Primitives::Bool => VT_BOOL,
        Primitives::Decimal => VT_DECIMAL,
        Primitives::Char => VT_I1,
        Primitives::UChar => VT_UI1,
        Primitives::U16 => VT_UI2,
        Primitives::U32 => VT_UI4,
        Primitives::I64 => VT_I8,
        Primitives::U64 => VT_UI8,
        Primitives::Void => VT_VOID,
        Primitives::Ptr => VT_PTR,
        Primitives::CNulTermString => VT_LPSTR,
        Primitives::CWideNulTermString => VT_LPWSTR,
        Primitives::IntPtr => VT_INT_PTR,
        Primitives::UIntPtr => VT_UINT_PTR,
        Primitives::ClassId => VT_CLSID,
        Primitives::ByRef => VT_BYREF,
    }
}

impl From<Primitives> for u16 {
    fn from(p: Primitives) -> (t: u16) {
        match p {
            Primitives::I16 => VT_I2,
            Primitives::I32 => VT_I4,
            Primitives::F32 => VT_R4,
            Primitives::F64 => VT_R8,
            Primitives::Currency => VT_CY,
            Primitives::Date => VT_DATE,
            Primitives::ErrorCode => VT_ERROR,
            Primitives::Bool => VT_BOOL,
            Primitives::Decimal => VT_DECIMAL,
            Primitives::Char => VT_I1,
            Primitives::UChar => VT_UI1,
            Primitives::U16 => VT_UI2,
            Primitives::U32 => VT_UI4,
            Primitives::I64 => VT_I8,
            Primitives::U64 => VT_UI8,
            Primitives::Void => VT_VOID,
            Primitives::Ptr => VT_PTR,
            Primitives::CNulTermString => VT_LPSTR,
            Primitives::CWideNulTermString => VT_LPWSTR,
            Primitives::IntPtr => VT_INT_PTR,
            Primitives::UIntPtr => VT_UINT_PTR,
            Primitives::ClassId => VT_CLSID,
            Primitives::ByRef => VT_BYREF,
        }
    }
}

impl vstd::std_specs::convert::FromSpecImpl<Primitives> for u16 {
    open spec fn obeys_from_spec() -> bool {
        true
    }

    open spec fn from_spec(p: Primitives) -> u16 {
        spec_primitive_vartype(p)
    }
}

/// A host value that stands for exactly one wire primitive kind.
pub trait Primitive {
    type Target;

    /// The value `get` hands out.
    spec fn spec_get(&self) -> Self::Target;

    /// The wire primitive kind this type stands for.
    spec fn spec_prim_type() -> Primitives;

    /// A borrow of the wrapped value.
    fn get(&self) -> (r: &Self::Target)
        ensures
            *r == self.spec_get(),
    ;

    /// The wire primitive kind of this value.
    fn prim_type(&self) -> (r: Primitives)
        ensures
            r == Self::spec_prim_type(),
    ;
}

impl Primitive for i16 {
    type Target = i16;

    open spec fn spec_get(&self) -> i16 {
        *self
    }

    open spec fn spec_prim_type() -> Primitives {
        Primitives::I16
    }

    fn get(&self) -> (r: &i16) {
        self
    }

    fn prim_type(&self) -> (r: Primitives) {
        Primitives::I16
    }
}

impl Primitive for i32 {
    type Target = i32;

    open spec fn spec_get(&self) -> i32 {
        *self
    }

    open spec fn spec_prim_type() -> Primitives {
        Primitives::I32
    }

    fn get(&self) -> (r: &i32) {
        self
    }

    fn prim_type(&self) -> (r: Primitives) {
        Primitives::I32
    }
}

impl Primitive for u16 {
    type Target = u16;

    open spec fn spec_get(&self) -> u16 {
        *self
    }

    open spec fn spec_prim_type() -> Primitives {
        Primitives::U16
    }

    fn get(&self) -> (r: &u16) {
        self
    }

    fn prim_type(&self) -> (r: Primitives) {
        Primitives::U16
    }
}

impl Primitive for u32 {
    type Target = u32;

    open spec fn spec_get(&self) -> u32 {
        *self
    }

    open spec fn spec_prim_type() -> Primitives {
        Primitives::U32
    }

    fn get(&self) -> (r: &u32) {
        self
    }

    fn prim_type(&self) -> (r: Primitives) {
        Primitives::U32
    }
}

impl Primitive for i64 {
    type Target = i64;

    open spec fn spec_get(&self) -> i64 {
        *self
    }

    open spec fn spec_prim_type() -> Primitives {
        Primitives::I64
    }

    fn get(&self) -> (r: &i64) {
        self
    }

    fn prim_type(&self) -> (r: Primitives) {
        Primitives::I64
    }
}

impl Primitive for u64 {
    type Target = u64;

    open spec fn spec_get(&self) -> u64 {
        *self
    }

    open spec fn spec_prim_type() -> Primitives {
        Primitives::U64
    }

    fn get(&self) -> (r: &u64) {
        self
    }

    fn prim_type(&self) -> (r: Primitives) {
        Primitives::U64
    }
}

} // verus!
