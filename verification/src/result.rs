//! Typed errors of the marshaling layer.
//!
//! Every failed foreign call is reported with the raw status code and a
//! symbolic tag naming the call site, so that an ABI mismatch can be
//! diagnosed from the error alone.

use vstd::prelude::*;

verus! {

/// Status code 0x00000000: success.
pub const S_OK: i32 = 0;
/// Status code 0x80004004: operation aborted.
pub const E_ABORT: i32 = -2147467260;
/// Status code 0x80070005: general access denied error.
pub const E_ACCESS_DENIED: i32 = -2147024891;
/// Status code 0x80004005: unspecified failure.
pub const E_FAIL: i32 = -2147467259;
/// Status code 0x80070006: invalid handle.
pub const E_HANDLE: i32 = -2147024890;
/// Status code 0x80070057: one or more arguments are invalid.
pub const E_INVALID_ARG: i32 = -2147024809;
/// Status code 0x80004002: no such interface supported.
pub const E_NO_INTERFACE: i32 = -2147467262;
/// Status code 0x80004001: not implemented.
pub const E_NOT_IMPL: i32 = -2147467263;
/// Status code 0x8007000E: failed to allocate necessary memory.
pub const E_OUT_OF_MEMORY: i32 = -2147024882;
/// Status code 0x80004003: invalid pointer.
pub const E_POINTER: i32 = -2147467261;
/// Status code 0x8000FFFF: unexpected failure.
pub const E_UNEXPECTED: i32 = -2147418113;
/// Status code 0x8002000B: array index out of bounds.
pub const DISP_E_BADINDEX: i32 = -2147352565;

/// Names the foreign interface or operation at which a failure arose.
#[derive(Debug, Clone, Copy, PartialEq, Eq, Structural)]
pub enum SourceLocation {
    SafeArrayCreate,
    SafeArrayDestroy,
    SafeArrayGetDim,
    SafeArrayGetVartype,
    SafeArrayGetLBound,
    SafeArrayGetUBound,
    SafeArrayGetElement,
    SafeArrayPutElement,
    VariantDecode,
    ArrayDecode,
}

/// Error of the marshaling layer.
///
/// `InnerCall` carries a non-zero status code returned by a foreign
/// accessor or mutator together with the call site; `Conversion` reports a
/// payload that does not agree with its tag; the two `Unsupported` variants
/// report wire shapes the layer refuses to guess at: an unrecognized tag,
/// or an array of other than one dimension.
#[derive(Debug, Clone, Copy, PartialEq, Eq, Structural)]
pub enum ClrError {
    InnerCall { hr: i32, source: SourceLocation },
    Conversion { source: SourceLocation },
    UnsupportedVartype { vt: u16 },
    UnsupportedDimensions { dims: u32 },
}

/// A raw foreign status code.
#[derive(Debug, Clone, Copy, PartialEq, Eq, Structural)]
pub struct Hresult(pub i32);

/// The well-known status codes a foreign call commonly returns.
#[derive(Debug, Clone, Copy, PartialEq, Eq, Structural)]
pub enum CommonHresultValues {
    SOk,
    EAbort,
    EAccessDenied,
    EFail,
    EHandle,
    EInvalidArg,
    ENoInterface,
    ENotImpl,
    EOutOfMemory,
    EPointer,
    EUnexpected,
    EUnknownValue,
}

/// The classification that [`CommonHresultValues::from`] performs: each
/// well-known code maps to its name, every other code to `EUnknownValue`.
pub open spec fn spec_classify_hresult(hr: i32) -> CommonHresultValues {
    if hr == S_OK {
        CommonHresultValues::SOk
    } else if hr == E_ABORT {
        CommonHresultValues::EAbort
    } else if hr == E_ACCESS_DENIED {
        CommonHresultValues::EAccessDenied
    } else if hr == E_FAIL {
        CommonHresultValues::EFail
    } else if hr == E_HANDLE {
        CommonHresultValues::EHandle
    } else if hr == E_INVALID_ARG {
        CommonHresultValues::EInvalidArg
    } else if hr == E_NO_INTERFACE {
        CommonHresultValues::ENoInterface
    } else if hr == E_NOT_IMPL {
        CommonHresultValues::ENotImpl
    } else if hr == E_OUT_OF_MEMORY {
        CommonHresultValues::EOutOfMemory
    } else if hr == E_POINTER {
        CommonHresultValues::EPointer
    } else if hr == E_UNEXPECTED {
        CommonHresultValues::EUnexpected
    } else {
        CommonHresultValues::EUnknownValue
    }
}

impl From<Hresult> for CommonHresultValues {
    fn from(hr: Hresult) -> (r: CommonHresultValues) {
        if hr.0 == S_OK {
            CommonHresultValues::SOk
        } else if hr.0 == E_ABORT {
            CommonHresultValues::EAbort
        } else if hr.0 == E_ACCESS_DENIED {
            CommonHresultValues::EAccessDenied
        } else if hr.0 == E_FAIL {
            CommonHresultValues::EFail
        } else if hr.0 == E_HANDLE {
            CommonHresultValues::EHandle
        } else if hr.0 == E_INVALID_ARG {
            CommonHresultValues::EInvalidArg
        } else if hr.0 == E_NO_INTERFACE {
            CommonHresultValues::ENoInterface
        } else if hr.0 == E_NOT_IMPL {
            CommonHresultValues::ENotImpl
        } else if hr.0 == E_OUT_OF_MEMORY {
            CommonHresultValues::EOutOfMemory
        } else if hr.0 == E_POINTER {
            CommonHresultValues::EPointer
        } else if hr.0 == E_UNEXPECTED {
            CommonHresultValues::EUnexpected
        } else {
            CommonHresultValues::EUnknownValue
        }
    }
}

impl vstd::std_specs::convert::FromSpecImpl<Hresult> for CommonHresultValues {
    open spec fn obeys_from_spec() -> bool {
        true
    }

    open spec fn from_spec(hr: Hresult) -> CommonHresultValues {
        spec_classify_hresult(hr.0)
    }
}

} // verus!
