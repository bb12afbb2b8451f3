//! A safe marshaling layer between host values and a foreign dynamic-typing
//! ABI: a self-describing tagged value (the variant) and its companion
//! dynamically sized homogeneous array (the safe array).
//!
//! The wire side of the boundary is held as explicit data: the tagged union
//! payload, the decimal wire struct, the length-prefixed wide-string buffer
//! and the bounds-carrying array record each have a type of their own, and
//! the encoders and decoders between host values and those records are
//! verified. Foreign allocations of arrays are modelled by [`safearray::SafeArrayHost`],
//! an instrumented allocator that tracks creation and destruction, so that
//! the ownership discipline of the codec (destroy on every exit path, hand
//! over on success) is stated and proved rather than assumed.

pub mod bstring;
pub mod decimal;
pub mod new_safearray;
pub mod new_variant;
pub mod primitives;
pub mod result;
pub mod safearray;
pub mod struct_wrappers;
pub mod variant;
pub mod wrappers;

pub use crate::bstring::{BStr, BString};
pub use crate::decimal::{Decimal96, build_c_decimal, build_rust_decimal};
pub use crate::new_safearray::RSafeArray;
pub use crate::new_variant::{Currency, Date, Int, SCode, UInt, Variant};
pub use crate::primitives::{Primitive, Primitives};
pub use crate::result::{ClrError, CommonHresultValues, Hresult, SourceLocation};
pub use crate::safearray::{CSafeArrayData, SafeArrayBound, SafeArrayHost};
pub use crate::struct_wrappers::{CInterfaceMapping, InterfaceMapping};
pub use crate::variant::{PhantomDispatch, PhantomUnknown, WrappedDispatch, WrappedUnknown};
pub use crate::wrappers::{AssemblyName, Binder, Module, ParameterInfo, PtrContainer};
