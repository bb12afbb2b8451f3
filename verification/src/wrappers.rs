//! The capability a host value has over one foreign object: it holds the
//! raw address of a foreign-owned, reference-counted value and never frees
//! it. Equality of such capabilities is pointer identity.

use vstd::prelude::*;
use crate::new_variant::Variant;

verus! {

/// Holds one raw pointer to a foreign-owned value of kind `T`, without
/// owning the pointee. Addresses are carried as plain machine words; the
/// layer itself never dereferences them.
pub trait PtrContainer<T> {
    /// The wrapped address, for a read-only use.
    fn ptr(&self) -> usize;

    /// The wrapped address, for a mutating use.
    fn ptr_mut(&self) -> usize;

    /// Wraps an address received from a foreign call.
    fn from_ptr(p: usize) -> Self where Self: core::marker::Sized;

    /// The tagged value that carries this capability over the wire.
    fn into_variant(&self) -> Variant;
}

/// Marker for the foreign parameter-description kind.
pub struct PhantomParameterInfo {}

/// Marker for the foreign module kind.
pub struct PhantomModule {}

/// Marker for the foreign assembly-name kind.
pub struct PhantomAssemblyName {}

/// Marker for the foreign binder kind.
pub struct PhantomBinder {}

/// A capability over a foreign parameter description. The reflection
/// wrappers that consume this layer implement it; the layer itself only
/// marshals such capabilities.
pub trait ParameterInfo where Self: PtrContainer<PhantomParameterInfo> {

}

/// A capability over a foreign module; see [`ParameterInfo`].
pub trait Module where Self: PtrContainer<PhantomModule> {

}

/// A capability over a foreign assembly name; see [`ParameterInfo`].
pub trait AssemblyName where Self: PtrContainer<PhantomAssemblyName> {

}

/// A capability over a foreign binder; see [`ParameterInfo`].
pub trait Binder where Self: PtrContainer<PhantomBinder> {

}

} // verus!
