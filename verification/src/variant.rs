//! Marker kinds for the two interface-pointer wire shapes, and the plain
//! wrappers that carry such a pointer.

use vstd::prelude::*;
use crate::new_variant::Variant;
use crate::wrappers::PtrContainer;

verus! {

/// Marker for the dispatch-capable interface-pointer kind.
#[derive(Debug, Clone, Copy, PartialEq, Eq, Structural)]
pub struct PhantomDispatch {}

/// Marker for the base interface-pointer kind.
#[derive(Debug, Clone, Copy, PartialEq, Eq, Structural)]
pub struct PhantomUnknown {}

/// A dispatch-capable interface pointer, held by address and never freed.
#[derive(Debug, Clone, Copy, PartialEq, Eq, Structural)]
pub struct WrappedDispatch {
    pub ptr: usize,
}

/// A base interface pointer, held by address and never freed.
#[derive(Debug, Clone, Copy, PartialEq, Eq, Structural)]
pub struct WrappedUnknown {
    pub ptr: usize,
}

impl DeepView for WrappedDispatch {
    type V = WrappedDispatch;

    open spec fn deep_view(&self) -> WrappedDispatch {
        *self
    }
}

impl DeepView for WrappedUnknown {
    type V = WrappedUnknown;

    open spec fn deep_view(&self) -> WrappedUnknown {
        *self
    }
}

impl WrappedDispatch {
    /// Wraps the address of a foreign dispatch-capable object.
    pub fn new(p: usize) -> (r: WrappedDispatch)
        ensures
            r.ptr == p,
    {
        WrappedDispatch { ptr: p }
    }

    /// True of the null address, over which no call may be made.
    pub fn is_null(&self) -> (r: bool)
        ensures
            r == (self.ptr == 0),
    {
        self.ptr == 0
    }
}

impl WrappedUnknown {
    /// Wraps the address of a foreign base-interface object.
    pub fn new(p: usize) -> (r: WrappedUnknown)
        ensures
            r.ptr == p,
    {
        WrappedUnknown { ptr: p }
    }

    /// True of the null address, over which no call may be made.
    pub fn is_null(&self) -> (r: bool)
        ensures
            r == (self.ptr == 0),
    {
        self.ptr == 0
    }
}

impl PtrContainer<PhantomDispatch> for WrappedDispatch {
    fn ptr(&self) -> (r: usize)
        ensures
            r == self.ptr,
    {
        self.ptr
    }

    fn ptr_mut(&self) -> (r: usize)
        ensures
            r == self.ptr,
    {
        self.ptr
    }

    fn from_ptr(p: usize) -> (r: Self)
        ensures
            r.ptr == p,
    {
        WrappedDispatch { ptr: p }
    }

    fn into_variant(&self) -> (r: Variant)
        ensures
            r == Variant::Dispatch(*self),
    {
        Variant::Dispatch(*self)
    }
}

impl PtrContainer<PhantomUnknown> for WrappedUnknown {
    fn ptr(&self) -> (r: usize)
        ensures
            r == self.ptr,
    {
        self.ptr
    }

    fn ptr_mut(&self) -> (r: usize)
        ensures
            r == self.ptr,
    {
        self.ptr
    }

    fn from_ptr(p: usize) -> (r: Self)
        ensures
            r.ptr == p,
    {
        WrappedUnknown { ptr: p }
    }

    fn into_variant(&self) -> (r: Variant)
        ensures
            r == Variant::Unknown(*self),
    {
        Variant::Unknown(*self)
    }
}

} // verus!
