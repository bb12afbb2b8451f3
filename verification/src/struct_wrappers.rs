//! Thin wrappers adapting specific foreign struct layouts, by composing
//! the handle and array codecs; the interface-implementation map is the
//! worked example.

use vstd::prelude::*;
use crate::new_safearray::{RSafeArray, spec_array_of};
use crate::result::{ClrError, E_FAIL, SourceLocation};
use crate::safearray::SafeArrayHost;
use crate::variant::WrappedUnknown;

verus! {

/// The raw foreign interface-implementation map: two object pointers and
/// two array handles, exactly as the foreign struct carries them.
#[derive(Debug, Clone, Copy, PartialEq, Eq, Structural)]
pub struct CInterfaceMapping {
    pub target_type: usize,
    pub interface_type: usize,
    pub target_methods: usize,
    pub interface_methods: usize,
}

/// The host record of an interface-implementation map: the target and
/// interface objects as non-owning capabilities, and the two
/// method-pointer arrays copied out.
#[derive(Debug, PartialEq)]
pub struct InterfaceMapping {
    pub target: WrappedUnknown,
    pub interface: WrappedUnknown,
    pub target_methods: RSafeArray,
    pub interface_methods: RSafeArray,
}

impl InterfaceMapping {
    /// Builds the host record from the raw foreign struct: wraps the two
    /// object pointers without taking ownership, and decodes the two
    /// array handles, consuming both whatever the outcome.
    pub fn from_c_interface_mapping(host: &mut SafeArrayHost, cim: &CInterfaceMapping) -> (r:
        core::result::Result<InterfaceMapping, ClrError>)
        requires
            old(host).wf(),
            old(host).live(cim.target_methods),
            old(host).live(cim.interface_methods),
            cim.target_methods != cim.interface_methods,
        ensures
            final(host).wf(),
            !final(host).live(cim.target_methods),
            !final(host).live(cim.interface_methods),
            final(host).spec_destroyed() == old(host).spec_destroyed() + 2,
            final(host).spec_created() == old(host).spec_created(),
            r matches Ok(m) ==> {
                &&& m.target.ptr == cim.target_type
                &&& m.interface.ptr == cim.interface_type
                &&& spec_array_of(old(host).data(cim.target_methods)) == Ok::<_, ClrError>(
                    m.target_methods.deep_view(),
                )
                &&& spec_array_of(old(host).data(cim.interface_methods)) == Ok::<_, ClrError>(
                    m.interface_methods.deep_view(),
                )
            },
            r matches Err(e) ==> (spec_array_of(old(host).data(cim.target_methods)) == Err::<
                crate::new_safearray::RSafeArrayView,
                ClrError,
            >(e) || spec_array_of(old(host).data(cim.interface_methods)) == Err::<
                crate::new_safearray::RSafeArrayView,
                ClrError,
            >(e) || (e == (ClrError::InnerCall {
                hr: E_FAIL,
                source: SourceLocation::SafeArrayGetElement,
            }) && old(host).spec_fault() is Some)),
            old(host).spec_fault() is None ==> final(host).spec_fault() is None && (r matches Err(
                e,
            ) ==> (spec_array_of(old(host).data(cim.target_methods)) == Err::<
                crate::new_safearray::RSafeArrayView,
                ClrError,
            >(e) || spec_array_of(old(host).data(cim.interface_methods)) == Err::<
                crate::new_safearray::RSafeArrayView,
                ClrError,
            >(e))),
    {
        let tm = RSafeArray::from_safe_array(host, cim.target_methods);
        let im = RSafeArray::from_safe_array(host, cim.interface_methods);
        let target_methods = match tm {
            Ok(a) => a,
            Err(e) => {
                return Err(e);
            },
        };
        let interface_methods = match im {
            Ok(a) => a,
            Err(e) => {
                return Err(e);
            },
        };
        Ok(
            InterfaceMapping {
                target: WrappedUnknown::new(cim.target_type),
                interface: WrappedUnknown::new(cim.interface_type),
                target_methods,
                interface_methods,
            },
        )
    }
}

} // verus!
