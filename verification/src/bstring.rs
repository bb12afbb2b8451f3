//! The primitive string codec: host strings against the foreign
//! length-prefixed wide-character buffer.
//!
//! A host-side wide string caches its length; the length, not a
//! terminator, is authoritative. Conversion to the foreign representation
//! allocates a buffer of exactly that many code units; conversion back
//! reads exactly the buffer's own length, and treats a zero length as the
//! empty string without reading any unit.

use vstd::prelude::*;

verus! {

/// The UTF-16 code units of a string, as `str::encode_utf16` yields them.
pub uninterp spec fn utf16_units_of(s: Seq<char>) -> Seq<u16>;

/// The string that `String::from_utf16_lossy` builds from a run of code
/// units, with unpaired surrogates replaced.
pub uninterp spec fn utf16_lossy_of(units: Seq<u16>) -> Seq<char>;

/// Relies on str::encode_utf16: the UTF-16 encoding of the string, named
/// by `utf16_units_of`; an empty string has no code units.
#[verifier::external_body]
fn encode_utf16_units(s: &str) -> (r: Vec<u16>)
    ensures
        r@ == utf16_units_of(s@),
        s@.len() == 0 ==> r@.len() == 0,
{
    s.encode_utf16().collect()
}

/// Relies on String::from_utf16_lossy: the lossy decoding of a run of
/// code units, named by `utf16_lossy_of`; no units decode to the empty
/// string.
#[verifier::external_body]
fn decode_utf16_lossy(units: &[u16]) -> (r: String)
    ensures
        r@ == utf16_lossy_of(units@),
        units@.len() == 0 ==> r@.len() == 0,
{
    String::from_utf16_lossy(units)
}

/// A foreign string buffer: a length-prefixed wide-character allocation.
/// Stands for the allocation the foreign allocator hands out; the wrapped
/// length is the one the foreign length query reports.
#[derive(Debug, PartialEq, Eq, Hash, PartialOrd, Ord)]
pub struct BStr {
    size: usize,
    inner: Vec<u16>,
}

impl View for BStr {
    type V = Seq<u16>;

    closed spec fn view(&self) -> Seq<u16> {
        self.inner@
    }
}

impl DeepView for BStr {
    type V = Seq<u16>;

    open spec fn deep_view(&self) -> Seq<u16> {
        self.view()
    }
}

impl BStr {
    /// The stored length prefix always equals the unit count.
    #[verifier::type_invariant]
    closed spec fn length_prefix_exact(self) -> bool {
        self.size == self.inner@.len()
    }

    /// The buffer's length in code units, as the foreign length query
    /// reports it.
    pub fn sys_len(&self) -> (r: usize)
        ensures
            r == self@.len(),
    {
        proof {
            use_type_invariant(self);
        }
        self.size
    }

    /// An empty foreign buffer.
    pub fn empty() -> (r: BStr)
        ensures
            r@ =~= Seq::<u16>::empty(),
    {
        BStr { size: 0, inner: Vec::new() }
    }

    /// A fresh foreign buffer holding the same code units.
    pub fn duplicate(&self) -> (r: BStr)
        ensures
            r@ == self@,
    {
        let units = self.inner.clone();
        proof {
            assert(units@ =~= self.inner@);
        }
        let size = units.len();
        BStr { size, inner: units }
    }

    /// A foreign buffer holding the given code units, sized exactly to
    /// them.
    pub fn from_units(units: Vec<u16>) -> (r: BStr)
        ensures
            r@ == units@,
    {
        let size = units.len();
        BStr { size, inner: units }
    }
}

/// A host wide string with a cached length; the length always equals the
/// number of code units held.
#[derive(Debug, PartialEq, Eq, Hash, PartialOrd, Ord)]
pub struct BString {
    size: usize,
    inner: Vec<u16>,
}

impl View for BString {
    type V = Seq<u16>;

    closed spec fn view(&self) -> Seq<u16> {
        self.inner@
    }
}

impl DeepView for BString {
    type V = Seq<u16>;

    open spec fn deep_view(&self) -> Seq<u16> {
        self.view()
    }
}

impl BString {
    /// The cached length always equals the unit count.
    #[verifier::type_invariant]
    closed spec fn cached_length_exact(self) -> bool {
        self.size == self.inner@.len()
    }

    /// The cached length in code units.
    pub fn len(&self) -> (r: usize)
        ensures
            r == self@.len(),
    {
        proof {
            use_type_invariant(self);
        }
        self.size
    }

    /// The empty wide string.
    pub fn new() -> (r: BString)
        ensures
            r@ =~= Seq::<u16>::empty(),
    {
        BString { inner: Vec::new(), size: 0 }
    }

    /// A wide string holding exactly the given code units.
    pub fn from_vec(raw: Vec<u16>) -> (r: BString)
        ensures
            r@ == raw@,
    {
        let l = raw.len();
        BString { inner: raw, size: l }
    }

    /// A wide string holding the UTF-16 encoding of a host string.
    pub fn from_str(s: &str) -> (r: BString)
        ensures
            r@ == utf16_units_of(s@),
    {
        let units = encode_utf16_units(s);
        let l = units.len();
        BString { inner: units, size: l }
    }

    /// Gives up the code units.
    pub fn into_vec(self) -> (r: Vec<u16>)
        ensures
            r@ == self@,
    {
        self.inner
    }

    /// The host string these code units decode to, unpaired surrogates
    /// replaced.
    pub fn to_string(&self) -> (r: String)
        ensures
            r@ == utf16_lossy_of(self@),
    {
        decode_utf16_lossy(self.inner.as_slice())
    }

    /// Allocates a fresh foreign buffer sized exactly to this string's
    /// length and holding its code units. The buffer is the caller's to
    /// release.
    pub fn as_sys(&self) -> (r: BStr)
        ensures
            r@ == self@,
    {
        let units = self.inner.clone();
        let l = units.len();
        proof {
            assert(units@ =~= self.inner@);
        }
        BStr { size: l, inner: units }
    }

    /// Reads exactly `len` code units out of a foreign buffer. A zero
    /// length yields the empty string without reading a unit; a nonzero
    /// length demands a buffer that actually holds that many units.
    pub fn from_ptr(p: &BStr, len: usize) -> (r: BString)
        requires
            len <= p@.len(),
        ensures
            r@ == p@.subrange(0, len as int),
    {
        if len == 0 {
            let r = BString::new();
            proof {
                assert(r@ =~= p@.subrange(0, 0));
            }
            return r;
        }
        let mut units: Vec<u16> = Vec::new();
        let mut i: usize = 0;
        while i < len
            invariant
                i <= len,
                len <= p@.len(),
                units@ =~= p@.subrange(0, i as int),
            decreases len - i,
        {
            units.push(p.inner[i]);
            i = i + 1;
            proof {
                assert(units@ =~= p@.subrange(0, i as int));
            }
        }
        BString::from_vec(units)
    }

    /// Reads a whole foreign buffer back, discovering its length through
    /// the foreign length query first; a zero-length buffer yields the
    /// empty string without reading a unit.
    pub fn from_ptr_safe(p: &BStr) -> (r: BString)
        ensures
            r@ == p@,
    {
        let us = p.sys_len();
        if us == 0 {
            let r = BString::new();
            proof {
                assert(r@ =~= p@);
            }
            return r;
        }
        let r = BString::from_ptr(p, us);
        proof {
            assert(p@.subrange(0, p@.len() as int) =~= p@);
        }
        r
    }
}

} // verus!
