//! The dynamically typed homogeneous array: a closed sum over one vector
//! per supported element wire kind, and its codec against the raw foreign
//! array record.
//!
//! Both the element count and the element wire tag are derivable from the
//! active arm alone. Floating-point element kinds are carried as IEEE 754
//! bit patterns.

use vstd::prelude::*;
use crate::bstring::{BString, utf16_lossy_of, utf16_units_of};
use crate::decimal::Decimal96;
use crate::new_variant::{CVariant, Currency, Date, Int, UInt, Variant, VariantView, WirePayload,
    WirePayloadView,
    array_fits_wire, fits_wire, lemma_variant_round_trip, lemma_variants_fit_wire_index,
    lemma_vw_cells, lemma_vw_variants, spec_variant_of, spec_wire_of, variants_wire_exact,
    vw_cells, vw_payload, vw_variant, vw_variants};
use crate::result::{ClrError, E_FAIL, S_OK, SourceLocation};
use crate::safearray::{CSafeArrayData, CSafeArrayDataView, SafeArrayBound, SafeArrayHost,
    cell_ok, spec_created_data, supported_vartype};
use crate::primitives::{VARIANT_FALSE, VARIANT_TRUE, VT_BOOL, VT_BSTR, VT_CY, VT_DATE,
    VT_DECIMAL, VT_DISPATCH, VT_I1, VT_I2, VT_I4, VT_INT, VT_R4, VT_R8, VT_UI1, VT_UI2, VT_UI4,
    VT_UINT, VT_UNKNOWN, VT_VARIANT};
use crate::variant::{WrappedDispatch, WrappedUnknown};

verus! {

/// A homogeneous run of wire values: one arm per supported element kind.
/// `Floats` and `Doubles` hold IEEE 754 bit patterns.
#[derive(Debug, PartialEq)]
pub enum RSafeArray {
    Shorts(Vec<i16>),
    Longs(Vec<i32>),
    Floats(Vec<u32>),
    Doubles(Vec<u64>),
    Currencies(Vec<Currency>),
    Dates(Vec<Date>),
    BStrings(Vec<String>),
    Dispatchs(Vec<WrappedDispatch>),
    Bools(Vec<bool>),
    Variants(Vec<Variant>),
    Unknowns(Vec<WrappedUnknown>),
    Decimals(Vec<Decimal96>),
    Chars(Vec<i8>),
    UChars(Vec<u8>),
    UShorts(Vec<u16>),
    ULongs(Vec<u32>),
    Ints(Vec<Int>),
    UInts(Vec<UInt>),
}

/// The mathematical shadow of [`RSafeArray`]: each arm as a sequence.
pub enum RSafeArrayView {
    Shorts(Seq<i16>),
    Longs(Seq<i32>),
    Floats(Seq<u32>),
    Doubles(Seq<u64>),
    Currencies(Seq<Currency>),
    Dates(Seq<Date>),
    BStrings(Seq<Seq<char>>),
    Dispatchs(Seq<WrappedDispatch>),
    Bools(Seq<bool>),
    Variants(Seq<VariantView>),
    Unknowns(Seq<WrappedUnknown>),
    Decimals(Seq<Decimal96>),
    Chars(Seq<i8>),
    UChars(Seq<u8>),
    UShorts(Seq<u16>),
    ULongs(Seq<u32>),
    Ints(Seq<Int>),
    UInts(Seq<UInt>),
}

/// The shadow of a dynamic array, arm by arm.
pub open spec fn vw_array(a: RSafeArray) -> RSafeArrayView
    decreases a,
{
    match a {
        RSafeArray::Shorts(inner) => RSafeArrayView::Shorts(inner.deep_view()),
        RSafeArray::Longs(inner) => RSafeArrayView::Longs(inner.deep_view()),
        RSafeArray::Floats(inner) => RSafeArrayView::Floats(inner.deep_view()),
        RSafeArray::Doubles(inner) => RSafeArrayView::Doubles(inner.deep_view()),
        RSafeArray::Currencies(inner) => RSafeArrayView::Currencies(inner.deep_view()),
        RSafeArray::Dates(inner) => RSafeArrayView::Dates(inner.deep_view()),
        RSafeArray::BStrings(inner) => RSafeArrayView::BStrings(inner.deep_view()),
        RSafeArray::Dispatchs(inner) => RSafeArrayView::Dispatchs(inner.deep_view()),
        RSafeArray::Bools(inner) => RSafeArrayView::Bools(inner.deep_view()),
        RSafeArray::Variants(inner) => RSafeArrayView::Variants(vw_variants(inner@)),
        RSafeArray::Unknowns(inner) => RSafeArrayView::Unknowns(inner.deep_view()),
        RSafeArray::Decimals(inner) => RSafeArrayView::Decimals(inner.deep_view()),
        RSafeArray::Chars(inner) => RSafeArrayView::Chars(inner.deep_view()),
        RSafeArray::UChars(inner) => RSafeArrayView::UChars(inner.deep_view()),
        RSafeArray::UShorts(inner) => RSafeArrayView::UShorts(inner.deep_view()),
        RSafeArray::ULongs(inner) => RSafeArrayView::ULongs(inner.deep_view()),
        RSafeArray::Ints(inner) => RSafeArrayView::Ints(inner.deep_view()),
        RSafeArray::UInts(inner) => RSafeArrayView::UInts(inner.deep_view()),
    }
}

impl DeepView for RSafeArray {
    type V = RSafeArrayView;

    open spec fn deep_view(&self) -> RSafeArrayView {
        vw_array(*self)
    }
}

/// The element count of the active arm.
pub open spec fn spec_array_len(a: RSafeArrayView) -> nat {
    match a {
        RSafeArrayView::Shorts(inner) => inner.len(),
        RSafeArrayView::Longs(inner) => inner.len(),
        RSafeArrayView::Floats(inner) => inner.len(),
        RSafeArrayView::Doubles(inner) => inner.len(),
        RSafeArrayView::Currencies(inner) => inner.len(),
        RSafeArrayView::Dates(inner) => inner.len(),
        RSafeArrayView::BStrings(inner) => inner.len(),
        RSafeArrayView::Dispatchs(inner) => inner.len(),
        RSafeArrayView::Bools(inner) => inner.len(),
        RSafeArrayView::Variants(inner) => inner.len(),
        RSafeArrayView::Unknowns(inner) => inner.len(),
        RSafeArrayView::Decimals(inner) => inner.len(),
        RSafeArrayView::Chars(inner) => inner.len(),
        RSafeArrayView::UChars(inner) => inner.len(),
        RSafeArrayView::UShorts(inner) => inner.len(),
        RSafeArrayView::ULongs(inner) => inner.len(),
        RSafeArrayView::Ints(inner) => inner.len(),
        RSafeArrayView::UInts(inner) => inner.len(),
    }
}

/// The element wire tag of the active arm: the element tag table of the
/// layer.
pub open spec fn spec_array_vartype(a: RSafeArrayView) -> u16 {
    match a {
        RSafeArrayView::Shorts(_) => VT_I2,
        RSafeArrayView::Longs(_) => VT_I4,
        RSafeArrayView::Floats(_) => VT_R4,
        RSafeArrayView::Doubles(_) => VT_R8,
        RSafeArrayView::Currencies(_) => VT_CY,
        RSafeArrayView::Dates(_) => VT_DATE,
        RSafeArrayView::BStrings(_) => VT_BSTR,
        RSafeArrayView::Dispatchs(_) => VT_DISPATCH,
        RSafeArrayView::Bools(_) => VT_BOOL,
        RSafeArrayView::Variants(_) => VT_VARIANT,
        RSafeArrayView::Unknowns(_) => VT_UNKNOWN,
        RSafeArrayView::Decimals(_) => VT_DECIMAL,
        RSafeArrayView::Chars(_) => VT_I1,
        RSafeArrayView::UChars(_) => VT_UI1,
        RSafeArrayView::UShorts(_) => VT_UI2,
        RSafeArrayView::ULongs(_) => VT_UI4,
        RSafeArrayView::Ints(_) => VT_INT,
        RSafeArrayView::UInts(_) => VT_UINT,
    }
}


/// What a run of variants looks like as array cells: each element goes
/// out as one full tagged-union record.
pub open spec fn spec_wire_variant_cells(s: Seq<VariantView>) -> Seq<WirePayloadView>
    decreases s, 0int,
{
    if s.len() == 0 {
        Seq::empty()
    } else {
        seq![WirePayloadView::PvarVal(Box::new(spec_wire_of(s[0])))] + spec_wire_variant_cells(
            s.subrange(1, s.len() as int),
        )
    }
}

/// The payload cells a host array's elements encode to, in element order:
/// the element codec of the layer. Booleans go out as sentinels, strings
/// as fresh foreign buffers, nested variants as tagged-union records.
pub open spec fn spec_wire_cells(a: RSafeArrayView) -> Seq<WirePayloadView>
    decreases a, 1int,
{
    match a {
        RSafeArrayView::Shorts(s) => Seq::new(s.len(), |i: int| WirePayloadView::IVal(s[i])),
        RSafeArrayView::Longs(s) => Seq::new(s.len(), |i: int| WirePayloadView::LVal(s[i])),
        RSafeArrayView::Floats(s) => Seq::new(s.len(), |i: int| WirePayloadView::FltVal(s[i])),
        RSafeArrayView::Doubles(s) => Seq::new(s.len(), |i: int| WirePayloadView::DblVal(s[i])),
        RSafeArrayView::Currencies(s) => Seq::new(
            s.len(),
            |i: int| WirePayloadView::CyVal(s[i].0),
        ),
        RSafeArrayView::Dates(s) => Seq::new(s.len(), |i: int| WirePayloadView::DateVal(s[i].0)),
        RSafeArrayView::BStrings(s) => Seq::new(
            s.len(),
            |i: int| WirePayloadView::BstrVal(utf16_units_of(s[i])),
        ),
        RSafeArrayView::Dispatchs(s) => Seq::new(
            s.len(),
            |i: int| WirePayloadView::PdispVal(s[i].ptr),
        ),
        RSafeArrayView::Bools(s) => Seq::new(
            s.len(),
            |i: int|
                WirePayloadView::BoolVal(
                    if s[i] {
                        VARIANT_TRUE
                    } else {
                        VARIANT_FALSE
                    },
                ),
        ),
        RSafeArrayView::Variants(s) => spec_wire_variant_cells(s),
        RSafeArrayView::Unknowns(s) => Seq::new(s.len(), |i: int| WirePayloadView::PunkVal(s[i].ptr)),
        RSafeArrayView::Decimals(s) => Seq::new(s.len(), |i: int| WirePayloadView::DecVal(s[i])),
        RSafeArrayView::Chars(s) => Seq::new(s.len(), |i: int| WirePayloadView::CVal(s[i])),
        RSafeArrayView::UChars(s) => Seq::new(s.len(), |i: int| WirePayloadView::BVal(s[i])),
        RSafeArrayView::UShorts(s) => Seq::new(s.len(), |i: int| WirePayloadView::UiVal(s[i])),
        RSafeArrayView::ULongs(s) => Seq::new(s.len(), |i: int| WirePayloadView::UlVal(s[i])),
        RSafeArrayView::Ints(s) => Seq::new(s.len(), |i: int| WirePayloadView::IntVal(s[i].0)),
        RSafeArrayView::UInts(s) => Seq::new(s.len(), |i: int| WirePayloadView::UintVal(s[i].0)),
    }
}

/// The raw foreign array a host array encodes to: the arm's element tag,
/// one zero-based dimension sized exactly to the element count, and the
/// encoded cells.
pub open spec fn spec_wire_array(a: RSafeArrayView) -> CSafeArrayDataView
    decreases a, 2int,
{
    CSafeArrayDataView {
        vt: spec_array_vartype(a),
        bounds: seq![
            SafeArrayBound { c_elements: spec_array_len(a) as u32, l_lbound: 0 },
        ],
        cells: spec_wire_cells(a),
    }
}

/// The variants a run of tagged-union cells decodes to, or the first
/// error among them, in element order.
pub open spec fn spec_variants_of_cells(s: Seq<WirePayloadView>) -> Result<
    Seq<VariantView>,
    ClrError,
>
    decreases s, 1int,
{
    if s.len() == 0 {
        Ok(Seq::empty())
    } else {
        match s[0] {
            WirePayloadView::PvarVal(b) => match spec_variant_of(*b) {
                Ok(v) => match spec_variants_of_cells(s.subrange(1, s.len() as int)) {
                    Ok(rest) => Ok(seq![v] + rest),
                    Err(e) => Err(e),
                },
                Err(e) => Err(e),
            },
            _ => Err(ClrError::Conversion { source: SourceLocation::ArrayDecode }),
        }
    }
}

/// The host array a raw foreign array decodes to, or the typed error
/// that refuses it: other than one dimension, an unsupported element
/// tag, or a cell that does not agree with the element tag. The element
/// values are taken in cell order, whatever the lower bound.
pub open spec fn spec_array_of(c: CSafeArrayDataView) -> Result<RSafeArrayView, ClrError>
    decreases c, 2int,
{
    let n = c.cells.len();
    if c.bounds.len() != 1 {
        Err(ClrError::UnsupportedDimensions { dims: c.bounds.len() as u32 })
    } else if c.vt == VT_I2 {
        if forall|i: int| 0 <= i < n ==> c.cells[i] is IVal {
            Ok(
                RSafeArrayView::Shorts(
                    Seq::new(
                        n,
                        |i: int|
                            match c.cells[i] {
                                WirePayloadView::IVal(x) => x,
                                _ => 0i16,
                            },
                    ),
                ),
            )
        } else {
            Err(ClrError::Conversion { source: SourceLocation::ArrayDecode })
        }
    } else if c.vt == VT_I4 {
        if forall|i: int| 0 <= i < n ==> c.cells[i] is LVal {
            Ok(
                RSafeArrayView::Longs(
                    Seq::new(
                        n,
                        |i: int|
                            match c.cells[i] {
                                WirePayloadView::LVal(x) => x,
                                _ => 0i32,
                            },
                    ),
                ),
            )
        } else {
            Err(ClrError::Conversion { source: SourceLocation::ArrayDecode })
        }
    } else if c.vt == VT_R4 {
        if forall|i: int| 0 <= i < n ==> c.cells[i] is FltVal {
            Ok(
                RSafeArrayView::Floats(
                    Seq::new(
                        n,
                        |i: int|
                            match c.cells[i] {
                                WirePayloadView::FltVal(x) => x,
                                _ => 0u32,
                            },
                    ),
                ),
            )
        } else {
            Err(ClrError::Conversion { source: SourceLocation::ArrayDecode })
        }
    } else if c.vt == VT_R8 {
        if forall|i: int| 0 <= i < n ==> c.cells[i] is DblVal {
            Ok(
                RSafeArrayView::Doubles(
                    Seq::new(
                        n,
                        |i: int|
                            match c.cells[i] {
                                WirePayloadView::DblVal(x) => x,
                                _ => 0u64,
                            },
                    ),
                ),
            )
        } else {
            Err(ClrError::Conversion { source: SourceLocation::ArrayDecode })
        }
    } else if c.vt == VT_CY {
        if forall|i: int| 0 <= i < n ==> c.cells[i] is CyVal {
            Ok(
                RSafeArrayView::Currencies(
                    Seq::new(
                        n,
                        |i: int|
                            match c.cells[i] {
                                WirePayloadView::CyVal(x) => Currency(x),
                                _ => Currency(0),
                            },
                    ),
                ),
            )
        } else {
            Err(ClrError::Conversion { source: SourceLocation::ArrayDecode })
        }
    } else if c.vt == VT_DATE {
        if forall|i: int| 0 <= i < n ==> c.cells[i] is DateVal {
            Ok(
                RSafeArrayView::Dates(
                    Seq::new(
                        n,
                        |i: int|
                            match c.cells[i] {
                                WirePayloadView::DateVal(x) => Date(x),
                                _ => Date(0),
                            },
                    ),
                ),
            )
        } else {
            Err(ClrError::Conversion { source: SourceLocation::ArrayDecode })
        }
    } else if c.vt == VT_BSTR {
        if forall|i: int| 0 <= i < n ==> c.cells[i] is BstrVal {
            Ok(
                RSafeArrayView::BStrings(
                    Seq::new(
                        n,
                        |i: int|
                            match c.cells[i] {
                                WirePayloadView::BstrVal(u) => utf16_lossy_of(u),
                                _ => Seq::empty(),
                            },
                    ),
                ),
            )
        } else {
            Err(ClrError::Conversion { source: SourceLocation::ArrayDecode })
        }
    } else if c.vt == VT_DISPATCH {
        if forall|i: int| 0 <= i < n ==> c.cells[i] is PdispVal {
            Ok(
                RSafeArrayView::Dispatchs(
                    Seq::new(
                        n,
                        |i: int|
                            match c.cells[i] {
                                WirePayloadView::PdispVal(p) => WrappedDispatch { ptr: p },
                                _ => WrappedDispatch { ptr: 0 },
                            },
                    ),
                ),
            )
        } else {
            Err(ClrError::Conversion { source: SourceLocation::ArrayDecode })
        }
    } else if c.vt == VT_BOOL {
        if forall|i: int| 0 <= i < n ==> c.cells[i] is BoolVal {
            Ok(
                RSafeArrayView::Bools(
                    Seq::new(
                        n,
                        |i: int|
                            match c.cells[i] {
                                WirePayloadView::BoolVal(x) => x == VARIANT_TRUE,
                                _ => false,
                            },
                    ),
                ),
            )
        } else {
            Err(ClrError::Conversion { source: SourceLocation::ArrayDecode })
        }
    } else if c.vt == VT_VARIANT {
        match spec_variants_of_cells(c.cells) {
            Ok(vs) => Ok(RSafeArrayView::Variants(vs)),
            Err(e) => Err(e),
        }
    } else if c.vt == VT_UNKNOWN {
        if forall|i: int| 0 <= i < n ==> c.cells[i] is PunkVal {
            Ok(
                RSafeArrayView::Unknowns(
                    Seq::new(
                        n,
                        |i: int|
                            match c.cells[i] {
                                WirePayloadView::PunkVal(p) => WrappedUnknown { ptr: p },
                                _ => WrappedUnknown { ptr: 0 },
                            },
                    ),
                ),
            )
        } else {
            Err(ClrError::Conversion { source: SourceLocation::ArrayDecode })
        }
    } else if c.vt == VT_DECIMAL {
        if forall|i: int| 0 <= i < n ==> c.cells[i] is DecVal {
            Ok(
                RSafeArrayView::Decimals(
                    Seq::new(
                        n,
                        |i: int|
                            match c.cells[i] {
                                WirePayloadView::DecVal(d) => d,
                                _ => Decimal96 {
                                    reserved: 0,
                                    scale: 0,
                                    sign: 0,
                                    hi32: 0,
                                    lo64: 0,
                                },
                            },
                    ),
                ),
            )
        } else {
            Err(ClrError::Conversion { source: SourceLocation::ArrayDecode })
        }
    } else if c.vt == VT_I1 {
        if forall|i: int| 0 <= i < n ==> c.cells[i] is CVal {
            Ok(
                RSafeArrayView::Chars(
                    Seq::new(
                        n,
                        |i: int|
                            match c.cells[i] {
                                WirePayloadView::CVal(x) => x,
                                _ => 0i8,
                            },
                    ),
                ),
            )
        } else {
            Err(ClrError::Conversion { source: SourceLocation::ArrayDecode })
        }
    } else if c.vt == VT_UI1 {
        if forall|i: int| 0 <= i < n ==> c.cells[i] is BVal {
            Ok(
                RSafeArrayView::UChars(
                    Seq::new(
                        n,
                        |i: int|
                            match c.cells[i] {
                                WirePayloadView::BVal(x) => x,
                                _ => 0u8,
                            },
                    ),
                ),
            )
        } else {
            Err(ClrError::Conversion { source: SourceLocation::ArrayDecode })
        }
    } else if c.vt == VT_UI2 {
        if forall|i: int| 0 <= i < n ==> c.cells[i] is UiVal {
            Ok(
                RSafeArrayView::UShorts(
                    Seq::new(
                        n,
                        |i: int|
                            match c.cells[i] {
                                WirePayloadView::UiVal(x) => x,
                                _ => 0u16,
                            },
                    ),
                ),
            )
        } else {
            Err(ClrError::Conversion { source: SourceLocation::ArrayDecode })
        }
    } else if c.vt == VT_UI4 {
        if forall|i: int| 0 <= i < n ==> c.cells[i] is UlVal {
            Ok(
                RSafeArrayView::ULongs(
                    Seq::new(
                        n,
                        |i: int|
                            match c.cells[i] {
                                WirePayloadView::UlVal(x) => x,
                                _ => 0u32,
                            },
                    ),
                ),
            )
        } else {
            Err(ClrError::Conversion { source: SourceLocation::ArrayDecode })
        }
    } else if c.vt == VT_INT {
        if forall|i: int| 0 <= i < n ==> c.cells[i] is IntVal {
            Ok(
                RSafeArrayView::Ints(
                    Seq::new(
                        n,
                        |i: int|
                            match c.cells[i] {
                                WirePayloadView::IntVal(x) => Int(x),
                                _ => Int(0),
                            },
                    ),
                ),
            )
        } else {
            Err(ClrError::Conversion { source: SourceLocation::ArrayDecode })
        }
    } else if c.vt == VT_UINT {
        if forall|i: int| 0 <= i < n ==> c.cells[i] is UintVal {
            Ok(
                RSafeArrayView::UInts(
                    Seq::new(
                        n,
                        |i: int|
                            match c.cells[i] {
                                WirePayloadView::UintVal(x) => UInt(x),
                                _ => UInt(0),
                            },
                    ),
                ),
            )
        } else {
            Err(ClrError::Conversion { source: SourceLocation::ArrayDecode })
        }
    } else {
        Err(ClrError::UnsupportedVartype { vt: c.vt })
    }
}


/// What a run of variants needs for the wire is what each of them needs.
pub proof fn lemma_wire_variant_cells_index(s: Seq<VariantView>)
    ensures
        spec_wire_variant_cells(s).len() == s.len(),
        forall|i: int|
            0 <= i < s.len() ==> spec_wire_variant_cells(s)[i] == WirePayloadView::PvarVal(
                Box::new(spec_wire_of(s[i])),
            ),
    decreases s,
{
    if s.len() > 0 {
        lemma_wire_variant_cells_index(s.subrange(1, s.len() as int));
        assert forall|i: int| 0 <= i < s.len() implies spec_wire_variant_cells(s)[i]
            == WirePayloadView::PvarVal(Box::new(spec_wire_of(s[i]))) by {
            if i > 0 {
                assert(s[i] == s.subrange(1, s.len() as int)[i - 1]);
            }
        }
    }
}

/// Assembles a one-dimensional raw array record from a tag, an element
/// count and the encoded cells, with a zero lower bound.
fn assemble_array(vt: u16, n: usize, cells: Vec<WirePayload>) -> (r: CSafeArrayData)
    requires
        n <= u32::MAX,
        cells@.len() == n,
    ensures
        r.deep_view() == (CSafeArrayDataView {
            vt,
            bounds: seq![SafeArrayBound { c_elements: n as u32, l_lbound: 0 }],
            cells: vw_cells(cells@),
        }),
{
    let bounds = vec![SafeArrayBound { c_elements: n as u32, l_lbound: 0 }];
    let r = CSafeArrayData { vt, bounds, cells };
    proof {
        assert(r.bounds.deep_view() =~= seq![
            SafeArrayBound { c_elements: n as u32, l_lbound: 0 },
        ]);
        assert(r.deep_view() =~= (CSafeArrayDataView {
            vt,
            bounds: seq![SafeArrayBound { c_elements: n as u32, l_lbound: 0 }],
            cells: vw_cells(cells@),
        }));
    }
    r
}


/// Decoding a run of tagged-union cells splits over concatenation: the
/// front decodes first, and its error, if any, wins.
pub proof fn lemma_variants_cells_append(a: Seq<WirePayloadView>, b: Seq<WirePayloadView>)
    ensures
        spec_variants_of_cells(a + b) == (match spec_variants_of_cells(a) {
            Ok(va) => match spec_variants_of_cells(b) {
                Ok(vb) => Ok::<Seq<VariantView>, ClrError>(va + vb),
                Err(e) => Err(e),
            },
            Err(e) => Err(e),
        }),
    decreases a,
{
    if a.len() == 0 {
        assert(a + b =~= b);
        match spec_variants_of_cells(b) {
            Ok(vb) => {
                assert(Seq::<VariantView>::empty() + vb =~= vb);
            },
            Err(_) => {},
        }
    } else {
        let t = a.subrange(1, a.len() as int);
        lemma_variants_cells_append(t, b);
        assert((a + b).subrange(1, (a + b).len() as int) =~= t + b);
        assert((a + b)[0] == a[0]);
        match a[0] {
            WirePayloadView::PvarVal(bx) => {
                match spec_variant_of(*bx) {
                    Ok(v) => {
                        match spec_variants_of_cells(t) {
                            Ok(vt_) => {
                                match spec_variants_of_cells(b) {
                                    Ok(vb) => {
                                        assert(seq![v] + (vt_ + vb) =~= (seq![v] + vt_) + vb);
                                    },
                                    Err(_) => {},
                                }
                            },
                            Err(_) => {},
                        }
                    },
                    Err(_) => {},
                }
            },
            _ => {},
        }
    }
}


/// An array whose encoding is lossless: its element count fits the
/// wire's 32-bit bound field, its elements are not strings, and each of
/// its elements, when it is itself a variant, is lossless in turn.
pub open spec fn array_wire_exact(a: RSafeArrayView) -> bool
    decreases a, 2int,
{
    &&& spec_array_len(a) <= u32::MAX
    &&& !(a is BStrings)
    &&& match a {
        RSafeArrayView::Variants(s) => variants_wire_exact(s),
        _ => true,
    }
}

/// Round trip of the element codec for a run of variant cells: decoding
/// the encoded run gives the run back, element for element.
pub proof fn lemma_variant_cells_round_trip(s: Seq<VariantView>)
    requires
        variants_wire_exact(s),
    ensures
        spec_variants_of_cells(spec_wire_variant_cells(s)) == Ok::<Seq<VariantView>, ClrError>(s),
    decreases s,
{
    if s.len() == 0 {
        assert(spec_wire_variant_cells(s) =~= Seq::<WirePayloadView>::empty());
        assert(s =~= Seq::<VariantView>::empty());
    } else {
        let tail = s.subrange(1, s.len() as int);
        lemma_variant_round_trip(s[0]);
        lemma_variant_cells_round_trip(tail);
        let cells = spec_wire_variant_cells(s);
        assert(cells[0] == WirePayloadView::PvarVal(Box::new(spec_wire_of(s[0]))));
        assert(cells.subrange(1, cells.len() as int) =~= spec_wire_variant_cells(tail));
        assert(spec_variants_of_cells(cells.subrange(1, cells.len() as int)) == Ok::<
            Seq<VariantView>,
            ClrError,
        >(tail));
        assert(spec_variants_of_cells(cells) == Ok::<Seq<VariantView>, ClrError>(
            seq![s[0]] + tail,
        ));
        assert(seq![s[0]] + tail =~= s);
    }
}

/// Round trip of the array codec: for every element kind whose cells
/// carry the element values themselves — every kind but strings, whose
/// decoding is lossy by design — decoding the encoding gives the array
/// back, element for element and in order. Runs of nested variants are
/// included, as long as each of them is lossless in turn.
pub proof fn lemma_array_round_trip(a: RSafeArrayView)
    requires
        array_wire_exact(a),
    ensures
        spec_array_of(spec_wire_array(a)) == Ok::<RSafeArrayView, ClrError>(a),
    decreases a,
{
    match a {
        RSafeArrayView::Shorts(s0) => {
            assert((match spec_array_of(spec_wire_array(a)) {
                Ok(RSafeArrayView::Shorts(es)) => es,
                _ => arbitrary(),
            }) =~= s0);
        },
        RSafeArrayView::Longs(s0) => {
            assert((match spec_array_of(spec_wire_array(a)) {
                Ok(RSafeArrayView::Longs(es)) => es,
                _ => arbitrary(),
            }) =~= s0);
        },
        RSafeArrayView::Floats(s0) => {
            assert((match spec_array_of(spec_wire_array(a)) {
                Ok(RSafeArrayView::Floats(es)) => es,
                _ => arbitrary(),
            }) =~= s0);
        },
        RSafeArrayView::Doubles(s0) => {
            assert((match spec_array_of(spec_wire_array(a)) {
                Ok(RSafeArrayView::Doubles(es)) => es,
                _ => arbitrary(),
            }) =~= s0);
        },
        RSafeArrayView::Currencies(s0) => {
            assert((match spec_array_of(spec_wire_array(a)) {
                Ok(RSafeArrayView::Currencies(es)) => es,
                _ => arbitrary(),
            }) =~= s0);
        },
        RSafeArrayView::Dates(s0) => {
            assert((match spec_array_of(spec_wire_array(a)) {
                Ok(RSafeArrayView::Dates(es)) => es,
                _ => arbitrary(),
            }) =~= s0);
        },
        RSafeArrayView::Dispatchs(s0) => {
            assert((match spec_array_of(spec_wire_array(a)) {
                Ok(RSafeArrayView::Dispatchs(es)) => es,
                _ => arbitrary(),
            }) =~= s0);
        },
        RSafeArrayView::Bools(s0) => {
            assert((match spec_array_of(spec_wire_array(a)) {
                Ok(RSafeArrayView::Bools(es)) => es,
                _ => arbitrary(),
            }) =~= s0);
        },
        RSafeArrayView::Unknowns(s0) => {
            assert((match spec_array_of(spec_wire_array(a)) {
                Ok(RSafeArrayView::Unknowns(es)) => es,
                _ => arbitrary(),
            }) =~= s0);
        },
        RSafeArrayView::Decimals(s0) => {
            assert((match spec_array_of(spec_wire_array(a)) {
                Ok(RSafeArrayView::Decimals(es)) => es,
                _ => arbitrary(),
            }) =~= s0);
        },
        RSafeArrayView::Chars(s0) => {
            assert((match spec_array_of(spec_wire_array(a)) {
                Ok(RSafeArrayView::Chars(es)) => es,
                _ => arbitrary(),
            }) =~= s0);
        },
        RSafeArrayView::UChars(s0) => {
            assert((match spec_array_of(spec_wire_array(a)) {
                Ok(RSafeArrayView::UChars(es)) => es,
                _ => arbitrary(),
            }) =~= s0);
        },
        RSafeArrayView::UShorts(s0) => {
            assert((match spec_array_of(spec_wire_array(a)) {
                Ok(RSafeArrayView::UShorts(es)) => es,
                _ => arbitrary(),
            }) =~= s0);
        },
        RSafeArrayView::ULongs(s0) => {
            assert((match spec_array_of(spec_wire_array(a)) {
                Ok(RSafeArrayView::ULongs(es)) => es,
                _ => arbitrary(),
            }) =~= s0);
        },
        RSafeArrayView::Ints(s0) => {
            assert((match spec_array_of(spec_wire_array(a)) {
                Ok(RSafeArrayView::Ints(es)) => es,
                _ => arbitrary(),
            }) =~= s0);
        },
        RSafeArrayView::UInts(s0) => {
            assert((match spec_array_of(spec_wire_array(a)) {
                Ok(RSafeArrayView::UInts(es)) => es,
                _ => arbitrary(),
            }) =~= s0);
        },
        RSafeArrayView::BStrings(_) => {},
        RSafeArrayView::Variants(s0) => {
            lemma_variant_cells_round_trip(s0);
            lemma_wire_variant_cells_index(s0);
            assert(spec_array_of(spec_wire_array(a)) == Ok::<RSafeArrayView, ClrError>(a));
        },
    }
}


/// The element tag of every arm is one the allocator supports.
pub proof fn lemma_vartype_supported(a: RSafeArrayView)
    ensures
        supported_vartype(spec_array_vartype(a)),
{
}

/// Every cell an array encodes to is of the kind its element tag
/// selects.
pub proof fn lemma_wire_cells_ok(a: RSafeArrayView)
    ensures
        spec_wire_cells(a).len() == spec_array_len(a),
        forall|i: int|
            0 <= i < spec_wire_cells(a).len() ==> cell_ok(
                spec_array_vartype(a),
                #[trigger] spec_wire_cells(a)[i],
            ),
    decreases a,
{
    if let RSafeArrayView::Variants(s) = a {
        lemma_wire_variant_cells_index(s);
    }
}

impl RSafeArray {
    /// The element count, read off the active arm.
    pub fn len(&self) -> (r: usize)
        ensures
            r == spec_array_len(self.deep_view()),
    {
        proof {
            if let RSafeArray::Variants(inner) = self {
                lemma_vw_variants(inner@);
            }
        }
        match self {
            RSafeArray::Shorts(inner) => inner.len(),
            RSafeArray::Longs(inner) => inner.len(),
            RSafeArray::Floats(inner) => inner.len(),
            RSafeArray::Doubles(inner) => inner.len(),
            RSafeArray::Currencies(inner) => inner.len(),
            RSafeArray::Dates(inner) => inner.len(),
            RSafeArray::BStrings(inner) => inner.len(),
            RSafeArray::Dispatchs(inner) => inner.len(),
            RSafeArray::Bools(inner) => inner.len(),
            RSafeArray::Variants(inner) => inner.len(),
            RSafeArray::Unknowns(inner) => inner.len(),
            RSafeArray::Decimals(inner) => inner.len(),
            RSafeArray::Chars(inner) => inner.len(),
            RSafeArray::UChars(inner) => inner.len(),
            RSafeArray::UShorts(inner) => inner.len(),
            RSafeArray::ULongs(inner) => inner.len(),
            RSafeArray::Ints(inner) => inner.len(),
            RSafeArray::UInts(inner) => inner.len(),
        }
    }

    /// The element wire tag, read off the active arm.
    pub fn vartype(&self) -> (r: u16)
        ensures
            r == spec_array_vartype(self.deep_view()),
    {
        match self {
            RSafeArray::Shorts(_) => VT_I2,
            RSafeArray::Longs(_) => VT_I4,
            RSafeArray::Floats(_) => VT_R4,
            RSafeArray::Doubles(_) => VT_R8,
            RSafeArray::Currencies(_) => VT_CY,
            RSafeArray::Dates(_) => VT_DATE,
            RSafeArray::BStrings(_) => VT_BSTR,
            RSafeArray::Dispatchs(_) => VT_DISPATCH,
            RSafeArray::Bools(_) => VT_BOOL,
            RSafeArray::Variants(_) => VT_VARIANT,
            RSafeArray::Unknowns(_) => VT_UNKNOWN,
            RSafeArray::Decimals(_) => VT_DECIMAL,
            RSafeArray::Chars(_) => VT_I1,
            RSafeArray::UChars(_) => VT_UI1,
            RSafeArray::UShorts(_) => VT_UI2,
            RSafeArray::ULongs(_) => VT_UI4,
            RSafeArray::Ints(_) => VT_INT,
            RSafeArray::UInts(_) => VT_UINT,
        }
    }

    /// Strips a vector of dispatch-capable capabilities into the matching
    /// array arm.
    pub fn from_vec_dispatch(vec: Vec<WrappedDispatch>) -> (r: RSafeArray)
        ensures
            r == RSafeArray::Dispatchs(vec),
    {
        RSafeArray::Dispatchs(vec)
    }

    /// Strips a vector of base-interface capabilities into the matching
    /// array arm.
    pub fn from_vec_unknown(vec: Vec<WrappedUnknown>) -> (r: RSafeArray)
        ensures
            r == RSafeArray::Unknowns(vec),
    {
        RSafeArray::Unknowns(vec)
    }

    /// Encodes this array as a raw foreign array record: the arm's
    /// element tag, one zero-based dimension sized exactly to the element
    /// count, and one encoded cell per element in index order.
    #[verifier::loop_isolation(false)]
    pub fn to_wire(&self) -> (r: CSafeArrayData)
        requires
            array_fits_wire(self.deep_view()),
        ensures
            r.deep_view() == spec_wire_array(self.deep_view()),
        decreases self,
    {
        let vt = self.vartype();
        match self {
            RSafeArray::Shorts(inner) => {
                let n = inner.len();
                let mut cells: Vec<WirePayload> = Vec::new();
                let mut i: usize = 0;
                while i < n
                    invariant
                        i <= n,
                        cells@.len() == i,
                        forall|j: int|
                            0 <= j < i ==> vw_payload(#[trigger] cells@[j]) == spec_wire_cells(
                                vw_array(*self),
                            )[j],
                    decreases n - i,
                {
                    cells.push(WirePayload::IVal(inner[i]));
                    i = i + 1;
                }
                proof {
                    lemma_vw_cells(cells@);
                    assert(vw_cells(cells@) =~= spec_wire_cells(vw_array(*self)));
                }
                let r = assemble_array(vt, n, cells);
                proof {
                    assert(r.deep_view() =~= spec_wire_array(vw_array(*self)));
                }
                r
            },
            RSafeArray::Longs(inner) => {
                let n = inner.len();
                let mut cells: Vec<WirePayload> = Vec::new();
                let mut i: usize = 0;
                while i < n
                    invariant
                        i <= n,
                        cells@.len() == i,
                        forall|j: int|
                            0 <= j < i ==> vw_payload(#[trigger] cells@[j]) == spec_wire_cells(
                                vw_array(*self),
                            )[j],
                    decreases n - i,
                {
                    cells.push(WirePayload::LVal(inner[i]));
                    i = i + 1;
                }
                proof {
                    lemma_vw_cells(cells@);
                    assert(vw_cells(cells@) =~= spec_wire_cells(vw_array(*self)));
                }
                let r = assemble_array(vt, n, cells);
                proof {
                    assert(r.deep_view() =~= spec_wire_array(vw_array(*self)));
                }
                r
            },
            RSafeArray::Floats(inner) => {
                let n = inner.len();
                let mut cells: Vec<WirePayload> = Vec::new();
                let mut i: usize = 0;
                while i < n
                    invariant
                        i <= n,
                        cells@.len() == i,
                        forall|j: int|
                            0 <= j < i ==> vw_payload(#[trigger] cells@[j]) == spec_wire_cells(
                                vw_array(*self),
                            )[j],
                    decreases n - i,
                {
                    cells.push(WirePayload::FltVal(inner[i]));
                    i = i + 1;
                }
                proof {
                    lemma_vw_cells(cells@);
                    assert(vw_cells(cells@) =~= spec_wire_cells(vw_array(*self)));
                }
                let r = assemble_array(vt, n, cells);
                proof {
                    assert(r.deep_view() =~= spec_wire_array(vw_array(*self)));
                }
                r
            },
            RSafeArray::Doubles(inner) => {
                let n = inner.len();
                let mut cells: Vec<WirePayload> = Vec::new();
                let mut i: usize = 0;
                while i < n
                    invariant
                        i <= n,
                        cells@.len() == i,
                        forall|j: int|
                            0 <= j < i ==> vw_payload(#[trigger] cells@[j]) == spec_wire_cells(
                                vw_array(*self),
                            )[j],
                    decreases n - i,
                {
                    cells.push(WirePayload::DblVal(inner[i]));
                    i = i + 1;
                }
                proof {
                    lemma_vw_cells(cells@);
                    assert(vw_cells(cells@) =~= spec_wire_cells(vw_array(*self)));
                }
                let r = assemble_array(vt, n, cells);
                proof {
                    assert(r.deep_view() =~= spec_wire_array(vw_array(*self)));
                }
                r
            },
            RSafeArray::Currencies(inner) => {
                let n = inner.len();
                let mut cells: Vec<WirePayload> = Vec::new();
                let mut i: usize = 0;
                while i < n
                    invariant
                        i <= n,
                        cells@.len() == i,
                        forall|j: int|
                            0 <= j < i ==> vw_payload(#[trigger] cells@[j]) == spec_wire_cells(
                                vw_array(*self),
                            )[j],
                    decreases n - i,
                {
                    cells.push(WirePayload::CyVal(inner[i].0));
                    i = i + 1;
                }
                proof {
                    lemma_vw_cells(cells@);
                    assert(vw_cells(cells@) =~= spec_wire_cells(vw_array(*self)));
                }
                let r = assemble_array(vt, n, cells);
                proof {
                    assert(r.deep_view() =~= spec_wire_array(vw_array(*self)));
                }
                r
            },
            RSafeArray::Dates(inner) => {
                let n = inner.len();
                let mut cells: Vec<WirePayload> = Vec::new();
                let mut i: usize = 0;
                while i < n
                    invariant
                        i <= n,
                        cells@.len() == i,
                        forall|j: int|
                            0 <= j < i ==> vw_payload(#[trigger] cells@[j]) == spec_wire_cells(
                                vw_array(*self),
                            )[j],
                    decreases n - i,
                {
                    cells.push(WirePayload::DateVal(inner[i].0));
                    i = i + 1;
                }
                proof {
                    lemma_vw_cells(cells@);
                    assert(vw_cells(cells@) =~= spec_wire_cells(vw_array(*self)));
                }
                let r = assemble_array(vt, n, cells);
                proof {
                    assert(r.deep_view() =~= spec_wire_array(vw_array(*self)));
                }
                r
            },
            RSafeArray::BStrings(inner) => {
                let n = inner.len();
                let mut cells: Vec<WirePayload> = Vec::new();
                let mut i: usize = 0;
                while i < n
                    invariant
                        i <= n,
                        cells@.len() == i,
                        forall|j: int|
                            0 <= j < i ==> vw_payload(#[trigger] cells@[j]) == spec_wire_cells(
                                vw_array(*self),
                            )[j],
                    decreases n - i,
                {
                    cells.push(WirePayload::BstrVal(BString::from_str(inner[i].as_str()).as_sys()));
                    i = i + 1;
                }
                proof {
                    lemma_vw_cells(cells@);
                    assert(vw_cells(cells@) =~= spec_wire_cells(vw_array(*self)));
                }
                let r = assemble_array(vt, n, cells);
                proof {
                    assert(r.deep_view() =~= spec_wire_array(vw_array(*self)));
                }
                r
            },
            RSafeArray::Dispatchs(inner) => {
                let n = inner.len();
                let mut cells: Vec<WirePayload> = Vec::new();
                let mut i: usize = 0;
                while i < n
                    invariant
                        i <= n,
                        cells@.len() == i,
                        forall|j: int|
                            0 <= j < i ==> vw_payload(#[trigger] cells@[j]) == spec_wire_cells(
                                vw_array(*self),
                            )[j],
                    decreases n - i,
                {
                    cells.push(WirePayload::PdispVal(inner[i].ptr));
                    i = i + 1;
                }
                proof {
                    lemma_vw_cells(cells@);
                    assert(vw_cells(cells@) =~= spec_wire_cells(vw_array(*self)));
                }
                let r = assemble_array(vt, n, cells);
                proof {
                    assert(r.deep_view() =~= spec_wire_array(vw_array(*self)));
                }
                r
            },
            RSafeArray::Bools(inner) => {
                let n = inner.len();
                let mut cells: Vec<WirePayload> = Vec::new();
                let mut i: usize = 0;
                while i < n
                    invariant
                        i <= n,
                        cells@.len() == i,
                        forall|j: int|
                            0 <= j < i ==> vw_payload(#[trigger] cells@[j]) == spec_wire_cells(
                                vw_array(*self),
                            )[j],
                    decreases n - i,
                {
                    cells.push(WirePayload::BoolVal(if inner[i] { VARIANT_TRUE } else { VARIANT_FALSE }));
                    i = i + 1;
                }
                proof {
                    lemma_vw_cells(cells@);
                    assert(vw_cells(cells@) =~= spec_wire_cells(vw_array(*self)));
                }
                let r = assemble_array(vt, n, cells);
                proof {
                    assert(r.deep_view() =~= spec_wire_array(vw_array(*self)));
                }
                r
            },
            RSafeArray::Variants(inner) => {
                let n = inner.len();
                let mut cells: Vec<WirePayload> = Vec::new();
                let mut i: usize = 0;
                while i < n
                    invariant
                        i <= n,
                        cells@.len() == i,
                        forall|j: int|
                            0 <= j < i ==> vw_payload(#[trigger] cells@[j]) == spec_wire_cells(
                                vw_array(*self),
                            )[j],
                    decreases n - i,
                {
                    proof {
                        lemma_vw_variants(inner@);
                        lemma_wire_variant_cells_index(vw_variants(inner@));
                        lemma_variants_fit_wire_index(vw_variants(inner@));
                        assert(fits_wire(vw_variants(inner@)[i as int]));
                        assert(vw_variants(inner@)[i as int] == vw_variant(inner@[i as int]));
                        assert(decreases_to!(*self => *inner));
                        assert(decreases_to!(*inner => inner@));
                        assert(decreases_to!(inner@ => inner@[i as int]));
                    }
                    let w = inner[i].into_c_variant();
                    cells.push(WirePayload::PvarVal(Box::new(w)));
                    i = i + 1;
                }
                proof {
                    lemma_vw_cells(cells@);
                    lemma_vw_variants(inner@);
                    lemma_wire_variant_cells_index(vw_variants(inner@));
                    assert(vw_cells(cells@) =~= spec_wire_cells(vw_array(*self)));
                }
                let r = assemble_array(vt, n, cells);
                proof {
                    assert(r.deep_view() =~= spec_wire_array(vw_array(*self)));
                }
                r
            },
            RSafeArray::Unknowns(inner) => {
                let n = inner.len();
                let mut cells: Vec<WirePayload> = Vec::new();
                let mut i: usize = 0;
                while i < n
                    invariant
                        i <= n,
                        cells@.len() == i,
                        forall|j: int|
                            0 <= j < i ==> vw_payload(#[trigger] cells@[j]) == spec_wire_cells(
                                vw_array(*self),
                            )[j],
                    decreases n - i,
                {
                    cells.push(WirePayload::PunkVal(inner[i].ptr));
                    i = i + 1;
                }
                proof {
                    lemma_vw_cells(cells@);
                    assert(vw_cells(cells@) =~= spec_wire_cells(vw_array(*self)));
                }
                let r = assemble_array(vt, n, cells);
                proof {
                    assert(r.deep_view() =~= spec_wire_array(vw_array(*self)));
                }
                r
            },
            RSafeArray::Decimals(inner) => {
                let n = inner.len();
                let mut cells: Vec<WirePayload> = Vec::new();
                let mut i: usize = 0;
                while i < n
                    invariant
                        i <= n,
                        cells@.len() == i,
                        forall|j: int|
                            0 <= j < i ==> vw_payload(#[trigger] cells@[j]) == spec_wire_cells(
                                vw_array(*self),
                            )[j],
                    decreases n - i,
                {
                    cells.push(WirePayload::DecVal(inner[i]));
                    i = i + 1;
                }
                proof {
                    lemma_vw_cells(cells@);
                    assert(vw_cells(cells@) =~= spec_wire_cells(vw_array(*self)));
                }
                let r = assemble_array(vt, n, cells);
                proof {
                    assert(r.deep_view() =~= spec_wire_array(vw_array(*self)));
                }
                r
            },
            RSafeArray::Chars(inner) => {
                let n = inner.len();
                let mut cells: Vec<WirePayload> = Vec::new();
                let mut i: usize = 0;
                while i < n
                    invariant
                        i <= n,
                        cells@.len() == i,
                        forall|j: int|
                            0 <= j < i ==> vw_payload(#[trigger] cells@[j]) == spec_wire_cells(
                                vw_array(*self),
                            )[j],
                    decreases n - i,
                {
                    cells.push(WirePayload::CVal(inner[i]));
                    i = i + 1;
                }
                proof {
                    lemma_vw_cells(cells@);
                    assert(vw_cells(cells@) =~= spec_wire_cells(vw_array(*self)));
                }
                let r = assemble_array(vt, n, cells);
                proof {
                    assert(r.deep_view() =~= spec_wire_array(vw_array(*self)));
                }
                r
            },
            RSafeArray::UChars(inner) => {
                let n = inner.len();
                let mut cells: Vec<WirePayload> = Vec::new();
                let mut i: usize = 0;
                while i < n
                    invariant
                        i <= n,
                        cells@.len() == i,
                        forall|j: int|
                            0 <= j < i ==> vw_payload(#[trigger] cells@[j]) == spec_wire_cells(
                                vw_array(*self),
                            )[j],
                    decreases n - i,
                {
                    cells.push(WirePayload::BVal(inner[i]));
                    i = i + 1;
                }
                proof {
                    lemma_vw_cells(cells@);
                    assert(vw_cells(cells@) =~= spec_wire_cells(vw_array(*self)));
                }
                let r = assemble_array(vt, n, cells);
                proof {
                    assert(r.deep_view() =~= spec_wire_array(vw_array(*self)));
                }
                r
            },
            RSafeArray::UShorts(inner) => {
                let n = inner.len();
                let mut cells: Vec<WirePayload> = Vec::new();
                let mut i: usize = 0;
                while i < n
                    invariant
                        i <= n,
                        cells@.len() == i,
                        forall|j: int|
                            0 <= j < i ==> vw_payload(#[trigger] cells@[j]) == spec_wire_cells(
                                vw_array(*self),
                            )[j],
                    decreases n - i,
                {
                    cells.push(WirePayload::UiVal(inner[i]));
                    i = i + 1;
                }
                proof {
                    lemma_vw_cells(cells@);
                    assert(vw_cells(cells@) =~= spec_wire_cells(vw_array(*self)));
                }
                let r = assemble_array(vt, n, cells);
                proof {
                    assert(r.deep_view() =~= spec_wire_array(vw_array(*self)));
                }
                r
            },
            RSafeArray::ULongs(inner) => {
                let n = inner.len();
                let mut cells: Vec<WirePayload> = Vec::new();
                let mut i: usize = 0;
                while i < n
                    invariant
                        i <= n,
                        cells@.len() == i,
                        forall|j: int|
                            0 <= j < i ==> vw_payload(#[trigger] cells@[j]) == spec_wire_cells(
                                vw_array(*self),
                            )[j],
                    decreases n - i,
                {
                    cells.push(WirePayload::UlVal(inner[i]));
                    i = i + 1;
                }
                proof {
                    lemma_vw_cells(cells@);
                    assert(vw_cells(cells@) =~= spec_wire_cells(vw_array(*self)));
                }
                let r = assemble_array(vt, n, cells);
                proof {
                    assert(r.deep_view() =~= spec_wire_array(vw_array(*self)));
                }
                r
            },
            RSafeArray::Ints(inner) => {
                let n = inner.len();
                let mut cells: Vec<WirePayload> = Vec::new();
                let mut i: usize = 0;
                while i < n
                    invariant
                        i <= n,
                        cells@.len() == i,
                        forall|j: int|
                            0 <= j < i ==> vw_payload(#[trigger] cells@[j]) == spec_wire_cells(
                                vw_array(*self),
                            )[j],
                    decreases n - i,
                {
                    cells.push(WirePayload::IntVal(inner[i].0));
                    i = i + 1;
                }
                proof {
                    lemma_vw_cells(cells@);
                    assert(vw_cells(cells@) =~= spec_wire_cells(vw_array(*self)));
                }
                let r = assemble_array(vt, n, cells);
                proof {
                    assert(r.deep_view() =~= spec_wire_array(vw_array(*self)));
                }
                r
            },
            RSafeArray::UInts(inner) => {
                let n = inner.len();
                let mut cells: Vec<WirePayload> = Vec::new();
                let mut i: usize = 0;
                while i < n
                    invariant
                        i <= n,
                        cells@.len() == i,
                        forall|j: int|
                            0 <= j < i ==> vw_payload(#[trigger] cells@[j]) == spec_wire_cells(
                                vw_array(*self),
                            )[j],
                    decreases n - i,
                {
                    cells.push(WirePayload::UintVal(inner[i].0));
                    i = i + 1;
                }
                proof {
                    lemma_vw_cells(cells@);
                    assert(vw_cells(cells@) =~= spec_wire_cells(vw_array(*self)));
                }
                let r = assemble_array(vt, n, cells);
                proof {
                    assert(r.deep_view() =~= spec_wire_array(vw_array(*self)));
                }
                r
            },
        }
    }

    /// Decodes a raw foreign array record into the matching array arm,
    /// dispatching on the element tag and copying one element per cell,
    /// in cell order. Other than one dimension, an unsupported element
    /// tag, or a cell that does not agree with the element tag, is
    /// answered with a typed error.
    #[verifier::loop_isolation(false)]
    #[verifier::rlimit(100)]
    pub fn from_wire(c: &CSafeArrayData) -> (r: Result<RSafeArray, ClrError>)
        ensures
            r matches Ok(a) ==> spec_array_of(c.deep_view()) == Ok::<RSafeArrayView, ClrError>(
                a.deep_view(),
            ),
            r matches Err(e) ==> spec_array_of(c.deep_view()) == Err::<RSafeArrayView, ClrError>(e),
        decreases c,
    {
        if c.bounds.len() != 1 {
            return Err(
                ClrError::UnsupportedDimensions { dims: #[verifier::truncate] (c.bounds.len() as u32) },
            );
        }
        if c.vt == VT_I2 {
            let n = c.cells.len();
            let mut out: Vec<i16> = Vec::new();
            let mut i: usize = 0;
            while i < n
                invariant
                    i <= n,
                    out@.len() == i,
                    forall|j: int| 0 <= j < i ==> vw_payload(#[trigger] c.cells@[j]) is IVal,
                    forall|j: int|
                        0 <= j < i ==> #[trigger] out@[j] == (match vw_payload(c.cells@[j]) {
                            WirePayloadView::IVal(x) => x,
                            _ => 0i16,
                        }),
                decreases n - i,
            {
                match &c.cells[i] {
                    WirePayload::IVal(x) => {
                        out.push(*x);
                    },
                    _ => {
                        proof {
                            lemma_vw_cells(c.cells@);
                            assert(c.deep_view().cells[i as int] == vw_payload(
                                c.cells@[i as int],
                            ));
                            assert(!(vw_payload(c.cells@[i as int]) is IVal));
                        }
                        return Err(ClrError::Conversion { source: SourceLocation::ArrayDecode });
                    },
                }
                i = i + 1;
            }
            proof {
                lemma_vw_cells(c.cells@);
                assert(out.deep_view() =~= (match spec_array_of(c.deep_view()) {
                    Ok(RSafeArrayView::Shorts(es)) => es,
                    _ => arbitrary(),
                }));
            }
            Ok(RSafeArray::Shorts(out))
        } else if c.vt == VT_I4 {
            let n = c.cells.len();
            let mut out: Vec<i32> = Vec::new();
            let mut i: usize = 0;
            while i < n
                invariant
                    i <= n,
                    out@.len() == i,
                    forall|j: int| 0 <= j < i ==> vw_payload(#[trigger] c.cells@[j]) is LVal,
                    forall|j: int|
                        0 <= j < i ==> #[trigger] out@[j] == (match vw_payload(c.cells@[j]) {
                            WirePayloadView::LVal(x) => x,
                            _ => 0i32,
                        }),
                decreases n - i,
            {
                match &c.cells[i] {
                    WirePayload::LVal(x) => {
                        out.push(*x);
                    },
                    _ => {
                        proof {
                            lemma_vw_cells(c.cells@);
                            assert(c.deep_view().cells[i as int] == vw_payload(
                                c.cells@[i as int],
                            ));
                            assert(!(vw_payload(c.cells@[i as int]) is LVal));
                        }
                        return Err(ClrError::Conversion { source: SourceLocation::ArrayDecode });
                    },
                }
                i = i + 1;
            }
            proof {
                lemma_vw_cells(c.cells@);
                assert(out.deep_view() =~= (match spec_array_of(c.deep_view()) {
                    Ok(RSafeArrayView::Longs(es)) => es,
                    _ => arbitrary(),
                }));
            }
            Ok(RSafeArray::Longs(out))
        } else if c.vt == VT_R4 {
            let n = c.cells.len();
            let mut out: Vec<u32> = Vec::new();
            let mut i: usize = 0;
            while i < n
                invariant
                    i <= n,
                    out@.len() == i,
                    forall|j: int| 0 <= j < i ==> vw_payload(#[trigger] c.cells@[j]) is FltVal,
                    forall|j: int|
                        0 <= j < i ==> #[trigger] out@[j] == (match vw_payload(c.cells@[j]) {
                            WirePayloadView::FltVal(x) => x,
                            _ => 0u32,
                        }),
                decreases n - i,
            {
                match &c.cells[i] {
                    WirePayload::FltVal(x) => {
                        out.push(*x);
                    },
                    _ => {
                        proof {
                            lemma_vw_cells(c.cells@);
                            assert(c.deep_view().cells[i as int] == vw_payload(
                                c.cells@[i as int],
                            ));
                            assert(!(vw_payload(c.cells@[i as int]) is FltVal));
                        }
                        return Err(ClrError::Conversion { source: SourceLocation::ArrayDecode });
                    },
                }
                i = i + 1;
            }
            proof {
                lemma_vw_cells(c.cells@);
                assert(out.deep_view() =~= (match spec_array_of(c.deep_view()) {
                    Ok(RSafeArrayView::Floats(es)) => es,
                    _ => arbitrary(),
                }));
            }
            Ok(RSafeArray::Floats(out))
        } else if c.vt == VT_R8 {
            let n = c.cells.len();
            let mut out: Vec<u64> = Vec::new();
            let mut i: usize = 0;
            while i < n
                invariant
                    i <= n,
                    out@.len() == i,
                    forall|j: int| 0 <= j < i ==> vw_payload(#[trigger] c.cells@[j]) is DblVal,
                    forall|j: int|
                        0 <= j < i ==> #[trigger] out@[j] == (match vw_payload(c.cells@[j]) {
                            WirePayloadView::DblVal(x) => x,
                            _ => 0u64,
                        }),
                decreases n - i,
            {
                match &c.cells[i] {
                    WirePayload::DblVal(x) => {
                        out.push(*x);
                    },
                    _ => {
                        proof {
                            lemma_vw_cells(c.cells@);
                            assert(c.deep_view().cells[i as int] == vw_payload(
                                c.cells@[i as int],
                            ));
                            assert(!(vw_payload(c.cells@[i as int]) is DblVal));
                        }
                        return Err(ClrError::Conversion { source: SourceLocation::ArrayDecode });
                    },
                }
                i = i + 1;
            }
            proof {
                lemma_vw_cells(c.cells@);
                assert(out.deep_view() =~= (match spec_array_of(c.deep_view()) {
                    Ok(RSafeArrayView::Doubles(es)) => es,
                    _ => arbitrary(),
                }));
            }
            Ok(RSafeArray::Doubles(out))
        } else if c.vt == VT_CY {
            let n = c.cells.len();
            let mut out: Vec<Currency> = Vec::new();
            let mut i: usize = 0;
            while i < n
                invariant
                    i <= n,
                    out@.len() == i,
                    forall|j: int| 0 <= j < i ==> vw_payload(#[trigger] c.cells@[j]) is CyVal,
                    forall|j: int|
                        0 <= j < i ==> #[trigger] out@[j] == (match vw_payload(c.cells@[j]) {
                            WirePayloadView::CyVal(x) => Currency(x),
                            _ => Currency(0),
                        }),
                decreases n - i,
            {
                match &c.cells[i] {
                    WirePayload::CyVal(x) => {
                        out.push(Currency(*x));
                    },
                    _ => {
                        proof {
                            lemma_vw_cells(c.cells@);
                            assert(c.deep_view().cells[i as int] == vw_payload(
                                c.cells@[i as int],
                            ));
                            assert(!(vw_payload(c.cells@[i as int]) is CyVal));
                        }
                        return Err(ClrError::Conversion { source: SourceLocation::ArrayDecode });
                    },
                }
                i = i + 1;
            }
            proof {
                lemma_vw_cells(c.cells@);
                assert(out.deep_view() =~= (match spec_array_of(c.deep_view()) {
                    Ok(RSafeArrayView::Currencies(es)) => es,
                    _ => arbitrary(),
                }));
            }
            Ok(RSafeArray::Currencies(out))
        } else if c.vt == VT_DATE {
            let n = c.cells.len();
            let mut out: Vec<Date> = Vec::new();
            let mut i: usize = 0;
            while i < n
                invariant
                    i <= n,
                    out@.len() == i,
                    forall|j: int| 0 <= j < i ==> vw_payload(#[trigger] c.cells@[j]) is DateVal,
                    forall|j: int|
                        0 <= j < i ==> #[trigger] out@[j] == (match vw_payload(c.cells@[j]) {
                            WirePayloadView::DateVal(x) => Date(x),
                            _ => Date(0),
                        }),
                decreases n - i,
            {
                match &c.cells[i] {
                    WirePayload::DateVal(x) => {
                        out.push(Date(*x));
                    },
                    _ => {
                        proof {
                            lemma_vw_cells(c.cells@);
                            assert(c.deep_view().cells[i as int] == vw_payload(
                                c.cells@[i as int],
                            ));
                            assert(!(vw_payload(c.cells@[i as int]) is DateVal));
                        }
                        return Err(ClrError::Conversion { source: SourceLocation::ArrayDecode });
                    },
                }
                i = i + 1;
            }
            proof {
                lemma_vw_cells(c.cells@);
                assert(out.deep_view() =~= (match spec_array_of(c.deep_view()) {
                    Ok(RSafeArrayView::Dates(es)) => es,
                    _ => arbitrary(),
                }));
            }
            Ok(RSafeArray::Dates(out))
        } else if c.vt == VT_BSTR {
            let n = c.cells.len();
            let mut out: Vec<String> = Vec::new();
            let mut i: usize = 0;
            while i < n
                invariant
                    i <= n,
                    out@.len() == i,
                    forall|j: int| 0 <= j < i ==> vw_payload(#[trigger] c.cells@[j]) is BstrVal,
                    forall|j: int|
                        0 <= j < i ==> #[trigger] out@[j]@ == (match vw_payload(c.cells@[j]) {
                            WirePayloadView::BstrVal(u) => utf16_lossy_of(u),
                            _ => Seq::empty(),
                        }),
                decreases n - i,
            {
                match &c.cells[i] {
                    WirePayload::BstrVal(b) => {
                        out.push(BString::from_ptr_safe(b).to_string());
                    },
                    _ => {
                        proof {
                            lemma_vw_cells(c.cells@);
                            assert(c.deep_view().cells[i as int] == vw_payload(
                                c.cells@[i as int],
                            ));
                            assert(!(vw_payload(c.cells@[i as int]) is BstrVal));
                        }
                        return Err(ClrError::Conversion { source: SourceLocation::ArrayDecode });
                    },
                }
                i = i + 1;
            }
            proof {
                lemma_vw_cells(c.cells@);
                assert(out.deep_view() =~= (match spec_array_of(c.deep_view()) {
                    Ok(RSafeArrayView::BStrings(es)) => es,
                    _ => arbitrary(),
                }));
            }
            Ok(RSafeArray::BStrings(out))
        } else if c.vt == VT_DISPATCH {
            let n = c.cells.len();
            let mut out: Vec<WrappedDispatch> = Vec::new();
            let mut i: usize = 0;
            while i < n
                invariant
                    i <= n,
                    out@.len() == i,
                    forall|j: int| 0 <= j < i ==> vw_payload(#[trigger] c.cells@[j]) is PdispVal,
                    forall|j: int|
                        0 <= j < i ==> #[trigger] out@[j] == (match vw_payload(c.cells@[j]) {
                            WirePayloadView::PdispVal(p) => WrappedDispatch { ptr: p },
                            _ => WrappedDispatch { ptr: 0 },
                        }),
                decreases n - i,
            {
                match &c.cells[i] {
                    WirePayload::PdispVal(p) => {
                        out.push(WrappedDispatch { ptr: *p });
                    },
                    _ => {
                        proof {
                            lemma_vw_cells(c.cells@);
                            assert(c.deep_view().cells[i as int] == vw_payload(
                                c.cells@[i as int],
                            ));
                            assert(!(vw_payload(c.cells@[i as int]) is PdispVal));
                        }
                        return Err(ClrError::Conversion { source: SourceLocation::ArrayDecode });
                    },
                }
                i = i + 1;
            }
            proof {
                lemma_vw_cells(c.cells@);
                assert(out.deep_view() =~= (match spec_array_of(c.deep_view()) {
                    Ok(RSafeArrayView::Dispatchs(es)) => es,
                    _ => arbitrary(),
                }));
            }
            Ok(RSafeArray::Dispatchs(out))
        } else if c.vt == VT_BOOL {
            let n = c.cells.len();
            let mut out: Vec<bool> = Vec::new();
            let mut i: usize = 0;
            while i < n
                invariant
                    i <= n,
                    out@.len() == i,
                    forall|j: int| 0 <= j < i ==> vw_payload(#[trigger] c.cells@[j]) is BoolVal,
                    forall|j: int|
                        0 <= j < i ==> #[trigger] out@[j] == (match vw_payload(c.cells@[j]) {
                            WirePayloadView::BoolVal(x) => x == VARIANT_TRUE,
                            _ => false,
                        }),
                decreases n - i,
            {
                match &c.cells[i] {
                    WirePayload::BoolVal(x) => {
                        out.push(*x == VARIANT_TRUE);
                    },
                    _ => {
                        proof {
                            lemma_vw_cells(c.cells@);
                            assert(c.deep_view().cells[i as int] == vw_payload(
                                c.cells@[i as int],
                            ));
                            assert(!(vw_payload(c.cells@[i as int]) is BoolVal));
                        }
                        return Err(ClrError::Conversion { source: SourceLocation::ArrayDecode });
                    },
                }
                i = i + 1;
            }
            proof {
                lemma_vw_cells(c.cells@);
                assert(out.deep_view() =~= (match spec_array_of(c.deep_view()) {
                    Ok(RSafeArrayView::Bools(es)) => es,
                    _ => arbitrary(),
                }));
            }
            Ok(RSafeArray::Bools(out))
        } else if c.vt == VT_VARIANT {
            let n = c.cells.len();
            let mut out: Vec<Variant> = Vec::new();
            let mut i: usize = 0;
            while i < n
                invariant
                    i <= n,
                    out@.len() == i,
                    spec_variants_of_cells(vw_cells(c.cells@).subrange(0, i as int)) == Ok::<
                        Seq<VariantView>,
                        ClrError,
                    >(vw_variants(out@)),
                decreases n - i,
            {
                let ghost whole = vw_cells(c.cells@);
                let ghost prefix = whole.subrange(0, i as int);
                let ghost rest = whole.subrange(i as int, whole.len() as int);
                proof {
                    lemma_vw_cells(c.cells@);
                    assert(rest[0] == vw_payload(c.cells@[i as int]));
                }
                match &c.cells[i] {
                    WirePayload::PvarVal(b) => {
                        proof {
                            assert(decreases_to!(*c => c.cells));
                            assert(decreases_to!(c.cells => c.cells@));
                            assert(decreases_to!(c.cells@ => c.cells@[i as int]));
                            assert(decreases_to!(c.cells@[i as int] => **b));
                        }
                        match Variant::from_c_variant(&**b) {
                            Ok(v) => {
                                proof {
                                    let single = seq![vw_payload(c.cells@[i as int])];
                                    lemma_variants_cells_append(prefix, single);
                                    assert(whole.subrange(0, i + 1 as int) =~= prefix + single);
                                    assert(single.subrange(1, 1) =~= Seq::<
                                        WirePayloadView,
                                    >::empty());
                                    assert(spec_variants_of_cells(Seq::<WirePayloadView>::empty())
                                        == Ok::<Seq<VariantView>, ClrError>(Seq::empty()));
                                    assert(seq![vw_variant(v)] + Seq::<VariantView>::empty() =~= seq![
                                        vw_variant(v),
                                    ]);
                                    assert(spec_variants_of_cells(single) == Ok::<
                                        Seq<VariantView>,
                                        ClrError,
                                    >(seq![vw_variant(v)]));
                                    lemma_vw_variants(out@.push(v));
                                    lemma_vw_variants(out@);
                                    assert(vw_variants(out@.push(v)) =~= vw_variants(out@) + seq![
                                        vw_variant(v),
                                    ]);
                                }
                                out.push(v);
                            },
                            Err(e) => {
                                proof {
                                    lemma_variants_cells_append(prefix, rest);
                                    assert(prefix + rest =~= whole);
                                }
                                return Err(e);
                            },
                        }
                    },
                    _ => {
                        proof {
                            lemma_variants_cells_append(prefix, rest);
                            assert(prefix + rest =~= whole);
                        }
                        return Err(ClrError::Conversion { source: SourceLocation::ArrayDecode });
                    },
                }
                i = i + 1;
            }
            proof {
                lemma_vw_cells(c.cells@);
                assert(vw_cells(c.cells@).subrange(0, n as int) =~= vw_cells(c.cells@));
            }
            Ok(RSafeArray::Variants(out))
        } else if c.vt == VT_UNKNOWN {
            let n = c.cells.len();
            let mut out: Vec<WrappedUnknown> = Vec::new();
            let mut i: usize = 0;
            while i < n
                invariant
                    i <= n,
                    out@.len() == i,
                    forall|j: int| 0 <= j < i ==> vw_payload(#[trigger] c.cells@[j]) is PunkVal,
                    forall|j: int|
                        0 <= j < i ==> #[trigger] out@[j] == (match vw_payload(c.cells@[j]) {
                            WirePayloadView::PunkVal(p) => WrappedUnknown { ptr: p },
                            _ => WrappedUnknown { ptr: 0 },
                        }),
                decreases n - i,
            {
                match &c.cells[i] {
                    WirePayload::PunkVal(p) => {
                        out.push(WrappedUnknown { ptr: *p });
                    },
                    _ => {
                        proof {
                            lemma_vw_cells(c.cells@);
                            assert(c.deep_view().cells[i as int] == vw_payload(
                                c.cells@[i as int],
                            ));
                            assert(!(vw_payload(c.cells@[i as int]) is PunkVal));
                        }
                        return Err(ClrError::Conversion { source: SourceLocation::ArrayDecode });
                    },
                }
                i = i + 1;
            }
            proof {
                lemma_vw_cells(c.cells@);
                assert(out.deep_view() =~= (match spec_array_of(c.deep_view()) {
                    Ok(RSafeArrayView::Unknowns(es)) => es,
                    _ => arbitrary(),
                }));
            }
            Ok(RSafeArray::Unknowns(out))
        } else if c.vt == VT_DECIMAL {
            let n = c.cells.len();
            let mut out: Vec<Decimal96> = Vec::new();
            let mut i: usize = 0;
            while i < n
                invariant
                    i <= n,
                    out@.len() == i,
                    forall|j: int| 0 <= j < i ==> vw_payload(#[trigger] c.cells@[j]) is DecVal,
                    forall|j: int|
                        0 <= j < i ==> #[trigger] out@[j] == (match vw_payload(c.cells@[j]) {
                            WirePayloadView::DecVal(d) => d,
                            _ => Decimal96 { reserved: 0, scale: 0, sign: 0, hi32: 0, lo64: 0 },
                        }),
                decreases n - i,
            {
                match &c.cells[i] {
                    WirePayload::DecVal(d) => {
                        out.push(*d);
                    },
                    _ => {
                        proof {
                            lemma_vw_cells(c.cells@);
                            assert(c.deep_view().cells[i as int] == vw_payload(
                                c.cells@[i as int],
                            ));
                            assert(!(vw_payload(c.cells@[i as int]) is DecVal));
                        }
                        return Err(ClrError::Conversion { source: SourceLocation::ArrayDecode });
                    },
                }
                i = i + 1;
            }
            proof {
                lemma_vw_cells(c.cells@);
                assert(out.deep_view() =~= (match spec_array_of(c.deep_view()) {
                    Ok(RSafeArrayView::Decimals(es)) => es,
                    _ => arbitrary(),
                }));
            }
            Ok(RSafeArray::Decimals(out))
        } else if c.vt == VT_I1 {
            let n = c.cells.len();
            let mut out: Vec<i8> = Vec::new();
            let mut i: usize = 0;
            while i < n
                invariant
                    i <= n,
                    out@.len() == i,
                    forall|j: int| 0 <= j < i ==> vw_payload(#[trigger] c.cells@[j]) is CVal,
                    forall|j: int|
                        0 <= j < i ==> #[trigger] out@[j] == (match vw_payload(c.cells@[j]) {
                            WirePayloadView::CVal(x) => x,
                            _ => 0i8,
                        }),
                decreases n - i,
            {
                match &c.cells[i] {
                    WirePayload::CVal(x) => {
                        out.push(*x);
                    },
                    _ => {
                        proof {
                            lemma_vw_cells(c.cells@);
                            assert(c.deep_view().cells[i as int] == vw_payload(
                                c.cells@[i as int],
                            ));
                            assert(!(vw_payload(c.cells@[i as int]) is CVal));
                        }
                        return Err(ClrError::Conversion { source: SourceLocation::ArrayDecode });
                    },
                }
                i = i + 1;
            }
            proof {
                lemma_vw_cells(c.cells@);
                assert(out.deep_view() =~= (match spec_array_of(c.deep_view()) {
                    Ok(RSafeArrayView::Chars(es)) => es,
                    _ => arbitrary(),
                }));
            }
            Ok(RSafeArray::Chars(out))
        } else if c.vt == VT_UI1 {
            let n = c.cells.len();
            let mut out: Vec<u8> = Vec::new();
            let mut i: usize = 0;
            while i < n
                invariant
                    i <= n,
                    out@.len() == i,
                    forall|j: int| 0 <= j < i ==> vw_payload(#[trigger] c.cells@[j]) is BVal,
                    forall|j: int|
                        0 <= j < i ==> #[trigger] out@[j] == (match vw_payload(c.cells@[j]) {
                            WirePayloadView::BVal(x) => x,
                            _ => 0u8,
                        }),
                decreases n - i,
            {
                match &c.cells[i] {
                    WirePayload::BVal(x) => {
                        out.push(*x);
                    },
                    _ => {
                        proof {
                            lemma_vw_cells(c.cells@);
                            assert(c.deep_view().cells[i as int] == vw_payload(
                                c.cells@[i as int],
                            ));
                            assert(!(vw_payload(c.cells@[i as int]) is BVal));
                        }
                        return Err(ClrError::Conversion { source: SourceLocation::ArrayDecode });
                    },
                }
                i = i + 1;
            }
            proof {
                lemma_vw_cells(c.cells@);
                assert(out.deep_view() =~= (match spec_array_of(c.deep_view()) {
                    Ok(RSafeArrayView::UChars(es)) => es,
                    _ => arbitrary(),
                }));
            }
            Ok(RSafeArray::UChars(out))
        } else if c.vt == VT_UI2 {
            let n = c.cells.len();
            let mut out: Vec<u16> = Vec::new();
            let mut i: usize = 0;
            while i < n
                invariant
                    i <= n,
                    out@.len() == i,
                    forall|j: int| 0 <= j < i ==> vw_payload(#[trigger] c.cells@[j]) is UiVal,
                    forall|j: int|
                        0 <= j < i ==> #[trigger] out@[j] == (match vw_payload(c.cells@[j]) {
                            WirePayloadView::UiVal(x) => x,
                            _ => 0u16,
                        }),
                decreases n - i,
            {
                match &c.cells[i] {
                    WirePayload::UiVal(x) => {
                        out.push(*x);
                    },
                    _ => {
                        proof {
                            lemma_vw_cells(c.cells@);
                            assert(c.deep_view().cells[i as int] == vw_payload(
                                c.cells@[i as int],
                            ));
                            assert(!(vw_payload(c.cells@[i as int]) is UiVal));
                        }
                        return Err(ClrError::Conversion { source: SourceLocation::ArrayDecode });
                    },
                }
                i = i + 1;
            }
            proof {
                lemma_vw_cells(c.cells@);
                assert(out.deep_view() =~= (match spec_array_of(c.deep_view()) {
                    Ok(RSafeArrayView::UShorts(es)) => es,
                    _ => arbitrary(),
                }));
            }
            Ok(RSafeArray::UShorts(out))
        } else if c.vt == VT_UI4 {
            let n = c.cells.len();
            let mut out: Vec<u32> = Vec::new();
            let mut i: usize = 0;
            while i < n
                invariant
                    i <= n,
                    out@.len() == i,
                    forall|j: int| 0 <= j < i ==> vw_payload(#[trigger] c.cells@[j]) is UlVal,
                    forall|j: int|
                        0 <= j < i ==> #[trigger] out@[j] == (match vw_payload(c.cells@[j]) {
                            WirePayloadView::UlVal(x) => x,
                            _ => 0u32,
                        }),
                decreases n - i,
            {
                match &c.cells[i] {
                    WirePayload::UlVal(x) => {
                        out.push(*x);
                    },
                    _ => {
                        proof {
                            lemma_vw_cells(c.cells@);
                            assert(c.deep_view().cells[i as int] == vw_payload(
                                c.cells@[i as int],
                            ));
                            assert(!(vw_payload(c.cells@[i as int]) is UlVal));
                        }
                        return Err(ClrError::Conversion { source: SourceLocation::ArrayDecode });
                    },
                }
                i = i + 1;
            }
            proof {
                lemma_vw_cells(c.cells@);
                assert(out.deep_view() =~= (match spec_array_of(c.deep_view()) {
                    Ok(RSafeArrayView::ULongs(es)) => es,
                    _ => arbitrary(),
                }));
            }
            Ok(RSafeArray::ULongs(out))
        } else if c.vt == VT_INT {
            let n = c.cells.len();
            let mut out: Vec<Int> = Vec::new();
            let mut i: usize = 0;
            while i < n
                invariant
                    i <= n,
                    out@.len() == i,
                    forall|j: int| 0 <= j < i ==> vw_payload(#[trigger] c.cells@[j]) is IntVal,
                    forall|j: int|
                        0 <= j < i ==> #[trigger] out@[j] == (match vw_payload(c.cells@[j]) {
                            WirePayloadView::IntVal(x) => Int(x),
                            _ => Int(0),
                        }),
                decreases n - i,
            {
                match &c.cells[i] {
                    WirePayload::IntVal(x) => {
                        out.push(Int(*x));
                    },
                    _ => {
                        proof {
                            lemma_vw_cells(c.cells@);
                            assert(c.deep_view().cells[i as int] == vw_payload(
                                c.cells@[i as int],
                            ));
                            assert(!(vw_payload(c.cells@[i as int]) is IntVal));
                        }
                        return Err(ClrError::Conversion { source: SourceLocation::ArrayDecode });
                    },
                }
                i = i + 1;
            }
            proof {
                lemma_vw_cells(c.cells@);
                assert(out.deep_view() =~= (match spec_array_of(c.deep_view()) {
                    Ok(RSafeArrayView::Ints(es)) => es,
                    _ => arbitrary(),
                }));
            }
            Ok(RSafeArray::Ints(out))
        } else if c.vt == VT_UINT {
            let n = c.cells.len();
            let mut out: Vec<UInt> = Vec::new();
            let mut i: usize = 0;
            while i < n
                invariant
                    i <= n,
                    out@.len() == i,
                    forall|j: int| 0 <= j < i ==> vw_payload(#[trigger] c.cells@[j]) is UintVal,
                    forall|j: int|
                        0 <= j < i ==> #[trigger] out@[j] == (match vw_payload(c.cells@[j]) {
                            WirePayloadView::UintVal(x) => UInt(x),
                            _ => UInt(0),
                        }),
                decreases n - i,
            {
                match &c.cells[i] {
                    WirePayload::UintVal(x) => {
                        out.push(UInt(*x));
                    },
                    _ => {
                        proof {
                            lemma_vw_cells(c.cells@);
                            assert(c.deep_view().cells[i as int] == vw_payload(
                                c.cells@[i as int],
                            ));
                            assert(!(vw_payload(c.cells@[i as int]) is UintVal));
                        }
                        return Err(ClrError::Conversion { source: SourceLocation::ArrayDecode });
                    },
                }
                i = i + 1;
            }
            proof {
                lemma_vw_cells(c.cells@);
                assert(out.deep_view() =~= (match spec_array_of(c.deep_view()) {
                    Ok(RSafeArrayView::UInts(es)) => es,
                    _ => arbitrary(),
                }));
            }
            Ok(RSafeArray::UInts(out))
        } else {
            Err(ClrError::UnsupportedVartype { vt: c.vt })
        }
    }

    /// Encodes this array out to a freshly created foreign array: one
    /// creation call, then one element write per element in index order
    /// from a zero lower bound. A failed write would destroy the
    /// partially built array and report the failing call; the writes of
    /// a well-formed array, though, are promised to succeed, and the
    /// handle — now the caller's to destroy — comes back with the whole
    /// encoded array behind it.
    #[verifier::loop_isolation(false)]
    #[verifier::rlimit(60)]
    pub fn into_safe_array(&self, host: &mut SafeArrayHost) -> (r: Result<usize, ClrError>)
        requires
            old(host).wf(),
            array_fits_wire(self.deep_view()),
            spec_array_len(self.deep_view()) <= i32::MAX,
        ensures
            final(host).wf(),
            r is Ok,
            r matches Ok(h) ==> {
                &&& h == old(host).spec_created() + 1
                &&& final(host).live(h)
                &&& final(host).data(h) == spec_wire_array(self.deep_view())
                &&& final(host).slots_view() =~= old(host).slots_view().push(
                    Some(spec_wire_array(self.deep_view())),
                )
                &&& final(host).spec_destroyed() == old(host).spec_destroyed()
                &&& final(host).spec_fault() == old(host).spec_fault()
            },
    {
        let ghost wv = spec_wire_array(self.deep_view());
        let w = self.to_wire();
        let n = self.len();
        let vt = self.vartype();
        let mut bounds: Vec<SafeArrayBound> = Vec::new();
        bounds.push(SafeArrayBound { c_elements: n as u32, l_lbound: 0 });
        proof {
            lemma_vartype_supported(self.deep_view());
            lemma_wire_cells_ok(self.deep_view());
            lemma_vw_cells(w.cells@);
            assert(bounds@ =~= seq![SafeArrayBound { c_elements: n as u32, l_lbound: 0 }]);
        }
        let psa = host.create(vt, bounds);
        proof {
            assert(spec_created_data(vt, bounds@).bounds == wv.bounds);
        }
        let mut cells = w.cells;
        let mut ix: usize = 0;
        while ix < n
            invariant
                ix <= n,
                cells@.len() == n - ix,
                forall|j: int|
                    0 <= j < n - ix ==> vw_payload(#[trigger] cells@[j]) == wv.cells[ix + j],
                host.wf(),
                host.live(psa),
                psa == old(host).spec_created() + 1,
                host.spec_destroyed() == old(host).spec_destroyed(),
                host.spec_fault() == old(host).spec_fault(),
                host.spec_created() == old(host).spec_created() + 1,
                host.data(psa).vt == wv.vt,
                host.data(psa).bounds == wv.bounds,
                host.data(psa).cells.len() == n,
                forall|j: int| 0 <= j < ix ==> #[trigger] host.data(psa).cells[j] == wv.cells[j],
                forall|j: int|
                    0 <= j < old(host).spec_created() && j != psa - 1 ==> #[trigger] host.slots_view()[j]
                        == old(host).slots_view()[j],
            decreases n - ix,
        {
            let cell = cells.remove(0);
            proof {
                assert(cell.deep_view() == wv.cells[ix as int]);
                assert(cell_ok(wv.vt, cell.deep_view()));
            }
            let hr = host.put_element(psa, ix as i32, cell);
            if hr != S_OK {
                host.destroy(psa);
                return Err(ClrError::InnerCall { hr, source: SourceLocation::SafeArrayPutElement });
            }
            ix = ix + 1;
        }
        proof {
            assert(host.data(psa).cells =~= wv.cells);
            assert(host.data(psa) == wv);
            assert forall|j: int|
                0 <= j < host.slots_view().len() implies host.slots_view()[j] == old(
                host,
            ).slots_view().push(Some(wv))[j] by {
                if j == psa - 1 {
                    assert(host.slots_view()[j] == Some(wv));
                } else {
                    assert(host.slots_view()[j] == old(host).slots_view()[j]);
                }
            }
            assert(host.slots_view() =~= old(host).slots_view().push(Some(wv)));
        }
        Ok(psa)
    }

    /// Decodes the foreign array a live handle names, and destroys it on
    /// every path out — whether the decode succeeds, refuses the shape,
    /// or loses an element read — so the handle is consumed exactly
    /// once. With no injected failure pending, the result is exactly
    /// what the held array decodes to; an injected failure surfaces as
    /// the failing element read's status code, and costs the array all
    /// the same.
    #[verifier::loop_isolation(false)]
    #[verifier::rlimit(60)]
    pub fn from_safe_array(host: &mut SafeArrayHost, psa: usize) -> (r: Result<
        RSafeArray,
        ClrError,
    >)
        requires
            old(host).wf(),
            old(host).live(psa),
        ensures
            final(host).wf(),
            !final(host).live(psa),
            final(host).spec_created() == old(host).spec_created(),
            final(host).spec_destroyed() == old(host).spec_destroyed() + 1,
            final(host).slots_view() =~= old(host).slots_view().update(
                psa - 1,
                None::<CSafeArrayDataView>,
            ),
            r matches Ok(a) ==> spec_array_of(old(host).data(psa)) == Ok::<
                RSafeArrayView,
                ClrError,
            >(a.deep_view()),
            r matches Err(e) ==> (spec_array_of(old(host).data(psa)) == Err::<
                RSafeArrayView,
                ClrError,
            >(e) || (e == (ClrError::InnerCall {
                hr: E_FAIL,
                source: SourceLocation::SafeArrayGetElement,
            }) && old(host).data(psa).bounds.len() == 1 && (old(
                host,
            ).spec_fault() matches Some(k) && k < old(host).data(psa).bounds[0].c_elements))),
            old(host).spec_fault() is None ==> final(host).spec_fault() is None && (r matches Err(
                e,
            ) ==> spec_array_of(old(host).data(psa)) == Err::<RSafeArrayView, ClrError>(e)),
    {
        let ghost d0 = old(host).data(psa);
        proof {
            host.lemma_live_data_wf(psa);
        }
        let dims = host.get_dim(psa);
        if dims != 1 {
            host.destroy(psa);
            return Err(ClrError::UnsupportedDimensions { dims });
        }
        let vt = match host.get_vartype(psa) {
            Ok(v) => v,
            Err(hr) => {
                host.destroy(psa);
                return Err(ClrError::InnerCall { hr, source: SourceLocation::SafeArrayGetVartype });
            },
        };
        let lower = match host.get_lbound(psa, 1) {
            Ok(l) => l,
            Err(hr) => {
                host.destroy(psa);
                return Err(ClrError::InnerCall { hr, source: SourceLocation::SafeArrayGetLBound });
            },
        };
        let upper = match host.get_ubound(psa, 1) {
            Ok(u) => u,
            Err(hr) => {
                host.destroy(psa);
                return Err(ClrError::InnerCall { hr, source: SourceLocation::SafeArrayGetUBound });
            },
        };
        let mut cells: Vec<WirePayload> = Vec::new();
        let mut ix: i32 = lower;
        while ix < upper
            invariant
                lower <= ix <= upper,
                upper == d0.bounds[0].l_lbound + d0.bounds[0].c_elements,
                lower == d0.bounds[0].l_lbound,
                cells@.len() == ix - lower,
                forall|j: int|
                    0 <= j < ix - lower ==> vw_payload(#[trigger] cells@[j]) == d0.cells[j],
                host.wf(),
                host.live(psa),
                host.slots_view() =~= old(host).slots_view(),
                host.spec_destroyed() == old(host).spec_destroyed(),
                host.spec_created() == old(host).spec_created(),
                old(host).spec_fault() is None ==> host.spec_fault() is None,
                old(host).spec_fault() matches Some(k) ==> (k >= ix - lower && host.spec_fault()
                    == Some((k - (ix - lower)) as nat)),
            decreases upper - ix,
        {
            match host.get_element(psa, ix) {
                Ok(cell) => {
                    cells.push(cell);
                },
                Err(hr) => {
                    host.destroy(psa);
                    return Err(
                        ClrError::InnerCall { hr, source: SourceLocation::SafeArrayGetElement },
                    );
                },
            }
            ix = ix + 1;
        }
        host.destroy(psa);
        let mut bvec: Vec<SafeArrayBound> = Vec::new();
        let n = cells.len();
        bvec.push(SafeArrayBound { c_elements: n as u32, l_lbound: lower });
        let data = CSafeArrayData { vt, bounds: bvec, cells };
        proof {
            lemma_vw_cells(data.cells@);
            assert(data.bounds.deep_view() =~= seq![
                SafeArrayBound { c_elements: n as u32, l_lbound: lower },
            ]);
            assert(d0.bounds =~= seq![d0.bounds[0]]);
            assert(vw_cells(data.cells@) =~= d0.cells);
            assert(data.deep_view() =~= d0);
            assert(data.deep_view() == d0);
        }
        match RSafeArray::from_wire(&data) {
            Ok(a) => Ok(a),
            Err(e) => Err(e),
        }
    }
}


/// Each host vector lifts into the array arm of its element kind.
impl From<Vec<i16>> for RSafeArray {
    fn from(in_vc: Vec<i16>) -> (r: RSafeArray) {
        RSafeArray::Shorts(in_vc)
    }
}

impl vstd::std_specs::convert::FromSpecImpl<Vec<i16>> for RSafeArray {
    open spec fn obeys_from_spec() -> bool {
        true
    }

    open spec fn from_spec(in_vc: Vec<i16>) -> RSafeArray {
        RSafeArray::Shorts(in_vc)
    }
}

impl From<Vec<i32>> for RSafeArray {
    fn from(in_vc: Vec<i32>) -> (r: RSafeArray) {
        RSafeArray::Longs(in_vc)
    }
}

impl vstd::std_specs::convert::FromSpecImpl<Vec<i32>> for RSafeArray {
    open spec fn obeys_from_spec() -> bool {
        true
    }

    open spec fn from_spec(in_vc: Vec<i32>) -> RSafeArray {
        RSafeArray::Longs(in_vc)
    }
}

impl From<Vec<String>> for RSafeArray {
    fn from(in_vc: Vec<String>) -> (r: RSafeArray) {
        RSafeArray::BStrings(in_vc)
    }
}

impl vstd::std_specs::convert::FromSpecImpl<Vec<String>> for RSafeArray {
    open spec fn obeys_from_spec() -> bool {
        true
    }

    open spec fn from_spec(in_vc: Vec<String>) -> RSafeArray {
        RSafeArray::BStrings(in_vc)
    }
}

impl From<Vec<WrappedDispatch>> for RSafeArray {
    fn from(in_vc: Vec<WrappedDispatch>) -> (r: RSafeArray) {
        RSafeArray::Dispatchs(in_vc)
    }
}

impl vstd::std_specs::convert::FromSpecImpl<Vec<WrappedDispatch>> for RSafeArray {
    open spec fn obeys_from_spec() -> bool {
        true
    }

    open spec fn from_spec(in_vc: Vec<WrappedDispatch>) -> RSafeArray {
        RSafeArray::Dispatchs(in_vc)
    }
}

impl From<Vec<bool>> for RSafeArray {
    fn from(in_vc: Vec<bool>) -> (r: RSafeArray) {
        RSafeArray::Bools(in_vc)
    }
}

impl vstd::std_specs::convert::FromSpecImpl<Vec<bool>> for RSafeArray {
    open spec fn obeys_from_spec() -> bool {
        true
    }

    open spec fn from_spec(in_vc: Vec<bool>) -> RSafeArray {
        RSafeArray::Bools(in_vc)
    }
}

impl From<Vec<Variant>> for RSafeArray {
    fn from(in_vc: Vec<Variant>) -> (r: RSafeArray) {
        RSafeArray::Variants(in_vc)
    }
}

impl vstd::std_specs::convert::FromSpecImpl<Vec<Variant>> for RSafeArray {
    open spec fn obeys_from_spec() -> bool {
        true
    }

    open spec fn from_spec(in_vc: Vec<Variant>) -> RSafeArray {
        RSafeArray::Variants(in_vc)
    }
}

impl From<Vec<WrappedUnknown>> for RSafeArray {
    fn from(in_vc: Vec<WrappedUnknown>) -> (r: RSafeArray) {
        RSafeArray::Unknowns(in_vc)
    }
}

impl vstd::std_specs::convert::FromSpecImpl<Vec<WrappedUnknown>> for RSafeArray {
    open spec fn obeys_from_spec() -> bool {
        true
    }

    open spec fn from_spec(in_vc: Vec<WrappedUnknown>) -> RSafeArray {
        RSafeArray::Unknowns(in_vc)
    }
}

impl From<Vec<i8>> for RSafeArray {
    fn from(in_vc: Vec<i8>) -> (r: RSafeArray) {
        RSafeArray::Chars(in_vc)
    }
}

impl vstd::std_specs::convert::FromSpecImpl<Vec<i8>> for RSafeArray {
    open spec fn obeys_from_spec() -> bool {
        true
    }

    open spec fn from_spec(in_vc: Vec<i8>) -> RSafeArray {
        RSafeArray::Chars(in_vc)
    }
}

impl From<Vec<u8>> for RSafeArray {
    fn from(in_vc: Vec<u8>) -> (r: RSafeArray) {
        RSafeArray::UChars(in_vc)
    }
}

impl vstd::std_specs::convert::FromSpecImpl<Vec<u8>> for RSafeArray {
    open spec fn obeys_from_spec() -> bool {
        true
    }

    open spec fn from_spec(in_vc: Vec<u8>) -> RSafeArray {
        RSafeArray::UChars(in_vc)
    }
}

impl From<Vec<u16>> for RSafeArray {
    fn from(in_vc: Vec<u16>) -> (r: RSafeArray) {
        RSafeArray::UShorts(in_vc)
    }
}

impl vstd::std_specs::convert::FromSpecImpl<Vec<u16>> for RSafeArray {
    open spec fn obeys_from_spec() -> bool {
        true
    }

    open spec fn from_spec(in_vc: Vec<u16>) -> RSafeArray {
        RSafeArray::UShorts(in_vc)
    }
}

impl From<Vec<u32>> for RSafeArray {
    fn from(in_vc: Vec<u32>) -> (r: RSafeArray) {
        RSafeArray::ULongs(in_vc)
    }
}

impl vstd::std_specs::convert::FromSpecImpl<Vec<u32>> for RSafeArray {
    open spec fn obeys_from_spec() -> bool {
        true
    }

    open spec fn from_spec(in_vc: Vec<u32>) -> RSafeArray {
        RSafeArray::ULongs(in_vc)
    }
}

impl From<Vec<Int>> for RSafeArray {
    fn from(in_vc: Vec<Int>) -> (r: RSafeArray) {
        RSafeArray::Ints(in_vc)
    }
}

impl vstd::std_specs::convert::FromSpecImpl<Vec<Int>> for RSafeArray {
    open spec fn obeys_from_spec() -> bool {
        true
    }

    open spec fn from_spec(in_vc: Vec<Int>) -> RSafeArray {
        RSafeArray::Ints(in_vc)
    }
}

impl From<Vec<UInt>> for RSafeArray {
    fn from(in_vc: Vec<UInt>) -> (r: RSafeArray) {
        RSafeArray::UInts(in_vc)
    }
}

impl vstd::std_specs::convert::FromSpecImpl<Vec<UInt>> for RSafeArray {
    open spec fn obeys_from_spec() -> bool {
        true
    }

    open spec fn from_spec(in_vc: Vec<UInt>) -> RSafeArray {
        RSafeArray::UInts(in_vc)
    }
}

} // verus!
