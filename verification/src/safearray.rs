//! The raw foreign dynamic array, and the instrumented allocator that
//! stands for the foreign runtime owning such arrays.
//!
//! A raw array is a bounds-carrying, runtime-typed record: an element wire
//! tag, one bound per dimension, and one payload cell per element. Every
//! access from the codec goes through the accessor methods of
//! [`SafeArrayHost`], which mirror the foreign create/destroy,
//! introspection and per-element get/put calls, report failures by status
//! code, and count creations and destructions so that the ownership
//! discipline of the codec can be stated and tested.

use vstd::prelude::*;
use vstd::pervasive::VecAdditionalExecFns;
use crate::bstring::BStr;
use crate::decimal::Decimal96;
use crate::new_variant::{CVariant, CVariantView, WirePayload, WirePayloadView, dup_payload,
    lemma_vw_cells, vw_cells, vw_payload};
use crate::primitives::{VT_BOOL, VT_BSTR, VT_CY, VT_DATE, VT_DECIMAL, VT_DISPATCH, VT_EMPTY,
    VT_I1, VT_I2, VT_I4, VT_INT, VT_R4, VT_R8, VT_UI1, VT_UI2, VT_UI4, VT_UINT, VT_UNKNOWN,
    VT_VARIANT};
use crate::result::{DISP_E_BADINDEX, E_FAIL, E_INVALID_ARG, S_OK};

verus! {

/// One dimension of a raw foreign array: an element count and the lower
/// bound of the index range.
#[derive(Debug, Clone, Copy, PartialEq, Eq, Structural)]
pub struct SafeArrayBound {
    pub c_elements: u32,
    pub l_lbound: i32,
}

/// A raw foreign dynamic array: the element wire tag, one bound per
/// dimension, and the payload cells. For a one-dimensional array the
/// element at index `ix` (taken relative to the lower bound) is
/// `cells[ix - lbound]`; the index range is `[lbound, lbound + count)`.
#[derive(Debug, PartialEq)]
pub struct CSafeArrayData {
    pub vt: u16,
    pub bounds: Vec<SafeArrayBound>,
    pub cells: Vec<WirePayload>,
}

/// The mathematical shadow of [`CSafeArrayData`].
pub struct CSafeArrayDataView {
    pub vt: u16,
    pub bounds: Seq<SafeArrayBound>,
    pub cells: Seq<WirePayloadView>,
}

impl DeepView for SafeArrayBound {
    type V = SafeArrayBound;

    open spec fn deep_view(&self) -> SafeArrayBound {
        *self
    }
}

/// The shadow of a raw foreign array record.
pub open spec fn vw_cdata(c: CSafeArrayData) -> CSafeArrayDataView
    decreases c,
{
    CSafeArrayDataView { vt: c.vt, bounds: c.bounds.deep_view(), cells: vw_cells(c.cells@) }
}

impl DeepView for CSafeArrayData {
    type V = CSafeArrayDataView;

    open spec fn deep_view(&self) -> CSafeArrayDataView {
        vw_cdata(*self)
    }
}

impl CSafeArrayData {
    /// The number of dimensions the array reports.
    pub open spec fn spec_dims(&self) -> nat {
        self.bounds@.len()
    }

    /// The lower bound of the first dimension.
    pub open spec fn spec_lbound(&self) -> int {
        self.bounds@[0].l_lbound as int
    }

    /// The element count of the first dimension.
    pub open spec fn spec_count(&self) -> nat {
        self.bounds@[0].c_elements as nat
    }

    /// A well-formed one-dimensional array holds exactly one cell per
    /// element, and its index range stays within the machine's signed
    /// range.
    pub open spec fn wf(&self) -> bool {
        &&& self.spec_dims() == 1
        &&& self.cells@.len() == self.spec_count()
        &&& self.spec_lbound() + self.spec_count() <= i32::MAX as int + 1
    }
}


/// The element tags a one-dimensional array may carry: the closed set
/// the array codec supports.
pub open spec fn supported_vartype(vt: u16) -> bool {
    ||| vt == VT_I2
    ||| vt == VT_I4
    ||| vt == VT_R4
    ||| vt == VT_R8
    ||| vt == VT_CY
    ||| vt == VT_DATE
    ||| vt == VT_BSTR
    ||| vt == VT_DISPATCH
    ||| vt == VT_BOOL
    ||| vt == VT_VARIANT
    ||| vt == VT_UNKNOWN
    ||| vt == VT_DECIMAL
    ||| vt == VT_I1
    ||| vt == VT_UI1
    ||| vt == VT_UI2
    ||| vt == VT_UI4
    ||| vt == VT_INT
    ||| vt == VT_UINT
}

/// Whether a payload cell is of the kind an element tag selects.
pub open spec fn cell_ok(vt: u16, p: WirePayloadView) -> bool {
    if vt == VT_I2 {
        p is IVal
    } else if vt == VT_I4 {
        p is LVal
    } else if vt == VT_R4 {
        p is FltVal
    } else if vt == VT_R8 {
        p is DblVal
    } else if vt == VT_CY {
        p is CyVal
    } else if vt == VT_DATE {
        p is DateVal
    } else if vt == VT_BSTR {
        p is BstrVal
    } else if vt == VT_DISPATCH {
        p is PdispVal
    } else if vt == VT_BOOL {
        p is BoolVal
    } else if vt == VT_VARIANT {
        p is PvarVal
    } else if vt == VT_UNKNOWN {
        p is PunkVal
    } else if vt == VT_DECIMAL {
        p is DecVal
    } else if vt == VT_I1 {
        p is CVal
    } else if vt == VT_UI1 {
        p is BVal
    } else if vt == VT_UI2 {
        p is UiVal
    } else if vt == VT_UI4 {
        p is UlVal
    } else if vt == VT_INT {
        p is IntVal
    } else if vt == VT_UINT {
        p is UintVal
    } else {
        false
    }
}

/// The zero-initialized cell a fresh array holds for each element tag: a
/// zero scalar, an empty buffer, a null pointer, or the empty variant.
pub open spec fn spec_default_cell(vt: u16) -> WirePayloadView {
    if vt == VT_I2 {
        WirePayloadView::IVal(0)
    } else if vt == VT_I4 {
        WirePayloadView::LVal(0)
    } else if vt == VT_R4 {
        WirePayloadView::FltVal(0)
    } else if vt == VT_R8 {
        WirePayloadView::DblVal(0)
    } else if vt == VT_CY {
        WirePayloadView::CyVal(0)
    } else if vt == VT_DATE {
        WirePayloadView::DateVal(0)
    } else if vt == VT_BSTR {
        WirePayloadView::BstrVal(Seq::empty())
    } else if vt == VT_DISPATCH {
        WirePayloadView::PdispVal(0)
    } else if vt == VT_BOOL {
        WirePayloadView::BoolVal(0)
    } else if vt == VT_VARIANT {
        WirePayloadView::PvarVal(
            Box::new(
                CVariantView {
                    vt: VT_EMPTY,
                    reserved1: 0,
                    reserved2: 0,
                    reserved3: 0,
                    payload: WirePayloadView::Nothing,
                },
            ),
        )
    } else if vt == VT_UNKNOWN {
        WirePayloadView::PunkVal(0)
    } else if vt == VT_DECIMAL {
        WirePayloadView::DecVal(Decimal96 { reserved: 0, scale: 0, sign: 0, hi32: 0, lo64: 0 })
    } else if vt == VT_I1 {
        WirePayloadView::CVal(0)
    } else if vt == VT_UI1 {
        WirePayloadView::BVal(0)
    } else if vt == VT_UI2 {
        WirePayloadView::UiVal(0)
    } else if vt == VT_UI4 {
        WirePayloadView::UlVal(0)
    } else if vt == VT_INT {
        WirePayloadView::IntVal(0)
    } else {
        WirePayloadView::UintVal(0)
    }
}

/// Whether the element tag accepts the given element tag, decided at run
/// time exactly as `supported_vartype` states it.
fn is_supported_vartype(vt: u16) -> (r: bool)
    ensures
        r == supported_vartype(vt),
{
    vt == VT_I2 || vt == VT_I4 || vt == VT_R4 || vt == VT_R8 || vt == VT_CY || vt == VT_DATE
        || vt == VT_BSTR || vt == VT_DISPATCH || vt == VT_BOOL || vt == VT_VARIANT
        || vt == VT_UNKNOWN || vt == VT_DECIMAL || vt == VT_I1 || vt == VT_UI1 || vt == VT_UI2
        || vt == VT_UI4 || vt == VT_INT || vt == VT_UINT
}

/// The zero-initialized cell for an element tag, as a value.
fn default_cell(vt: u16) -> (r: WirePayload)
    requires
        supported_vartype(vt),
    ensures
        r.deep_view() == spec_default_cell(vt),
        cell_ok(vt, r.deep_view()),
{
    if vt == VT_I2 {
        WirePayload::IVal(0)
    } else if vt == VT_I4 {
        WirePayload::LVal(0)
    } else if vt == VT_R4 {
        WirePayload::FltVal(0)
    } else if vt == VT_R8 {
        WirePayload::DblVal(0)
    } else if vt == VT_CY {
        WirePayload::CyVal(0)
    } else if vt == VT_DATE {
        WirePayload::DateVal(0)
    } else if vt == VT_BSTR {
        let r = WirePayload::BstrVal(BStr::empty());
        proof {
            assert(r.deep_view() == spec_default_cell(vt));
        }
        r
    } else if vt == VT_DISPATCH {
        WirePayload::PdispVal(0)
    } else if vt == VT_BOOL {
        WirePayload::BoolVal(0)
    } else if vt == VT_VARIANT {
        let inner = CVariant {
            vt: VT_EMPTY,
            reserved1: 0,
            reserved2: 0,
            reserved3: 0,
            payload: WirePayload::Nothing,
        };
        proof {
            assert(vw_payload(WirePayload::Nothing) == WirePayloadView::Nothing);
        }
        WirePayload::PvarVal(Box::new(inner))
    } else if vt == VT_UNKNOWN {
        WirePayload::PunkVal(0)
    } else if vt == VT_DECIMAL {
        WirePayload::DecVal(Decimal96 { reserved: 0, scale: 0, sign: 0, hi32: 0, lo64: 0 })
    } else if vt == VT_I1 {
        WirePayload::CVal(0)
    } else if vt == VT_UI1 {
        WirePayload::BVal(0)
    } else if vt == VT_UI2 {
        WirePayload::UiVal(0)
    } else if vt == VT_UI4 {
        WirePayload::UlVal(0)
    } else if vt == VT_INT {
        WirePayload::IntVal(0)
    } else {
        WirePayload::UintVal(0)
    }
}

/// Whether a cell is of the kind an element tag selects, decided at run
/// time exactly as `cell_ok` states it.
fn cell_kind_matches(vt: u16, cell: &WirePayload) -> (r: bool)
    ensures
        r == cell_ok(vt, cell.deep_view()),
{
    if vt == VT_I2 {
        matches!(cell, WirePayload::IVal(_))
    } else if vt == VT_I4 {
        matches!(cell, WirePayload::LVal(_))
    } else if vt == VT_R4 {
        matches!(cell, WirePayload::FltVal(_))
    } else if vt == VT_R8 {
        matches!(cell, WirePayload::DblVal(_))
    } else if vt == VT_CY {
        matches!(cell, WirePayload::CyVal(_))
    } else if vt == VT_DATE {
        matches!(cell, WirePayload::DateVal(_))
    } else if vt == VT_BSTR {
        matches!(cell, WirePayload::BstrVal(_))
    } else if vt == VT_DISPATCH {
        matches!(cell, WirePayload::PdispVal(_))
    } else if vt == VT_BOOL {
        matches!(cell, WirePayload::BoolVal(_))
    } else if vt == VT_VARIANT {
        matches!(cell, WirePayload::PvarVal(_))
    } else if vt == VT_UNKNOWN {
        matches!(cell, WirePayload::PunkVal(_))
    } else if vt == VT_DECIMAL {
        matches!(cell, WirePayload::DecVal(_))
    } else if vt == VT_I1 {
        matches!(cell, WirePayload::CVal(_))
    } else if vt == VT_UI1 {
        matches!(cell, WirePayload::BVal(_))
    } else if vt == VT_UI2 {
        matches!(cell, WirePayload::UiVal(_))
    } else if vt == VT_UI4 {
        matches!(cell, WirePayload::UlVal(_))
    } else if vt == VT_INT {
        matches!(cell, WirePayload::IntVal(_))
    } else if vt == VT_UINT {
        matches!(cell, WirePayload::UintVal(_))
    } else {
        false
    }
}

/// The structural soundness of one held array: at least one dimension,
/// every dimension's index range within the machine's signed range, and,
/// for a one-dimensional array, one cell per element.
pub open spec fn slot_wf(d: CSafeArrayData) -> bool {
    &&& 1 <= d.bounds@.len() <= u32::MAX
    &&& forall|i: int|
        0 <= i < d.bounds@.len() ==> (#[trigger] d.bounds@[i]).l_lbound + d.bounds@[i].c_elements
            <= i32::MAX
    &&& (d.bounds@.len() == 1 ==> d.cells@.len() == d.bounds@[0].c_elements)
}

/// How many of the slots have been destroyed.
pub closed spec fn count_nones(s: Seq<Option<CSafeArrayData>>) -> nat
    decreases s,
{
    if s.len() == 0 {
        0
    } else {
        (if s[0] is None {
            1nat
        } else {
            0nat
        }) + count_nones(s.subrange(1, s.len() as int))
    }
}

proof fn lemma_count_nones_push(s: Seq<Option<CSafeArrayData>>, d: CSafeArrayData)
    ensures
        count_nones(s.push(Some(d))) == count_nones(s),
    decreases s,
{
    reveal_with_fuel(count_nones, 2);
    if s.len() == 0 {
        assert(s.push(Some(d)).subrange(1, 1) =~= Seq::empty());
    } else {
        lemma_count_nones_push(s.subrange(1, s.len() as int), d);
        assert(s.push(Some(d)).subrange(1, s.len() as int + 1) =~= s.subrange(1, s.len() as int).push(
            Some(d),
        ));
    }
}

proof fn lemma_count_nones_update(s: Seq<Option<CSafeArrayData>>, i: int)
    requires
        0 <= i < s.len(),
        s[i] is Some,
    ensures
        count_nones(s.update(i, None)) == count_nones(s) + 1,
    decreases s,
{
    reveal_with_fuel(count_nones, 2);
    if i == 0 {
        assert(s.update(0, None).subrange(1, s.len() as int) =~= s.subrange(1, s.len() as int));
    } else {
        lemma_count_nones_update(s.subrange(1, s.len() as int), i - 1);
        assert(s.update(i, None).subrange(1, s.len() as int) =~= s.subrange(
            1,
            s.len() as int,
        ).update(i - 1, None));
        assert(s.update(i, None)[0] == s[0]);
    }
}

proof fn lemma_count_nones_update_some(s: Seq<Option<CSafeArrayData>>, i: int, d: CSafeArrayData)
    requires
        0 <= i < s.len(),
        s[i] is Some,
    ensures
        count_nones(s.update(i, Some(d))) == count_nones(s),
    decreases s,
{
    reveal_with_fuel(count_nones, 2);
    if i == 0 {
        assert(s.update(0, Some(d)).subrange(1, s.len() as int) =~= s.subrange(1, s.len() as int));
    } else {
        lemma_count_nones_update_some(s.subrange(1, s.len() as int), i - 1, d);
        assert(s.update(i, Some(d)).subrange(1, s.len() as int) =~= s.subrange(
            1,
            s.len() as int,
        ).update(i - 1, Some(d)));
        assert(s.update(i, Some(d))[0] == s[0]);
    }
}

proof fn lemma_count_nones_fill_none(s: Seq<Option<CSafeArrayData>>, i: int, d: CSafeArrayData)
    requires
        0 <= i < s.len(),
        s[i] is None,
    ensures
        count_nones(s.update(i, Some(d))) + 1 == count_nones(s),
    decreases s,
{
    reveal_with_fuel(count_nones, 2);
    if i == 0 {
        assert(s.update(0, Some(d)).subrange(1, s.len() as int) =~= s.subrange(1, s.len() as int));
    } else {
        lemma_count_nones_fill_none(s.subrange(1, s.len() as int), i - 1, d);
        assert(s.update(i, Some(d)).subrange(1, s.len() as int) =~= s.subrange(
            1,
            s.len() as int,
        ).update(i - 1, Some(d)));
        assert(s.update(i, Some(d))[0] == s[0]);
    }
}

proof fn lemma_count_nones_le(s: Seq<Option<CSafeArrayData>>)
    ensures
        count_nones(s) <= s.len(),
        forall|i: int| 0 <= i < s.len() && s[i] is Some ==> count_nones(s) < s.len(),
    decreases s,
{
    reveal_with_fuel(count_nones, 2);
    if s.len() > 0 {
        lemma_count_nones_le(s.subrange(1, s.len() as int));
        assert forall|i: int| 0 <= i < s.len() && s[i] is Some implies count_nones(s)
            < s.len() by {
            if i > 0 {
                assert(s.subrange(1, s.len() as int)[i - 1] == s[i]);
            }
        }
    }
}

/// The instrumented allocator standing for the foreign runtime that owns
/// the raw arrays: it hands out handles, answers the introspection and
/// per-element calls by status code, counts creations and destructions,
/// and can be told to fail an upcoming element read, so that the codec's
/// cleanup discipline can be observed.
pub struct SafeArrayHost {
    slots: Vec<Option<CSafeArrayData>>,
    destroyed: usize,
    fault_countdown: Option<usize>,
}

impl SafeArrayHost {
    /// Every held array is structurally sound, and the destruction count
    /// is exactly the number of emptied slots. Established by the
    /// constructor and preserved by every operation.
    pub closed spec fn wf(&self) -> bool {
        &&& self.destroyed == count_nones(self.slots@)
        &&& forall|i: int|
            0 <= i < self.slots@.len() ==> ((#[trigger] self.slots@[i]) matches Some(d)
                ==> slot_wf(d))
    }

    /// The arrays held, slot by slot, as their shadows; a destroyed or
    /// handed-over slot is `None`. Slot `i` belongs to handle `i + 1`;
    /// handle 0 is the null handle.
    pub closed spec fn slots_view(&self) -> Seq<Option<CSafeArrayDataView>> {
        Seq::new(
            self.slots@.len(),
            |i: int|
                match self.slots@[i] {
                    Some(d) => Some(vw_cdata(d)),
                    None => None,
                },
        )
    }

    /// How many arrays this allocator has created.
    pub open spec fn spec_created(&self) -> nat {
        self.slots_view().len()
    }

    /// How many arrays this allocator has destroyed.
    pub closed spec fn spec_destroyed(&self) -> nat {
        self.destroyed as nat
    }

    /// The pending injected failure: `Some(k)` fails the k-th upcoming
    /// element read, counting from zero.
    pub closed spec fn spec_fault(&self) -> Option<nat> {
        match self.fault_countdown {
            Some(k) => Some(k as nat),
            None => None,
        }
    }

    /// Whether a handle names an array that is currently held.
    pub open spec fn live(&self, h: usize) -> bool {
        &&& 1 <= h <= self.slots_view().len()
        &&& self.slots_view()[h - 1] is Some
    }

    /// The array a live handle names.
    pub open spec fn data(&self, h: usize) -> CSafeArrayDataView {
        match self.slots_view()[h - 1] {
            Some(d) => d,
            None => arbitrary(),
        }
    }

    /// A fresh allocator holding nothing.
    pub fn new() -> (r: SafeArrayHost)
        ensures
            r.slots_view() =~= Seq::empty(),
            r.spec_created() == 0,
            r.spec_destroyed() == 0,
            r.spec_fault() is None,
            r.wf(),
    {
        let r = SafeArrayHost { slots: Vec::new(), destroyed: 0, fault_countdown: None };
        proof {
            assert(r.slots@.subrange(0, 0) =~= r.slots@);
            assert(count_nones(r.slots@) == 0);
        }
        r
    }

    /// How many arrays have been created, for observation.
    pub fn created(&self) -> (r: usize)
        ensures
            r == self.spec_created(),
    {
        self.slots.len()
    }

    /// How many arrays have been destroyed, for observation.
    pub fn destroyed(&self) -> (r: usize)
        ensures
            r == self.spec_destroyed(),
    {
        self.destroyed
    }

    /// Tells the allocator to fail the k-th upcoming element read,
    /// counting from zero: the instrumentation behind cleanup testing.
    pub fn inject_get_fault(&mut self, k: usize)
        requires
            old(self).wf(),
        ensures
            final(self).wf(),
            final(self).slots_view() =~= old(self).slots_view(),
            final(self).spec_destroyed() == old(self).spec_destroyed(),
            final(self).spec_fault() == Some(k as nat),
    {
        self.fault_countdown = Some(k);
    }

    /// Creates an array of the given element tag and bounds, returning
    /// its handle, or the null handle when the tag or the bounds are
    /// unacceptable. A fresh one-dimensional array holds one
    /// zero-initialized cell per element.
    #[verifier::loop_isolation(false)]
    pub fn create(&mut self, vt: u16, bounds: Vec<SafeArrayBound>) -> (h: usize)
        requires
            old(self).wf(),
        ensures
            final(self).wf(),
            final(self).spec_destroyed() == old(self).spec_destroyed(),
            final(self).spec_fault() == old(self).spec_fault(),
            !spec_create_ok(vt, bounds@) ==> h == 0 && final(self).slots_view() =~= old(self).slots_view(),
            spec_create_ok(vt, bounds@) ==> {
                &&& h == old(self).spec_created() + 1
                &&& final(self).slots_view() =~= old(self).slots_view().push(
                    Some(spec_created_data(vt, bounds@)),
                )
                &&& final(self).live(h)
                &&& final(self).data(h) == spec_created_data(vt, bounds@)
            },
    {
        if bounds.len() < 1 {
            return 0;
        }
        if bounds.len() > (u32::MAX as usize) {
            return 0;
        }
        let mut i: usize = 0;
        while i < bounds.len()
            invariant
                i <= bounds@.len(),
                forall|j: int|
                    0 <= j < i ==> (#[trigger] bounds@[j]).l_lbound + bounds@[j].c_elements
                        <= i32::MAX,
            decreases bounds@.len() - i,
        {
            let b = bounds[i];
            if (b.l_lbound as i64) + (b.c_elements as i64) > (i32::MAX as i64) {
                return 0;
            }
            i = i + 1;
        }
        if bounds.len() == 1 && !is_supported_vartype(vt) {
            return 0;
        }
        let mut cells: Vec<WirePayload> = Vec::new();
        if bounds.len() == 1 {
            let cnt = bounds[0].c_elements as usize;
            let mut j: usize = 0;
            while j < cnt
                invariant
                    j <= cnt,
                    cells@.len() == j,
                    supported_vartype(vt),
                    forall|k: int|
                        0 <= k < j ==> vw_payload(#[trigger] cells@[k]) == spec_default_cell(vt),
                decreases cnt - j,
            {
                cells.push(default_cell(vt));
                j = j + 1;
            }
        }
        let d = CSafeArrayData { vt, bounds, cells };
        proof {
            lemma_count_nones_push(self.slots@, d);
        }
        self.slots.push(Some(d));
        let h = self.slots.len();
        proof {
            lemma_vw_cells(d.cells@);
            assert(d.bounds.deep_view() =~= d.bounds@);
            assert(vw_cells(d.cells@) =~= spec_created_data(vt, d.bounds@).cells);
            assert(vw_cdata(d) =~= spec_created_data(vt, d.bounds@));
            assert(vw_cdata(d) == spec_created_data(vt, d.bounds@));
            assert(final(self).slots_view() =~= old(self).slots_view().push(
                Some(spec_created_data(vt, d.bounds@)),
            ));
        }
        h
    }

    /// Destroys the array a live handle names and counts the
    /// destruction; any other handle is refused with `E_INVALID_ARG` and
    /// nothing changes.
    pub fn destroy(&mut self, h: usize) -> (hr: i32)
        requires
            old(self).wf(),
        ensures
            final(self).wf(),
            final(self).spec_created() == old(self).spec_created(),
            final(self).spec_fault() == old(self).spec_fault(),
            old(self).live(h) ==> {
                &&& hr == S_OK
                &&& final(self).slots_view() =~= old(self).slots_view().update(
                    h - 1,
                    None::<CSafeArrayDataView>,
                )
                &&& final(self).spec_destroyed() == old(self).spec_destroyed() + 1
            },
            !old(self).live(h) ==> hr == E_INVALID_ARG && *final(self) == *old(self),
    {
        if h >= 1 && h <= self.slots.len() {
            let is_live = self.slots[h - 1].is_some();
            if is_live {
                proof {
                    lemma_count_nones_le(self.slots@);
                    lemma_count_nones_update(self.slots@, h - 1 as int);
                }
                self.slots.set(h - 1, None);
                self.destroyed = self.destroyed + 1;
                proof {
                    assert(final(self).slots_view() =~= old(self).slots_view().update(
                        h - 1,
                        None::<CSafeArrayDataView>,
                    ));
                }
                S_OK
            } else {
                E_INVALID_ARG
            }
        } else {
            E_INVALID_ARG
        }
    }

    /// The number of dimensions the named array reports; 0 for a handle
    /// that names nothing.
    pub fn get_dim(&self, h: usize) -> (r: u32)
        requires
            self.wf(),
        ensures
            self.live(h) ==> r == self.data(h).bounds.len(),
            !self.live(h) ==> r == 0,
    {
        if h >= 1 && h <= self.slots.len() {
            match &self.slots[h - 1] {
                Some(d) => d.bounds.len() as u32,
                None => 0,
            }
        } else {
            0
        }
    }

    /// The element tag of the named array, or `E_INVALID_ARG`.
    pub fn get_vartype(&self, h: usize) -> (r: core::result::Result<u16, i32>)
        ensures
            self.live(h) ==> r == Ok::<u16, i32>(self.data(h).vt),
            !self.live(h) ==> r == Err::<u16, i32>(E_INVALID_ARG),
    {
        if h >= 1 && h <= self.slots.len() {
            match &self.slots[h - 1] {
                Some(d) => Ok(d.vt),
                None => Err(E_INVALID_ARG),
            }
        } else {
            Err(E_INVALID_ARG)
        }
    }

    /// The lower bound of the given dimension (numbered from 1) of the
    /// named array, or a status code.
    pub fn get_lbound(&self, h: usize, dim: u32) -> (r: core::result::Result<i32, i32>)
        ensures
            !self.live(h) ==> r == Err::<i32, i32>(E_INVALID_ARG),
            self.live(h) && !(1 <= dim <= self.data(h).bounds.len()) ==> r == Err::<i32, i32>(
                DISP_E_BADINDEX,
            ),
            self.live(h) && 1 <= dim <= self.data(h).bounds.len() ==> r == Ok::<i32, i32>(
                self.data(h).bounds[dim - 1].l_lbound,
            ),
    {
        if h >= 1 && h <= self.slots.len() {
            match &self.slots[h - 1] {
                Some(d) => {
                    if dim >= 1 && (dim as usize) <= d.bounds.len() {
                        Ok(d.bounds[(dim - 1) as usize].l_lbound)
                    } else {
                        Err(DISP_E_BADINDEX)
                    }
                },
                None => Err(E_INVALID_ARG),
            }
        } else {
            Err(E_INVALID_ARG)
        }
    }

    /// One past the highest index of the given dimension (numbered from
    /// 1) of the named array — the exclusive upper bound of its index
    /// range — or a status code.
    pub fn get_ubound(&self, h: usize, dim: u32) -> (r: core::result::Result<i32, i32>)
        requires
            self.wf(),
        ensures
            !self.live(h) ==> r == Err::<i32, i32>(E_INVALID_ARG),
            self.live(h) && !(1 <= dim <= self.data(h).bounds.len()) ==> r == Err::<i32, i32>(
                DISP_E_BADINDEX,
            ),
            self.live(h) && 1 <= dim <= self.data(h).bounds.len() ==> (r matches Ok(u) && u
                == self.data(h).bounds[dim - 1].l_lbound + self.data(h).bounds[dim
                - 1].c_elements),
    {
        if h >= 1 && h <= self.slots.len() {
            match &self.slots[h - 1] {
                Some(d) => {
                    if dim >= 1 && (dim as usize) <= d.bounds.len() {
                        let b = d.bounds[(dim - 1) as usize];
                        let u = (b.l_lbound as i64) + (b.c_elements as i64);
                        Ok(u as i32)
                    } else {
                        Err(DISP_E_BADINDEX)
                    }
                },
                None => Err(E_INVALID_ARG),
            }
        } else {
            Err(E_INVALID_ARG)
        }
    }

    /// Copies out the element at an absolute index of a one-dimensional
    /// array. A pending injected failure at this call wins over
    /// everything and costs `E_FAIL`; otherwise a dead handle or a
    /// multi-dimensional array costs `E_INVALID_ARG` and an index
    /// outside the bounds costs `DISP_E_BADINDEX`.
    pub fn get_element(&mut self, h: usize, ix: i32) -> (r: core::result::Result<WirePayload, i32>)
        requires
            old(self).wf(),
        ensures
            final(self).wf(),
            final(self).slots_view() =~= old(self).slots_view(),
            final(self).spec_destroyed() == old(self).spec_destroyed(),
            old(self).spec_fault() == Some(0nat) ==> r == Err::<WirePayload, i32>(E_FAIL) && final(self).spec_fault() is None,
            (match old(self).spec_fault() {
                Some(k) => k > 0,
                None => false,
            }) ==> final(self).spec_fault() == Some((old(self).spec_fault()->0 - 1) as nat),
            old(self).spec_fault() is None ==> final(self).spec_fault() is None,
            old(self).spec_fault() != Some(0nat) ==> {
                &&& !old(self).live(h) ==> r == Err::<WirePayload, i32>(E_INVALID_ARG)
                &&& old(self).live(h) && old(self).data(h).bounds.len() != 1 ==> r == Err::<
                    WirePayload,
                    i32,
                >(E_INVALID_ARG)
                &&& old(self).live(h) && old(self).data(h).bounds.len() == 1 && !(old(self).data(h).bounds[0].l_lbound <= ix < old(self).data(h).bounds[0].l_lbound + old(self).data(h).bounds[0].c_elements) ==> r == Err::<WirePayload, i32>(DISP_E_BADINDEX)
                &&& old(self).live(h) && old(self).data(h).bounds.len() == 1 && old(self).data(h).bounds[0].l_lbound <= ix < old(self).data(h).bounds[0].l_lbound + old(self).data(h).bounds[0].c_elements ==> (r matches Ok(p) && p.deep_view() == old(self).data(h).cells[ix - old(self).data(h).bounds[0].l_lbound])
            },
    {
        let mut fired = false;
        match self.fault_countdown {
            Some(k) => {
                if k == 0 {
                    self.fault_countdown = None;
                    fired = true;
                } else {
                    self.fault_countdown = Some(k - 1);
                }
            },
            None => {},
        }
        if fired {
            return Err(E_FAIL);
        }
        if !(h >= 1 && h <= self.slots.len()) {
            return Err(E_INVALID_ARG);
        }
        match &self.slots[h - 1] {
            Some(d) => {
                if d.bounds.len() != 1 {
                    return Err(E_INVALID_ARG);
                }
                let b = d.bounds[0];
                if (ix as i64) < (b.l_lbound as i64) || (ix as i64) >= (b.l_lbound as i64) + (
                b.c_elements as i64) {
                    return Err(DISP_E_BADINDEX);
                }
                let off = ((ix as i64) - (b.l_lbound as i64)) as usize;
                proof {
                    lemma_vw_cells(d.cells@);
                }
                Ok(dup_payload(&d.cells[off]))
            },
            None => Err(E_INVALID_ARG),
        }
    }

    /// Writes the element at an absolute index of a one-dimensional
    /// array, copying the cell in; the cell's kind must agree with the
    /// array's element tag. A dead handle, a multi-dimensional array or
    /// a cell of the wrong kind costs `E_INVALID_ARG`; an index outside
    /// the bounds costs `DISP_E_BADINDEX`.
    pub fn put_element(&mut self, h: usize, ix: i32, cell: WirePayload) -> (hr: i32)
        requires
            old(self).wf(),
        ensures
            final(self).wf(),
            final(self).spec_created() == old(self).spec_created(),
            final(self).spec_destroyed() == old(self).spec_destroyed(),
            final(self).spec_fault() == old(self).spec_fault(),
            !old(self).live(h) ==> hr == E_INVALID_ARG && *final(self) == *old(self),
            old(self).live(h) && old(self).data(h).bounds.len() != 1 ==> hr == E_INVALID_ARG
                && *final(self) == *old(self),
            old(self).live(h) && old(self).data(h).bounds.len() == 1 && !(old(self).data(h).bounds[0].l_lbound <= ix < old(self).data(h).bounds[0].l_lbound + old(self).data(h).bounds[0].c_elements) ==> hr == DISP_E_BADINDEX && *final(self) == *old(self),
            old(self).live(h) && old(self).data(h).bounds.len() == 1 && old(self).data(h).bounds[0].l_lbound <= ix < old(self).data(h).bounds[0].l_lbound + old(self).data(h).bounds[0].c_elements && !cell_ok(old(self).data(h).vt, cell.deep_view()) ==> hr
                == E_INVALID_ARG && *final(self) == *old(self),
            old(self).live(h) && old(self).data(h).bounds.len() == 1 && old(self).data(h).bounds[0].l_lbound <= ix < old(self).data(h).bounds[0].l_lbound + old(self).data(h).bounds[0].c_elements && cell_ok(old(self).data(h).vt, cell.deep_view()) ==> {
                &&& hr == S_OK
                &&& final(self).slots_view() =~= old(self).slots_view().update(
                    h - 1,
                    Some(
                        CSafeArrayDataView {
                            vt: old(self).data(h).vt,
                            bounds: old(self).data(h).bounds,
                            cells: old(self).data(h).cells.update(
                                ix - old(self).data(h).bounds[0].l_lbound,
                                cell.deep_view(),
                            ),
                        },
                    ),
                )
            },
    {
        if !(h >= 1 && h <= self.slots.len()) {
            return E_INVALID_ARG;
        }
        let off: usize;
        match &self.slots[h - 1] {
            Some(d) => {
                if d.bounds.len() != 1 {
                    return E_INVALID_ARG;
                }
                let b = d.bounds[0];
                if (ix as i64) < (b.l_lbound as i64) || (ix as i64) >= (b.l_lbound as i64) + (
                b.c_elements as i64) {
                    return DISP_E_BADINDEX;
                }
                if !cell_kind_matches(d.vt, &cell) {
                    return E_INVALID_ARG;
                }
                off = ((ix as i64) - (b.l_lbound as i64)) as usize;
            },
            None => {
                return E_INVALID_ARG;
            },
        }
        let mut taken: Option<CSafeArrayData> = None;
        proof {
            lemma_count_nones_update(self.slots@, h - 1 as int);
        }
        self.slots.set_and_swap(h - 1, &mut taken);
        match taken {
            Some(mut d) => {
                let ghost cells0 = d.cells@;
                proof {
                    lemma_vw_cells(d.cells@);
                }
                d.cells.set(off, cell);
                proof {
                    lemma_vw_cells(d.cells@);
                    lemma_vw_cells(cells0);
                    assert(vw_cells(d.cells@) =~= vw_cells(cells0).update(
                        off as int,
                        cell.deep_view(),
                    ));
                    lemma_count_nones_fill_none(self.slots@, h - 1 as int, d);
                }
                self.slots.set(h - 1, Some(d));
                proof {
                    assert(final(self).slots_view() =~= old(self).slots_view().update(
                        h - 1,
                        Some(
                            CSafeArrayDataView {
                                vt: old(self).data(h).vt,
                                bounds: old(self).data(h).bounds,
                                cells: old(self).data(h).cells.update(
                                    ix - old(self).data(h).bounds[0].l_lbound,
                                    cell.deep_view(),
                                ),
                            },
                        ),
                    ));
                }
                S_OK
            },
            None => {
                proof {
                    assert(false);
                }
                E_INVALID_ARG
            },
        }
    }
}

impl SafeArrayHost {
    /// What soundness of the allocator gives a caller about any live
    /// array: its dimension count and index ranges are representable,
    /// and a one-dimensional array holds one cell per element.
    pub proof fn lemma_live_data_wf(&self, h: usize)
        requires
            self.wf(),
            self.live(h),
        ensures
            1 <= self.data(h).bounds.len() <= u32::MAX,
            forall|i: int|
                0 <= i < self.data(h).bounds.len() ==> (#[trigger] self.data(
                    h,
                ).bounds[i]).l_lbound + self.data(h).bounds[i].c_elements <= i32::MAX,
            self.data(h).bounds.len() == 1 ==> self.data(h).cells.len() == self.data(
                h,
            ).bounds[0].c_elements,
    {
        let d = match self.slots@[h - 1] {
            Some(d) => d,
            None => arbitrary(),
        };
        lemma_vw_cells(d.cells@);
        assert(self.data(h) == vw_cdata(d));
        assert(slot_wf(d));
        assert forall|i: int| 0 <= i < self.data(h).bounds.len() implies (#[trigger] self.data(
            h,
        ).bounds[i]).l_lbound + self.data(h).bounds[i].c_elements <= i32::MAX by {
            assert(self.data(h).bounds[i] == d.bounds@[i]);
        }
    }
}

/// What the creation of an array demands of its tag and bounds: at
/// least one dimension, every index range within the machine's signed
/// range, and, for one dimension, a supported element tag.
pub open spec fn spec_create_ok(vt: u16, bounds: Seq<SafeArrayBound>) -> bool {
    &&& 1 <= bounds.len() <= u32::MAX
    &&& forall|i: int|
        0 <= i < bounds.len() ==> (#[trigger] bounds[i]).l_lbound + bounds[i].c_elements
            <= i32::MAX
    &&& (bounds.len() == 1 ==> supported_vartype(vt))
}

/// The array a successful creation holds: the requested tag and bounds,
/// and, for one dimension, one zero-initialized cell per element.
pub open spec fn spec_created_data(vt: u16, bounds: Seq<SafeArrayBound>) -> CSafeArrayDataView {
    CSafeArrayDataView {
        vt,
        bounds,
        cells: if bounds.len() == 1 {
            Seq::new(bounds[0].c_elements as nat, |i: int| spec_default_cell(vt))
        } else {
            Seq::empty()
        },
    }
}

} // verus!
