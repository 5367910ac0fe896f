//! Family-wide laws of the shared ref-counted pointer.
//!
//! The per-operation contracts in [`crate::smart`] say what each call does
//! to the heap; the proof functions here state what follows for the whole
//! family: every member observes the same payload and counter, a mutation
//! through one member is visible through all of them, and once the final
//! release has reclaimed the counter cell, no handle of that family is
//! ever observed valid again.

use vstd::prelude::*;

use crate::smart::Heap;
use crate::smart::SmartPtr;

verus! {

/// Every member of a family observes the very same cells: if one member
/// is well-formed, so is each of its siblings, and all of them read the
/// same payload and the same counter value.
pub proof fn lemma_siblings_agree<T>(a: SmartPtr<T>, b: SmartPtr<T>, h: Heap<T>)
    requires
        a.wf(h),
        b.same_family(a),
    ensures
        b.wf(h),
        b.payload_spec(h) == a.payload_spec(h),
        b.count_spec(h) == a.count_spec(h),
        b.valid_spec(h),
{
}

/// Shared mutation visibility: when the payload cell of a family is
/// overwritten with `v` — the heap shape `access_mut` leaves behind —
/// every member of the family reads `v` afterwards, and every member is
/// still well-formed.
pub proof fn lemma_mutation_visible_to_family<T>(
    a: SmartPtr<T>,
    b: SmartPtr<T>,
    h0: Heap<T>,
    h1: Heap<T>,
    v: T,
)
    requires
        a.wf(h0),
        b.same_family(a),
        h1.payloads()@ == h0.payloads()@.update(a.ptr_addr()->Some_0 as int, Some(v)),
        h1.counters()@ == h0.counters()@,
        h1.flags()@ == h0.flags()@,
    ensures
        a.wf(h1),
        b.wf(h1),
        a.payload_spec(h1) == v,
        b.payload_spec(h1) == v,
        b.count_spec(h1) == a.count_spec(h0),
{
}

/// A clone leaves the payload alone: in the heap shape `clone` leaves
/// behind — only the family's counter cell rewritten — every member still
/// reads the same payload as before, so visibility of earlier mutations
/// survives additional clones.
pub proof fn lemma_clone_preserves_payload<T>(
    a: SmartPtr<T>,
    b: SmartPtr<T>,
    h0: Heap<T>,
    h1: Heap<T>,
    c: usize,
)
    requires
        a.wf(h0),
        b.same_family(a),
        c >= 1,
        h1.counters()@ == h0.counters()@.update(a.rc_addr()->Some_0 as int, Some(c)),
        h1.payloads()@ == h0.payloads()@,
        h1.flags()@ == h0.flags()@,
    ensures
        b.wf(h1),
        b.payload_spec(h1) == b.payload_spec(h0),
        b.count_spec(h1) == c,
{
}

/// Families do not interfere at birth: allocating a new family — the
/// heap shape `new` leaves behind, one fresh cell appended to each arena
/// — leaves every existing family's member well-formed, reading the same
/// payload and the same count as before.
pub proof fn lemma_new_family_leaves_others_alone<T>(
    q: SmartPtr<T>,
    h0: Heap<T>,
    h1: Heap<T>,
    item: T,
)
    requires
        q.wf(h0),
        h1.payloads()@ == h0.payloads()@.push(Some(item)),
        h1.counters()@ == h0.counters()@.push(Some(1usize)),
        h1.flags()@ == h0.flags()@.push(Some(false)),
    ensures
        q.wf(h1),
        q.payload_spec(h1) == q.payload_spec(h0),
        q.count_spec(h1) == q.count_spec(h0),
{
}

/// Families do not interfere at death either: a release that rewrites or
/// frees the cells of one family — any heap shape that changes at most
/// one address per arena — leaves a member of a family with different
/// cells well-formed, reading the same payload and the same count.
pub proof fn lemma_release_leaves_other_families_alone<T>(
    q: SmartPtr<T>,
    s: SmartPtr<T>,
    h0: Heap<T>,
    h1: Heap<T>,
    pv: Option<T>,
    cv: Option<usize>,
    fv: Option<bool>,
)
    requires
        q.wf(h0),
        s.ptr_addr() is Some,
        s.rc_addr() is Some,
        s.flag_addr() is Some,
        s.ptr_addr()->Some_0 < h0.payloads()@.len(),
        s.rc_addr()->Some_0 < h0.counters()@.len(),
        s.flag_addr()->Some_0 < h0.flags()@.len(),
        q.ptr_addr() != s.ptr_addr(),
        q.rc_addr() != s.rc_addr(),
        q.flag_addr() != s.flag_addr(),
        h1.payloads()@ == h0.payloads()@.update(s.ptr_addr()->Some_0 as int, pv) || h1.payloads()@
            == h0.payloads()@,
        h1.counters()@ == h0.counters()@.update(s.rc_addr()->Some_0 as int, cv),
        h1.flags()@ == h0.flags()@.update(s.flag_addr()->Some_0 as int, fv) || h1.flags()@ == h0.flags()@,
    ensures
        q.wf(h1),
        q.payload_spec(h1) == q.payload_spec(h0),
        q.count_spec(h1) == q.count_spec(h0),
{
    let qp: int = q.ptr_addr()->Some_0 as int;
    let qr: int = q.rc_addr()->Some_0 as int;
    let qf: int = q.flag_addr()->Some_0 as int;
    assert(h1.payloads()@[qp] == h0.payloads()@[qp]);
    assert(h1.counters()@[qr] == h0.counters()@[qr]);
    assert(h1.flags()@[qf] == h0.flags()@[qf]);
}

/// Post-release invalidity: once the family's final release has freed the
/// counter cell, no handle referring to that family — however many copies
/// of it are still lying around — is ever observed valid again, so none
/// of them can be dereferenced or release anything twice.
pub proof fn lemma_released_family_never_valid<T>(
    q: SmartPtr<T>,
    s: SmartPtr<T>,
    h0: Heap<T>,
    h1: Heap<T>,
)
    requires
        q.same_family(s),
        s.rc_addr() is Some,
        s.rc_addr()->Some_0 < h0.counters()@.len(),
        h1.counters()@ == h0.counters()@.update(s.rc_addr()->Some_0 as int, None),
    ensures
        !q.valid_spec(h1),
        !s.valid_spec(h1),
{
}

} // verus!
