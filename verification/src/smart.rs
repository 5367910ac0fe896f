use vstd::prelude::*;
use vstd::std_specs::cmp::PartialEqSpec;

use crate::arena::Arena;
use crate::ptr::AsPtr;
use crate::ptr::ConstPtr;
use crate::ptr::MutPtr;

verus! {

/// The memory a [`SmartPtr`] family allocates its cells in: one arena per
/// cell kind, so a payload cell, a counter cell and an extracted-flag cell
/// can never alias one another.
pub struct Heap<T> {
    payload_cells: Arena<T>,
    counter_cells: Arena<usize>,
    flag_cells: Arena<bool>,
}

impl<T> Heap<T> {
    /// The arena of payload cells.
    pub closed spec fn payloads(self) -> Arena<T> {
        self.payload_cells
    }

    /// The arena of counter cells.
    pub closed spec fn counters(self) -> Arena<usize> {
        self.counter_cells
    }

    /// The arena of extracted-flag cells.
    pub closed spec fn flags(self) -> Arena<bool> {
        self.flag_cells
    }

    /// A heap with no cells allocated yet.
    pub fn new() -> (h: Self)
        ensures
            h.payloads()@ == Seq::<Option<T>>::empty(),
            h.counters()@ == Seq::<Option<usize>>::empty(),
            h.flags()@ == Seq::<Option<bool>>::empty(),
    {
        Heap {
            payload_cells: Arena::new(),
            counter_cells: Arena::new(),
            flag_cells: Arena::new(),
        }
    }
}

/// A shared-ownership, manually reference-counted handle.
///
/// Every handle of one family refers to the same three heap cells: the
/// payload, the count of live handles, and the one-shot extracted flag.
/// The counter is the sole source of truth for how many handles exist;
/// whichever handle brings it to zero reclaims the family's cells.
pub struct SmartPtr<T> {
    ptr: MutPtr<T>,
    rc: MutPtr<usize>,
    flag: MutPtr<bool>,
}

impl<T> SmartPtr<T> {
    /// The address of the family's payload cell.
    pub closed spec fn ptr_addr(self) -> Option<usize> {
        self.ptr@
    }

    /// The address of the family's counter cell.
    pub closed spec fn rc_addr(self) -> Option<usize> {
        self.rc@
    }

    /// The address of the family's extracted-flag cell.
    pub closed spec fn flag_addr(self) -> Option<usize> {
        self.flag@
    }

    /// The placeholder handle: no cells at all, never valid.
    pub open spec fn is_null_spec(self) -> bool {
        &&& self.ptr_addr() is None
        &&& self.rc_addr() is None
        &&& self.flag_addr() is None
    }

    /// Two handles belong to the same family: they refer to the same
    /// three cells.
    pub open spec fn same_family(self, other: SmartPtr<T>) -> bool {
        &&& self.ptr_addr() == other.ptr_addr()
        &&& self.rc_addr() == other.rc_addr()
        &&& self.flag_addr() == other.flag_addr()
    }

    /// The number of live handles in this handle's family, as recorded in
    /// the shared counter cell.
    pub open spec fn count_spec(self, h: Heap<T>) -> usize
        recommends
            self.rc_addr() is Some,
            h.counters().live(self.rc_addr()->Some_0),
    {
        h.counters().value_at(self.rc_addr()->Some_0)
    }

    /// The payload the family currently shares.
    pub open spec fn payload_spec(self, h: Heap<T>) -> T
        recommends
            self.ptr_addr() is Some,
            h.payloads().live(self.ptr_addr()->Some_0),
    {
        h.payloads().value_at(self.ptr_addr()->Some_0)
    }

    /// What `valid` observes: all three cell references non-null, the
    /// counter cell still allocated, and the count strictly positive.
    pub open spec fn valid_spec(self, h: Heap<T>) -> bool {
        &&& self.ptr_addr() is Some
        &&& self.rc_addr() is Some
        &&& self.flag_addr() is Some
        &&& h.counters().live(self.rc_addr()->Some_0)
        &&& self.count_spec(h) > 0
    }

    /// A well-formed live member of a family: what `new` and `clone`
    /// establish, and what every operation on a live handle preserves
    /// until the handle is released.
    pub open spec fn wf(self, h: Heap<T>) -> bool {
        &&& self.valid_spec(h)
        &&& h.flags().live(self.flag_addr()->Some_0)
        &&& h.flags().value_at(self.flag_addr()->Some_0) == false
        &&& h.payloads().live(self.ptr_addr()->Some_0)
    }

    /// A handle whose release path is safe to run: if it still observes a
    /// live family, the family's remaining cells are intact. Weaker than
    /// [`SmartPtr::wf`]: it also covers the family whose payload has been
    /// extracted.
    pub open spec fn releasable(self, h: Heap<T>) -> bool {
        &&& self.valid_spec(h)
        &&& h.flags().live(self.flag_addr()->Some_0)
        &&& (h.flags().value_at(self.flag_addr()->Some_0) == false ==> h.payloads().live(
            self.ptr_addr()->Some_0,
        ))
    }

    /// Takes ownership of `item`, moving it into a fresh payload cell, and
    /// allocates a counter cell initialized to 1 and an extracted-flag
    /// cell initialized to false. The only way a family comes into
    /// existence; its cells are fresh, so no existing family is touched.
    pub fn new(item: T, h: &mut Heap<T>) -> (s: Self)
        ensures
            s.wf(*final(h)),
            s.count_spec(*final(h)) == 1,
            s.payload_spec(*final(h)) == item,
            s.ptr_addr() == Some(old(h).payloads()@.len() as usize),
            s.rc_addr() == Some(old(h).counters()@.len() as usize),
            s.flag_addr() == Some(old(h).flags()@.len() as usize),
            final(h).payloads()@ == old(h).payloads()@.push(Some(item)),
            final(h).counters()@ == old(h).counters()@.push(Some(1usize)),
            final(h).flags()@ == old(h).flags()@.push(Some(false)),
    {
        let pa: usize = h.payload_cells.allocate(item);
        let ra: usize = h.counter_cells.allocate(1);
        let fa: usize = h.flag_cells.allocate(false);
        SmartPtr { ptr: MutPtr::new(pa), rc: MutPtr::new(ra), flag: MutPtr::new(fa) }
    }

    /// True iff the payload, counter and extracted-flag references are all
    /// non-null and the counter's current value is strictly greater than
    /// zero. A handle observed as invalid must never be dereferenced.
    pub fn valid(&self, h: &Heap<T>) -> (r: bool)
        ensures
            r == self.valid_spec(*h),
    {
        self.ptr.present() && self.rc.present() && self.flag.present() && h.counter_cells.is_live(
            self.rc.raw().unwrap(),
        ) && *self.rc.get(&h.counter_cells) > 0
    }

    /// Reads the shared payload. The handle must be a live, well-formed
    /// family member — the caller's obligation, checked via `valid`.
    pub fn access<'a>(&self, h: &'a Heap<T>) -> (r: &'a T)
        requires
            self.wf(*h),
        ensures
            *r == self.payload_spec(*h),
    {
        self.ptr.get(&h.payload_cells)
    }

    /// Borrows the shared payload mutably; the mutation is visible to
    /// every handle of the family, and nothing else in the heap moves.
    pub fn access_mut<'a>(&self, h: &'a mut Heap<T>) -> (r: &'a mut T)
        requires
            self.wf(*old(h)),
        ensures
            *r == self.payload_spec(*old(h)),
            final(h).payloads()@ == old(h).payloads()@.update(
                self.ptr_addr()->Some_0 as int,
                Some(*final(r)),
            ),
            final(h).counters()@ == old(h).counters()@,
            final(h).flags()@ == old(h).flags()@,
    {
        self.ptr.get_mut(&mut h.payload_cells)
    }

    /// Shared-copy: produces a second handle of the same family and
    /// increments the shared counter by one. Nothing else in the heap
    /// moves, so every sibling still sees the same payload.
    pub fn clone(&self, h: &mut Heap<T>) -> (s: Self)
        requires
            self.wf(*old(h)),
            self.count_spec(*old(h)) < usize::MAX,
        ensures
            s.same_family(*self),
            s.wf(*final(h)),
            self.wf(*final(h)),
            self.count_spec(*final(h)) == self.count_spec(*old(h)) + 1,
            self.payload_spec(*final(h)) == self.payload_spec(*old(h)),
            final(h).counters()@ == old(h).counters()@.update(
                self.rc_addr()->Some_0 as int,
                Some((self.count_spec(*old(h)) + 1) as usize),
            ),
            final(h).payloads()@ == old(h).payloads()@,
            final(h).flags()@ == old(h).flags()@,
    {
        let c: usize = *self.rc.get(&h.counter_cells);
        self.rc.set(&mut h.counter_cells, c + 1);
        SmartPtr { ptr: self.ptr, rc: self.rc, flag: self.flag }
    }

    /// End-of-life for one handle. On an invalid handle (the placeholder,
    /// or one whose family is already gone) it is a no-op. Otherwise it
    /// decrements the shared counter; the handle that brings it to zero
    /// reclaims the counter and flag cells, and the payload cell too
    /// unless the payload was extracted — in which case, or when siblings
    /// remain, `None` comes back. The payload's own teardown therefore
    /// happens exactly once, at the moment the last handle lets go of it.
    pub fn release(self, h: &mut Heap<T>) -> (r: Option<T>)
        requires
            self.valid_spec(*old(h)) ==> self.releasable(*old(h)),
        ensures
            !self.valid_spec(*old(h)) ==> r is None && *final(h) == *old(h),
            self.valid_spec(*old(h)) && self.count_spec(*old(h)) > 1 ==> {
                &&& r is None
                &&& final(h).counters()@ == old(h).counters()@.update(
                    self.rc_addr()->Some_0 as int,
                    Some((self.count_spec(*old(h)) - 1) as usize),
                )
                &&& final(h).payloads()@ == old(h).payloads()@
                &&& final(h).flags()@ == old(h).flags()@
            },
            self.valid_spec(*old(h)) && self.count_spec(*old(h)) == 1 ==> {
                &&& final(h).counters()@ == old(h).counters()@.update(
                    self.rc_addr()->Some_0 as int,
                    None,
                )
                &&& final(h).flags()@ == old(h).flags()@.update(self.flag_addr()->Some_0 as int, None)
                &&& (old(h).flags().value_at(self.flag_addr()->Some_0) == false ==> {
                    &&& r == Some(self.payload_spec(*old(h)))
                    &&& final(h).payloads()@ == old(h).payloads()@.update(
                        self.ptr_addr()->Some_0 as int,
                        None,
                    )
                })
                &&& (old(h).flags().value_at(self.flag_addr()->Some_0) == true ==> {
                    &&& r is None
                    &&& final(h).payloads()@ == old(h).payloads()@
                })
            },
    {
        if !self.valid(h) {
            return None;
        }
        let ra: usize = self.rc.raw().unwrap();
        let c: usize = *self.rc.get(&h.counter_cells);
        if c > 1 {
            self.rc.set(&mut h.counter_cells, c - 1);
            None
        } else {
            let fa: usize = self.flag.raw().unwrap();
            let extracted: bool = *self.flag.get(&h.flag_cells);
            let _count_cell: usize = h.counter_cells.free(ra);
            let _flag_cell: bool = h.flag_cells.free(fa);
            if extracted {
                None
            } else {
                let pa: usize = self.ptr.raw().unwrap();
                Some(h.payload_cells.free(pa))
            }
        }
    }

    /// One-shot extraction: consumes this handle and, when it is the
    /// family's only member, moves the payload back out as an owned value.
    /// It first sets the shared extracted flag; the consuming handle's own
    /// teardown then still runs, sees the flag, skips the payload and
    /// frees the bookkeeping cells. While siblings are alive the family is
    /// not exclusively owned: the call fails and hands the handle back,
    /// with the heap untouched, rather than leave live views of moved-out
    /// memory.
    pub fn localize(self, h: &mut Heap<T>) -> (r: Result<T, Self>)
        requires
            self.wf(*old(h)),
        ensures
            self.count_spec(*old(h)) > 1 ==> r == Result::<T, Self>::Err(self) && *final(h) == *old(
                h,
            ),
            self.count_spec(*old(h)) == 1 ==> {
                &&& r == Result::<T, Self>::Ok(self.payload_spec(*old(h)))
                &&& final(h).payloads()@ == old(h).payloads()@.update(
                    self.ptr_addr()->Some_0 as int,
                    None,
                )
                &&& final(h).counters()@ == old(h).counters()@.update(
                    self.rc_addr()->Some_0 as int,
                    None,
                )
                &&& final(h).flags()@ == old(h).flags()@.update(self.flag_addr()->Some_0 as int, None)
            },
    {
        let c: usize = *self.rc.get(&h.counter_cells);
        if c > 1 {
            return Err(self);
        }
        let ghost h0 = *h;
        self.flag.set(&mut h.flag_cells, true);
        let pa: usize = self.ptr.raw().unwrap();
        let item: T = h.payload_cells.free(pa);
        let ghost fa: int = self.flag_addr()->Some_0 as int;
        let _released: Option<T> = self.release(h);
        proof {
            assert(h.flags()@ =~= h0.flags()@.update(fa, None));
        }
        Ok(item)
    }

    /// Equality of two live handles, delegated to the payloads' own
    /// equality: the handles compare equal exactly when the payloads they
    /// refer to do, whenever the payload's `==` obeys its specification.
    pub fn eq_payload(&self, other: &SmartPtr<T>, h: &Heap<T>) -> (r: bool) where T: PartialEq
        requires
            self.wf(*h),
            other.wf(*h),
        ensures
            T::obeys_eq_spec() ==> r == self.payload_spec(*h).eq_spec(&other.payload_spec(*h)),
    {
        self.access(h) == other.access(h)
    }

    /// Reads the family's counter cell.
    pub fn count(&self, h: &Heap<T>) -> (r: usize)
        requires
            self.rc_addr() is Some,
            h.counters().live(self.rc_addr()->Some_0),
        ensures
            r == self.count_spec(*h),
    {
        *self.rc.get(&h.counter_cells)
    }
}

impl<T> Default for SmartPtr<T> {
    /// The placeholder handle: no cells (null references), `valid` false
    /// against every heap. It exists only to stand in before assignment
    /// and must never be dereferenced.
    fn default() -> (s: Self)
        ensures
            s.is_null_spec(),
    {
        SmartPtr { ptr: MutPtr::default(), rc: MutPtr::default(), flag: MutPtr::default() }
    }
}

impl<T> AsPtr<T> for SmartPtr<T> {
    open spec fn addr_of(&self) -> Option<usize> {
        self.ptr_addr()
    }

    fn as_ptr(&self) -> (r: ConstPtr<T>) {
        self.ptr.as_const()
    }

    fn as_ptr_mut(&self) -> (r: MutPtr<T>) {
        self.ptr
    }
}

} // verus!
