use vstd::prelude::*;

verus! {

/// A growable pool of heap cells of one type, addressed by index.
///
/// Every allocation hands out a fresh address that is never reused, so
/// the address of a freed cell stays dead forever; a stale handle can be
/// recognized instead of silently aliasing a new allocation.
pub struct Arena<T> {
    slots: Vec<Option<T>>,
}

impl<T> View for Arena<T> {
    type V = Seq<Option<T>>;

    closed spec fn view(&self) -> Seq<Option<T>> {
        self.slots@
    }
}

impl<T> Arena<T> {
    /// `addr` is the address of a currently allocated cell.
    pub open spec fn live(self, addr: usize) -> bool {
        addr < self@.len() && self@[addr as int] is Some
    }

    /// The value held by the cell at `addr`.
    pub open spec fn value_at(self, addr: usize) -> T
        recommends
            self.live(addr),
    {
        self@[addr as int]->Some_0
    }

    /// An empty arena: no cell is live, at any address.
    pub fn new() -> (a: Self)
        ensures
            a@ == Seq::<Option<T>>::empty(),
    {
        Arena { slots: Vec::new() }
    }

    /// Allocates a fresh cell holding `v`. The address returned was never
    /// live before, and every other cell is untouched.
    pub fn allocate(&mut self, v: T) -> (addr: usize)
        ensures
            addr == old(self)@.len(),
            final(self)@ == old(self)@.push(Some(v)),
            final(self).live(addr),
            final(self).value_at(addr) == v,
    {
        let addr: usize = self.slots.len();
        self.slots.push(Some(v));
        addr
    }

    /// Whether `addr` is the address of a live cell.
    pub fn is_live(&self, addr: usize) -> (r: bool)
        ensures
            r == self.live(addr),
    {
        addr < self.slots.len() && self.slots[addr].is_some()
    }

    /// Reads the live cell at `addr`.
    pub fn get(&self, addr: usize) -> (r: &T)
        requires
            self.live(addr),
        ensures
            *r == self.value_at(addr),
    {
        self.slots[addr].as_ref().unwrap()
    }

    /// Overwrites the live cell at `addr` with `v`.
    pub fn set(&mut self, addr: usize, v: T)
        requires
            old(self).live(addr),
        ensures
            final(self)@ == old(self)@.update(addr as int, Some(v)),
    {
        self.slots.set(addr, Some(v));
    }

    /// Borrows the live cell at `addr` mutably; the arena afterwards holds
    /// whatever value the caller leaves behind the returned reference.
    pub fn get_mut(&mut self, addr: usize) -> (r: &mut T)
        requires
            old(self).live(addr),
        ensures
            *r == old(self).value_at(addr),
            final(self)@ == old(self)@.update(addr as int, Some(*final(r))),
    {
        match &mut self.slots[addr] {
            Some(v) => v,
            None => unreached(),
        }
    }

    /// Frees the live cell at `addr`, returning the value it held. The
    /// address goes dead and is never handed out again.
    pub fn free(&mut self, addr: usize) -> (v: T)
        requires
            old(self).live(addr),
        ensures
            v == old(self).value_at(addr),
            final(self)@ == old(self)@.update(addr as int, None),
            !final(self).live(addr),
    {
        let mut cell: Option<T> = None;
        self.slots.set_and_swap(addr, &mut cell);
        cell.unwrap()
    }
}

} // verus!
