use core::marker::PhantomData;
use vstd::prelude::*;

use crate::arena::Arena;

verus! {

/// A copyable, non-owning, read-only handle to one cell of an
/// [`Arena<T>`]: a bare address that may be null.
///
/// The wrapper makes no liveness claim of its own; dereferencing demands
/// that the addressed cell is live, and that obligation lies with the
/// caller, exactly as with a bare address.
pub struct ConstPtr<T> {
    addr: Option<usize>,
    marker: PhantomData<T>,
}

impl<T> View for ConstPtr<T> {
    type V = Option<usize>;

    closed spec fn view(&self) -> Option<usize> {
        self.addr
    }
}

impl<T> ConstPtr<T> {
    /// Wraps an address. No ownership is taken and nothing is checked:
    /// validity is queried at dereference time against an arena.
    pub fn new(addr: usize) -> (p: Self)
        ensures
            p@ == Some(addr),
    {
        ConstPtr { addr: Some(addr), marker: PhantomData }
    }

    /// The bare address; `None` is the null address.
    pub fn raw(&self) -> (r: Option<usize>)
        ensures
            r == self@,
    {
        self.addr
    }

    /// Whether the wrapper holds the null address.
    pub fn null(&self) -> (r: bool)
        ensures
            r == (self@ is None),
    {
        self.addr.is_none()
    }

    /// Whether the wrapper holds a non-null address.
    pub fn present(&self) -> (r: bool)
        ensures
            r == (self@ is Some),
    {
        self.addr.is_some()
    }

    /// Resets the wrapper to the null address; the pointee is untouched.
    pub fn clear(&mut self)
        ensures
            final(self)@ is None,
    {
        self.addr = None;
    }

    /// Dereference: reads the pointee out of `arena`. The cell must be
    /// live — the caller's obligation, not the wrapper's.
    pub fn get<'a>(&self, arena: &'a Arena<T>) -> (r: &'a T)
        requires
            self@ is Some,
            arena.live(self@->Some_0),
        ensures
            *r == arena.value_at(self@->Some_0),
    {
        arena.get(self.addr.unwrap())
    }
}

impl<T> Clone for ConstPtr<T> {
    /// Copying is a shallow duplication of the address.
    fn clone(&self) -> (r: Self)
        ensures
            r == *self,
    {
        ConstPtr { addr: self.addr, marker: PhantomData }
    }
}

impl<T> Copy for ConstPtr<T> {}

impl<T> Default for ConstPtr<T> {
    /// The null wrapper.
    fn default() -> (p: Self)
        ensures
            p@ is None,
    {
        ConstPtr { addr: None, marker: PhantomData }
    }
}

/// A copyable, non-owning handle to one cell of an [`Arena<T>`] that also
/// grants write access to the pointee. Same null and validity semantics
/// as [`ConstPtr`].
pub struct MutPtr<T> {
    addr: Option<usize>,
    marker: PhantomData<T>,
}

impl<T> View for MutPtr<T> {
    type V = Option<usize>;

    closed spec fn view(&self) -> Option<usize> {
        self.addr
    }
}

impl<T> MutPtr<T> {
    /// Wraps an address. No ownership is taken and nothing is checked.
    pub fn new(addr: usize) -> (p: Self)
        ensures
            p@ == Some(addr),
    {
        MutPtr { addr: Some(addr), marker: PhantomData }
    }

    /// The bare address; `None` is the null address.
    pub fn raw(&self) -> (r: Option<usize>)
        ensures
            r == self@,
    {
        self.addr
    }

    /// Whether the wrapper holds the null address.
    pub fn null(&self) -> (r: bool)
        ensures
            r == (self@ is None),
    {
        self.addr.is_none()
    }

    /// Whether the wrapper holds a non-null address.
    pub fn present(&self) -> (r: bool)
        ensures
            r == (self@ is Some),
    {
        self.addr.is_some()
    }

    /// Resets the wrapper to the null address; the pointee is untouched.
    pub fn clear(&mut self)
        ensures
            final(self)@ is None,
    {
        self.addr = None;
    }

    /// Dereference: reads the pointee out of `arena`. The cell must be
    /// live — the caller's obligation, not the wrapper's.
    pub fn get<'a>(&self, arena: &'a Arena<T>) -> (r: &'a T)
        requires
            self@ is Some,
            arena.live(self@->Some_0),
        ensures
            *r == arena.value_at(self@->Some_0),
    {
        arena.get(self.addr.unwrap())
    }

    /// Mutable dereference: borrows the pointee out of `arena`; the cell
    /// afterwards holds whatever the caller leaves behind the reference.
    pub fn get_mut<'a>(&self, arena: &'a mut Arena<T>) -> (r: &'a mut T)
        requires
            self@ is Some,
            old(arena).live(self@->Some_0),
        ensures
            *r == old(arena).value_at(self@->Some_0),
            final(arena)@ == old(arena)@.update(self@->Some_0 as int, Some(*final(r))),
    {
        arena.get_mut(self.addr.unwrap())
    }

    /// Overwrites the pointee in `arena` with `v`.
    pub fn set(&self, arena: &mut Arena<T>, v: T)
        requires
            self@ is Some,
            old(arena).live(self@->Some_0),
        ensures
            final(arena)@ == old(arena)@.update(self@->Some_0 as int, Some(v)),
    {
        arena.set(self.addr.unwrap(), v);
    }

    /// Widening conversion: a read-only wrapper at the same address.
    pub fn as_const(&self) -> (r: ConstPtr<T>)
        ensures
            r@ == self@,
    {
        match self.addr {
            Some(a) => ConstPtr::new(a),
            None => ConstPtr::default(),
        }
    }
}

impl<T> Clone for MutPtr<T> {
    /// Copying is a shallow duplication of the address.
    fn clone(&self) -> (r: Self)
        ensures
            r == *self,
    {
        MutPtr { addr: self.addr, marker: PhantomData }
    }
}

impl<T> Copy for MutPtr<T> {}

impl<T> Default for MutPtr<T> {
    /// The null wrapper.
    fn default() -> (p: Self)
        ensures
            p@ is None,
    {
        MutPtr { addr: None, marker: PhantomData }
    }
}

/// Implemented by owners that can hand out non-owning wrappers to a cell
/// they refer to: the surface that adapters layered outside the core need.
pub trait AsPtr<T> {
    /// The address the handed-out wrappers carry.
    spec fn addr_of(&self) -> Option<usize>;

    /// A read-only wrapper to the referred cell.
    fn as_ptr(&self) -> (r: ConstPtr<T>)
        ensures
            r@ == self.addr_of(),
    ;

    /// A mutable wrapper to the referred cell.
    fn as_ptr_mut(&self) -> (r: MutPtr<T>)
        ensures
            r@ == self.addr_of(),
    ;
}

impl<T> AsPtr<T> for MutPtr<T> {
    open spec fn addr_of(&self) -> Option<usize> {
        self@
    }

    fn as_ptr(&self) -> (r: ConstPtr<T>) {
        self.as_const()
    }

    fn as_ptr_mut(&self) -> (r: MutPtr<T>) {
        *self
    }
}

} // verus!
