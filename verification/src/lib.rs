//! A manually reference-counted shared pointer, built over explicit heap
//! cells.
//!
//! Memory is modelled by [`arena::Arena`]: a pool of cells addressed by
//! index, where a freed address is never reused, so a dangling handle
//! stays recognizably dead instead of silently aliasing a later
//! allocation. [`ptr::ConstPtr`] and [`ptr::MutPtr`] are the thin,
//! copyable, non-owning wrappers around such an address.
//! [`smart::SmartPtr`] is the owning handle: every family of handles
//! shares one payload cell, one counter cell and one extracted-flag cell
//! in a [`smart::Heap`], and the counter is the sole source of truth for
//! how many handles exist. The heap is an explicit argument of every
//! operation, so sharing stays confined to one thread of control by
//! construction.
//!
//! The family-wide consequences of the per-operation contracts are
//! proved in [`laws`].

pub mod arena;
pub mod laws;
pub mod ptr;
pub mod smart;

pub use arena::Arena;
pub use ptr::AsPtr;
pub use ptr::ConstPtr;
pub use ptr::MutPtr;
pub use smart::Heap;
pub use smart::SmartPtr;
