use smart_ptr::Arena;
use smart_ptr::AsPtr;
use smart_ptr::ConstPtr;
use smart_ptr::Heap;
use smart_ptr::MutPtr;
use smart_ptr::SmartPtr;

#[test]
fn arena_allocate_read_write_free() {
    let mut arena: Arena<u32> = Arena::new();
    let a: usize = arena.allocate(11);
    let b: usize = arena.allocate(22);
    assert!(arena.is_live(a));
    assert!(arena.is_live(b));
    assert_eq!(*arena.get(a), 11);
    assert_eq!(*arena.get(b), 22);

    arena.set(a, 33);
    assert_eq!(*arena.get(a), 33);

    *arena.get_mut(b) = 44;
    assert_eq!(*arena.get(b), 44);

    assert_eq!(arena.free(a), 33);
    assert!(!arena.is_live(a));
    assert!(arena.is_live(b));

    // a freed address is never handed out again
    let c: usize = arena.allocate(55);
    assert_ne!(c, a);
    assert_ne!(c, b);
    assert_eq!(*arena.get(c), 55);
}

#[test]
fn const_ptr_null_present_clear() {
    let mut arena: Arena<i32> = Arena::new();
    let addr: usize = arena.allocate(-7);

    let mut p: ConstPtr<i32> = ConstPtr::new(addr);
    assert!(!p.null());
    assert!(p.present());
    assert_eq!(p.raw(), Some(addr));
    assert_eq!(*p.get(&arena), -7);

    // clearing resets the wrapper, not the pointee
    p.clear();
    assert!(p.null());
    assert!(!p.present());
    assert_eq!(p.raw(), None);
    assert_eq!(*arena.get(addr), -7);

    let d: ConstPtr<i32> = ConstPtr::default();
    assert!(d.null());
    assert_eq!(d.raw(), None);
}

#[test]
fn const_ptr_copies_share_the_address() {
    let mut arena: Arena<u8> = Arena::new();
    let addr: usize = arena.allocate(9);

    let p: ConstPtr<u8> = ConstPtr::new(addr);
    let q = p;
    let r = p.clone();
    assert_eq!(p.raw(), Some(addr));
    assert_eq!(q.raw(), Some(addr));
    assert_eq!(r.raw(), Some(addr));
    assert_eq!(*q.get(&arena), 9);
    assert_eq!(*r.get(&arena), 9);
}

#[test]
fn mut_ptr_null_present_clear() {
    let mut arena: Arena<i32> = Arena::new();
    let addr: usize = arena.allocate(5);

    let mut p: MutPtr<i32> = MutPtr::new(addr);
    assert!(!p.null());
    assert!(p.present());
    assert_eq!(p.raw(), Some(addr));

    p.clear();
    assert!(p.null());
    assert!(!p.present());
    assert_eq!(p.raw(), None);

    let d: MutPtr<i32> = MutPtr::default();
    assert!(d.null());
}

#[test]
fn mut_ptr_reads_and_writes_the_pointee() {
    let mut arena: Arena<u64> = Arena::new();
    let addr: usize = arena.allocate(100);

    let p: MutPtr<u64> = MutPtr::new(addr);
    assert_eq!(*p.get(&arena), 100);

    p.set(&mut arena, 200);
    assert_eq!(*p.get(&arena), 200);

    *p.get_mut(&mut arena) = 300;
    assert_eq!(*p.get(&arena), 300);

    // a copy aliases the same cell, without restriction
    let q = p;
    q.set(&mut arena, 400);
    assert_eq!(*p.get(&arena), 400);
}

#[test]
fn mut_ptr_widens_to_const_ptr() {
    let mut arena: Arena<u16> = Arena::new();
    let addr: usize = arena.allocate(77);

    let p: MutPtr<u16> = MutPtr::new(addr);
    let c: ConstPtr<u16> = p.as_const();
    assert_eq!(c.raw(), Some(addr));
    assert_eq!(*c.get(&arena), 77);

    let n: MutPtr<u16> = MutPtr::default();
    assert!(n.as_const().null());
}

#[test]
fn as_ptr_surface_of_mut_ptr() {
    let mut arena: Arena<u8> = Arena::new();
    let addr: usize = arena.allocate(1);

    let p: MutPtr<u8> = MutPtr::new(addr);
    assert_eq!(p.as_ptr().raw(), Some(addr));
    assert_eq!(p.as_ptr_mut().raw(), Some(addr));
    assert_eq!(*p.as_ptr().get(&arena), 1);
}

#[test]
fn as_ptr_surface_of_smart_ptr() {
    let mut heap: Heap<u8> = Heap::new();
    let s = SmartPtr::new(8u8, &mut heap);

    // the handle exposes its payload cell for adapters layered outside
    let c: ConstPtr<u8> = s.as_ptr();
    let m: MutPtr<u8> = s.as_ptr_mut();
    assert!(c.present());
    assert_eq!(c.raw(), m.raw());

    s.release(&mut heap);
    let n: SmartPtr<u8> = SmartPtr::default();
    assert!(n.as_ptr().null());
    assert!(n.as_ptr_mut().null());
}
