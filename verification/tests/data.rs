use std::cell::{Cell, RefCell};
use twain2::data::PointerFromHandle;
use twain2::entrypoint::{EntryPoints, TwEntryPoint};

#[test]
fn null_lock_gives_no_view_and_never_unlocks() {
    let locked = RefCell::new(Vec::new());
    let unlocked = RefCell::new(Vec::new());
    let ep = EntryPoints {
        allocate: |_size: u32| 0usize,
        free: |_handle: usize| (),
        lock: |handle: usize| {
            locked.borrow_mut().push(handle);
            0usize
        },
        unlock: |handle: usize| unlocked.borrow_mut().push(handle),
    };
    {
        let view = PointerFromHandle::new(&ep, 0x1234);
        assert!(view.is_none());
    }
    assert_eq!(vec![0x1234], *locked.borrow());
    assert!(unlocked.borrow().is_empty());
}

#[test]
fn view_holds_the_locked_address_and_unlocks_once() {
    let locks = Cell::new(0u32);
    let unlocked = RefCell::new(Vec::new());
    let ep = EntryPoints {
        allocate: |_size: u32| 0x40usize,
        free: |_handle: usize| (),
        lock: |handle: usize| {
            locks.set(locks.get() + 1);
            handle + 0x1000
        },
        unlock: |handle: usize| unlocked.borrow_mut().push(handle),
    };
    let view = PointerFromHandle::new(&ep, 0x40).unwrap();
    assert_eq!(0x1040, *view);
    assert_eq!(0x1040, *view);
    assert_eq!(1, locks.get());
    assert!(unlocked.borrow().is_empty());
    view.release();
    assert_eq!(vec![0x40], *unlocked.borrow());
    assert_eq!(1, locks.get());
}

#[test]
fn each_view_unlocks_its_own_handle() {
    let unlocked = RefCell::new(Vec::new());
    let ep = EntryPoints {
        allocate: |_size: u32| 0usize,
        free: |_handle: usize| (),
        lock: |handle: usize| if handle == 2 { 0 } else { handle * 16 },
        unlock: |handle: usize| unlocked.borrow_mut().push(handle),
    };
    let one = PointerFromHandle::new(&ep, 1).unwrap();
    assert!(PointerFromHandle::new(&ep, 2).is_none());
    let three = PointerFromHandle::new(&ep, 3).unwrap();
    assert_eq!(16, *one);
    assert_eq!(48, *three);
    three.release();
    one.release();
    assert_eq!(vec![3, 1], *unlocked.borrow());
}

#[test]
fn entry_points_need_all_four_functions() {
    fn allocate(_size: u32) -> usize {
        7
    }
    fn free(_handle: usize) {}
    fn lock(handle: usize) -> usize {
        handle + 1
    }
    fn unlock(_handle: usize) {}
    type Table = TwEntryPoint<fn(u32) -> usize, fn(usize), fn(usize) -> usize, fn(usize)>;

    let full: Table = TwEntryPoint {
        mem_allocate: Some(allocate),
        mem_free: Some(free),
        mem_lock: Some(lock),
        mem_unlock: Some(unlock),
    };
    let ep = EntryPoints::from_tw_entrypoint(full).unwrap();
    assert_eq!(7, (ep.allocate)(100));
    assert_eq!(11, (ep.lock)(10));
    (ep.free)(7);
    (ep.unlock)(10);

    for missing in 0..4 {
        let partial: Table = TwEntryPoint {
            mem_allocate: if missing == 0 { None } else { Some(allocate) },
            mem_free: if missing == 1 { None } else { Some(free) },
            mem_lock: if missing == 2 { None } else { Some(lock) },
            mem_unlock: if missing == 3 { None } else { Some(unlock) },
        };
        assert!(EntryPoints::from_tw_entrypoint(partial).is_none());
    }
    let empty: Table = TwEntryPoint::default();
    assert!(empty.mem_allocate.is_none());
    assert!(empty.mem_free.is_none());
    assert!(empty.mem_lock.is_none());
    assert!(empty.mem_unlock.is_none());
    assert!(EntryPoints::from_tw_entrypoint(empty).is_none());
}

#[test]
fn library_has_no_memory_functions_of_its_own() {
    let ep: Option<EntryPoints<fn(u32) -> usize, fn(usize), fn(usize) -> usize, fn(usize)>> =
        EntryPoints::os_default();
    assert!(ep.is_none());
}
