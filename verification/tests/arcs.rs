use std::cell::Cell;
use std::rc::Rc;
use sync_primitives::arc_with_weak_pointers;
use sync_primitives::arc_with_weak_pointers::UpgradeTurn;
use sync_primitives::basic_arc;

struct DetectDrop {
    drops: Rc<Cell<usize>>,
}

impl Drop for DetectDrop {
    fn drop(&mut self) {
        self.drops.set(self.drops.get() + 1);
    }
}

#[test]
fn test_basic_arc() {
    let num_drops = Rc::new(Cell::new(0));
    let mut heap = basic_arc::Heap::new();

    let x = basic_arc::MyArc::new(&mut heap, (1, DetectDrop { drops: Rc::clone(&num_drops) }));
    let y = x.clone(&mut heap);

    // One thread is done with its handle, and the other one is not.
    assert_eq!(x.deref(&heap).0, 1);
    assert_eq!(y.deref(&heap).0, 1);
    x.drop(&mut heap);

    // The count is one, so the data has not been dropped.
    assert_eq!(num_drops.get(), 0);

    // The remaining handle drops it.
    y.drop(&mut heap);
    assert_eq!(num_drops.get(), 1);
}

#[test]
fn test_arc_weak_ref() {
    let num_drops = Rc::new(Cell::new(0));
    let mut heap = arc_with_weak_pointers::Heap::new();

    let x = arc_with_weak_pointers::MyArc::new(
        &mut heap,
        (1, DetectDrop { drops: Rc::clone(&num_drops) }),
    );

    // Two weak handles.
    let y = arc_with_weak_pointers::MyArc::downgrade(&x, &mut heap);
    let z = arc_with_weak_pointers::MyArc::downgrade(&x, &mut heap);

    // One of them is upgraded, which works since the strong count is one.
    let strong_y = y.upgrade(&mut heap).unwrap();
    assert_eq!(strong_y.deref(&heap).0, 1);
    assert_eq!(x.deref(&heap).0, 1);
    strong_y.drop(&mut heap);
    y.drop(&mut heap);

    // The data has not been dropped yet.
    assert_eq!(num_drops.get(), 0);
    // An upgrade works as long as there is a strong handle.
    let strong_z = z.upgrade(&mut heap);
    assert!(strong_z.is_some());
    strong_z.unwrap().drop(&mut heap);

    // The last strong handle goes, and the data with it.
    x.drop(&mut heap);
    assert_eq!(num_drops.get(), 1);

    // An upgrade does not work any more.
    assert!(z.upgrade(&mut heap).is_none());
    z.drop(&mut heap);
    assert_eq!(num_drops.get(), 1);
}

#[test]
fn get_mut_needs_the_only_handle() {
    let mut heap = basic_arc::Heap::new();
    let mut x = basic_arc::MyArc::new(&mut heap, 1);
    *basic_arc::MyArc::get_mut(&mut x, &mut heap).unwrap() = 2;
    assert_eq!(*x.deref(&heap), 2);
    assert_eq!(x.ref_count(&heap), 1);
    let y = x.clone(&mut heap);
    assert_eq!(x.ref_count(&heap), 2);
    assert!(basic_arc::MyArc::get_mut(&mut x, &mut heap).is_none());
    assert_eq!(*y.deref(&heap), 2);
    y.drop(&mut heap);
    *basic_arc::MyArc::get_mut(&mut x, &mut heap).unwrap() += 1;
    assert_eq!(*x.deref(&heap), 3);
}

#[test]
fn whoever_takes_the_count_to_zero_frees() {
    let num_drops = Rc::new(Cell::new(0));
    let mut heap = basic_arc::Heap::new();
    let x = basic_arc::MyArc::new(&mut heap, DetectDrop { drops: Rc::clone(&num_drops) });
    let y = x.clone(&mut heap);
    assert!(x.release(&mut heap).is_none());
    let vacated = y.release(&mut heap).unwrap();
    assert_eq!(num_drops.get(), 0);
    vacated.free(&mut heap);
    assert_eq!(num_drops.get(), 1);
}

#[test]
fn allocations_do_not_disturb_each_other() {
    let mut heap = basic_arc::Heap::new();
    let a = basic_arc::MyArc::new(&mut heap, "a");
    let b = basic_arc::MyArc::new(&mut heap, "b");
    let c = b.clone(&mut heap);
    b.drop(&mut heap);
    assert_eq!(*a.deref(&heap), "a");
    a.drop(&mut heap);
    assert_eq!(*c.deref(&heap), "b");
}

#[test]
fn weak_handle_stands_in_the_way_of_get_mut() {
    let mut heap = arc_with_weak_pointers::Heap::new();
    let mut x = arc_with_weak_pointers::MyArc::new(&mut heap, 1);
    *arc_with_weak_pointers::MyArc::get_mut(&mut x, &mut heap).unwrap() = 2;
    let w = arc_with_weak_pointers::MyArc::downgrade(&x, &mut heap);
    assert!(arc_with_weak_pointers::MyArc::get_mut(&mut x, &mut heap).is_none());
    w.drop(&mut heap);
    *arc_with_weak_pointers::MyArc::get_mut(&mut x, &mut heap).unwrap() += 1;
    assert_eq!(*x.deref(&heap), 3);
}

#[test]
fn clone_of_a_shared_handle() {
    let num_drops = Rc::new(Cell::new(0));
    let mut heap = arc_with_weak_pointers::Heap::new();
    let x = arc_with_weak_pointers::MyArc::new(
        &mut heap,
        DetectDrop { drops: Rc::clone(&num_drops) },
    );
    let w = arc_with_weak_pointers::MyArc::downgrade(&x, &mut heap);
    let y = w.upgrade(&mut heap).unwrap();
    assert_eq!(w.data_ref_count(&heap), 2);
    assert_eq!(w.alloc_count(&heap), 3);
    let z = x.clone(&mut heap);
    assert_eq!(z.data_ref_count(&heap), 3);
    assert_eq!(z.alloc_count(&heap), 4);
    x.drop(&mut heap);
    y.drop(&mut heap);
    assert_eq!(num_drops.get(), 0);
    z.drop(&mut heap);
    assert_eq!(num_drops.get(), 1);
    let v = w.clone(&mut heap);
    assert!(v.upgrade(&mut heap).is_none());
    v.drop(&mut heap);
    w.drop(&mut heap);
}

#[test]
fn upgrade_turns() {
    let mut heap = arc_with_weak_pointers::Heap::new();
    let x = arc_with_weak_pointers::MyArc::new(&mut heap, 'x');
    let w = arc_with_weak_pointers::MyArc::downgrade(&x, &mut heap);
    // A count that is out of date, and a failure without a reason.
    assert!(matches!(w.upgrade_turn(&mut heap, 5, false), UpgradeTurn::Retry(1)));
    assert!(matches!(w.upgrade_turn(&mut heap, 1, true), UpgradeTurn::Retry(1)));
    match w.upgrade_turn(&mut heap, 1, false) {
        UpgradeTurn::Claimed(upgrade) => {
            // The last strong handle goes in the midst of the upgrade: the value stays.
            let (weak_half, last) = x.release(&mut heap);
            assert!(!last);
            assert!(weak_half.release(&mut heap).is_none());
            let y = upgrade.finish(&mut heap, &w);
            assert_eq!(*y.deref(&heap), 'x');
            y.drop(&mut heap);
        }
        _ => panic!(),
    }
    assert!(matches!(w.upgrade_turn(&mut heap, 1, false), UpgradeTurn::Retry(0)));
    assert!(matches!(w.upgrade_turn(&mut heap, 0, false), UpgradeTurn::Gone));
}

#[test]
fn drop_of_a_strong_handle_step_by_step() {
    let num_drops = Rc::new(Cell::new(0));
    let mut heap = arc_with_weak_pointers::Heap::new();
    let x = arc_with_weak_pointers::MyArc::new(
        &mut heap,
        DetectDrop { drops: Rc::clone(&num_drops) },
    );
    let w = arc_with_weak_pointers::MyArc::downgrade(&x, &mut heap);
    let (weak_half, last) = x.release(&mut heap);
    assert!(last);
    // Another thread comes in between: the value is still there, and not to be had.
    assert_eq!(num_drops.get(), 0);
    assert!(w.upgrade(&mut heap).is_none());
    weak_half.clear(&mut heap);
    assert_eq!(num_drops.get(), 1);
    assert!(weak_half.release(&mut heap).is_none());
    let vacated = w.release(&mut heap).unwrap();
    vacated.free(&mut heap);
    assert_eq!(num_drops.get(), 1);
}

#[test]
fn clone_step_by_step() {
    let mut heap = arc_with_weak_pointers::Heap::new();
    let x = arc_with_weak_pointers::MyArc::new(&mut heap, 4);
    let w = arc_with_weak_pointers::MyArc::downgrade(&x, &mut heap);
    let y = w.upgrade(&mut heap).unwrap();
    let z = x.make_strong(&mut heap, w);
    y.drop(&mut heap);
    x.drop(&mut heap);
    assert_eq!(*z.deref(&heap), 4);
}

#[test]
fn clone_of_a_sole_handle() {
    let num_drops = Rc::new(Cell::new(0));
    let mut heap = arc_with_weak_pointers::Heap::new();
    let x = arc_with_weak_pointers::MyArc::new(
        &mut heap,
        (1, DetectDrop { drops: Rc::clone(&num_drops) }),
    );
    assert_eq!(x.data_ref_count(&heap), 1);
    assert_eq!(x.alloc_count(&heap), 1);
    let y = x.clone(&mut heap);
    assert_eq!(x.data_ref_count(&heap), 2);
    assert_eq!(y.alloc_count(&heap), 2);
    assert!(std::ptr::eq(x.deref(&heap), y.deref(&heap)));
    x.drop(&mut heap);
    assert_eq!(num_drops.get(), 0);
    assert_eq!(y.deref(&heap).0, 1);
    y.drop(&mut heap);
    assert_eq!(num_drops.get(), 1);
}

#[test]
fn write_is_seen_through_every_later_handle() {
    let mut heap = basic_arc::Heap::new();
    let mut x = basic_arc::MyArc::new(&mut heap, 1);
    *basic_arc::MyArc::get_mut(&mut x, &mut heap).unwrap() = 2;
    let y = x.clone(&mut heap);
    x.drop(&mut heap);
    let z = y.clone(&mut heap);
    assert_eq!(*y.deref(&heap), 2);
    assert_eq!(*z.deref(&heap), 2);

    let mut heap = arc_with_weak_pointers::Heap::new();
    let mut x = arc_with_weak_pointers::MyArc::new(&mut heap, 1);
    *arc_with_weak_pointers::MyArc::get_mut(&mut x, &mut heap).unwrap() = 2;
    let w = arc_with_weak_pointers::MyArc::downgrade(&x, &mut heap);
    let v = w.clone(&mut heap);
    let y = v.upgrade(&mut heap).unwrap();
    x.drop(&mut heap);
    assert_eq!(*y.deref(&heap), 2);
}

#[test]
fn other_strong_handle_goes_in_the_midst_of_an_upgrade() {
    let num_drops = Rc::new(Cell::new(0));
    let mut heap = arc_with_weak_pointers::Heap::new();
    let x = arc_with_weak_pointers::MyArc::new(
        &mut heap,
        DetectDrop { drops: Rc::clone(&num_drops) },
    );
    let w = arc_with_weak_pointers::MyArc::downgrade(&x, &mut heap);
    match w.upgrade_turn(&mut heap, 1, false) {
        UpgradeTurn::Claimed(upgrade) => {
            x.drop(&mut heap);
            assert_eq!(num_drops.get(), 0);
            assert_eq!(w.data_ref_count(&heap), 1);
            assert_eq!(w.alloc_count(&heap), 1);
            let y = upgrade.finish(&mut heap, &w);
            w.drop(&mut heap);
            y.drop(&mut heap);
        }
        _ => panic!(),
    }
    assert_eq!(num_drops.get(), 1);
}

fn is_shared<S: Send + Sync>(_: &S) {}

#[test]
fn handles_are_shared_if_the_value_is() {
    let mut heap = basic_arc::Heap::new();
    let x = basic_arc::MyArc::new(&mut heap, 1);
    is_shared(&x);
    is_shared(&heap);
    let mut heap = arc_with_weak_pointers::Heap::new();
    let x = arc_with_weak_pointers::MyArc::new(&mut heap, 1);
    let w = arc_with_weak_pointers::MyArc::downgrade(&x, &mut heap);
    is_shared(&x);
    is_shared(&w);
    is_shared(&heap);
}
