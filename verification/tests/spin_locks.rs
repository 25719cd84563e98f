use std::cell::Cell;
use std::rc::Rc;
use sync_primitives::{DataSpinLock, Memory, MinimalSpinLock};

#[test]
fn test_guard() {
    // Two threads, the first one first.
    let mut memory = Memory::new();
    let data = DataSpinLock::new(&mut memory, Vec::new());
    let mut first = data.lock(&mut memory);
    first.deref_mut(&mut memory).push(1);
    first.drop(&mut memory);
    let mut second = data.lock(&mut memory);
    second.deref_mut(&mut memory).push(2);
    second.deref_mut(&mut memory).push(2);
    second.drop(&mut memory);
    let g = data.lock(&mut memory);
    let seen = g.deref(&memory).as_slice();
    assert!(seen == &[1, 2, 2] || seen == &[2, 2, 1]);

    // The same two threads, the second one first. The first one spins meanwhile.
    let mut memory = Memory::new();
    let data = DataSpinLock::new(&mut memory, Vec::new());
    let mut second = data.lock(&mut memory);
    second.deref_mut(&mut memory).push(2);
    assert!(data.lock_turn(&mut memory).is_none());
    second.deref_mut(&mut memory).push(2);
    assert!(data.lock_turn(&mut memory).is_none());
    second.drop(&mut memory);
    let mut first = data.lock_turn(&mut memory).unwrap();
    first.deref_mut(&mut memory).push(1);
    first.drop(&mut memory);
    let g = data.lock(&mut memory);
    let seen = g.deref(&memory).as_slice();
    assert!(seen == &[1, 2, 2] || seen == &[2, 2, 1]);
    assert_eq!(seen, &[2, 2, 1]);
}

#[test]
fn minimal_lock_is_taken_once() {
    let mut memory = Memory::new();
    let lock = MinimalSpinLock::new(&mut memory);
    lock.lock(&mut memory);
    assert!(!lock.lock_turn(&mut memory));
    assert!(!lock.lock_turn(&mut memory));
    lock.unlock(&mut memory);
    assert!(lock.lock_turn(&mut memory));
    assert!(!lock.lock_turn(&mut memory));
}

#[test]
fn unlocking_a_free_lock_leaves_it_free() {
    let mut memory = Memory::new();
    let lock = MinimalSpinLock::new(&mut memory);
    lock.unlock(&mut memory);
    assert!(lock.lock_turn(&mut memory));
}

#[test]
fn minimal_locks_do_not_disturb_each_other() {
    let mut memory = Memory::new();
    let one = MinimalSpinLock::new(&mut memory);
    let two = MinimalSpinLock::new(&mut memory);
    one.lock(&mut memory);
    assert!(two.lock_turn(&mut memory));
    one.unlock(&mut memory);
    assert!(!two.lock_turn(&mut memory));
    one.drop(&mut memory);
    two.unlock(&mut memory);
    two.lock(&mut memory);
    assert!(!two.lock_turn(&mut memory));
}

fn is_shared<S: Send + Sync>(_: &S) {}

fn is_sent<S: Send>(_: &S) {}

#[test]
fn lock_is_shared_if_its_value_can_be_sent() {
    // A `Cell` is `Send` and not `Sync`.
    let mut memory = Memory::new();
    let lock = DataSpinLock::new(&mut memory, Cell::new(1));
    is_sent(&memory);
    is_shared(&lock);
    let minimal = MinimalSpinLock::new(&mut Memory::new());
    is_shared(&minimal);
}

#[test]
fn refused_turn_changes_nothing() {
    let mut memory = Memory::new();
    let lock = DataSpinLock::new(&mut memory, 7u32);
    let guard = lock.lock(&mut memory);
    assert!(lock.lock_turn(&mut memory).is_none());
    assert_eq!(*guard.deref(&memory), 7);
    guard.drop(&mut memory);
    assert!(lock.lock_turn(&mut memory).is_some());
}

#[test]
fn next_holder_finds_what_the_last_one_left() {
    let mut memory = Memory::new();
    let lock = DataSpinLock::new(&mut memory, String::from("a"));
    let mut guard = lock.lock(&mut memory);
    *guard.deref_mut(&mut memory) = String::from("b");
    guard.drop(&mut memory);
    let guard = lock.lock(&mut memory);
    assert_eq!(guard.deref(&memory), "b");
}

#[test]
fn guard_is_of_its_own_lock() {
    let mut memory = Memory::new();
    let one = DataSpinLock::new(&mut memory, 1);
    let two = DataSpinLock::new(&mut memory, 2);
    let mut of_one = one.lock(&mut memory);
    let of_two = two.lock(&mut memory);
    *of_one.deref_mut(&mut memory) = 10;
    of_one.drop(&mut memory);
    assert_eq!(*of_two.deref(&memory), 2);
    assert!(two.lock_turn(&mut memory).is_none());
    assert_eq!(*one.lock(&mut memory).deref(&memory), 10);
}

struct DetectDrop {
    drops: Rc<Cell<usize>>,
}

impl Drop for DetectDrop {
    fn drop(&mut self) {
        self.drops.set(self.drops.get() + 1);
    }
}

#[test]
fn value_is_dropped_with_the_lock() {
    let drops = Rc::new(Cell::new(0));
    let mut memory = Memory::new();
    let lock = DataSpinLock::new(&mut memory, DetectDrop { drops: Rc::clone(&drops) });
    let guard = lock.lock(&mut memory);
    guard.drop(&mut memory);
    assert_eq!(drops.get(), 0);
    lock.drop(&mut memory);
    assert_eq!(drops.get(), 1);
}
