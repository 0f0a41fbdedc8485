use resource_host::lock::HalfLock;

#[test]
fn the_first_to_ask_holds_the_lock() {
    let mut lock: HalfLock<&str> = HalfLock::new();
    assert!(lock.is_idle());
    assert_eq!(lock.head(), None);
    assert!(lock.acquire(1, "first"));
    assert!(!lock.is_idle());
    assert_eq!(lock.head(), Some(&(1, "first")));
}

#[test]
fn later_operations_wait_behind_the_holder() {
    let mut lock: HalfLock<u8> = HalfLock::new();
    assert!(lock.acquire(1, 10));
    assert!(!lock.acquire(2, 20));
    assert!(!lock.acquire(3, 30));
    assert_eq!(lock.head(), Some(&(1, 10)));
}

#[test]
fn release_passes_the_lock_on_in_order_of_issue() {
    let mut lock: HalfLock<u8> = HalfLock::new();
    lock.acquire(5, 50);
    lock.acquire(4, 40);
    lock.acquire(6, 60);
    assert_eq!(lock.release(5), Some(50));
    assert_eq!(lock.head(), Some(&(4, 40)));
    assert_eq!(lock.release(4), Some(40));
    assert_eq!(lock.head(), Some(&(6, 60)));
    assert_eq!(lock.release(6), Some(60));
    assert!(lock.is_idle());
    // Free again: the next to ask is granted at once.
    assert!(lock.acquire(7, 70));
}

#[test]
fn only_the_holder_can_release() {
    let mut lock: HalfLock<u8> = HalfLock::new();
    assert_eq!(lock.release(1), None);
    lock.acquire(1, 10);
    lock.acquire(2, 20);
    assert_eq!(lock.release(2), None);
    assert_eq!(lock.release(9), None);
    assert_eq!(lock.head(), Some(&(1, 10)));
    assert_eq!(lock.release(1), Some(10));
    assert_eq!(lock.release(1), None);
    assert_eq!(lock.head(), Some(&(2, 20)));
}

#[test]
fn drain_empties_the_line_holder_first() {
    let mut lock: HalfLock<u8> = HalfLock::new();
    assert_eq!(lock.drain(), Vec::<u64>::new());
    lock.acquire(3, 0);
    lock.acquire(1, 0);
    lock.acquire(2, 0);
    assert_eq!(lock.drain(), vec![3, 1, 2]);
    assert!(lock.is_idle());
    assert_eq!(lock.release(3), None);
}
