use rustww::mutex::Mutex;

#[test]
fn at_most_one_guard_at_a_time() {
    let mut m: Mutex<u32, u8> = Mutex::new(10);
    assert!(!m.is_locked());
    let g = m.try_lock().expect("the first attempt takes the lock");
    assert!(m.is_locked());
    assert!(m.try_lock().is_none());
    assert!(m.try_lock().is_none());
    assert_eq!(m.unlock(g), None);
    assert!(!m.is_locked());
    assert!(m.try_lock().is_some());
}

#[test]
fn guard_carries_the_protected_value() {
    let mut m: Mutex<u32, u8> = Mutex::new(40);
    let mut g = m.try_lock().unwrap();
    assert_eq!(*g.get(), 40);
    g.set(41);
    assert_eq!(*g.get(), 41);
    assert_eq!(m.unlock(g), None);
    let g = m.try_lock().unwrap();
    assert_eq!(g.into_inner(), 41);
}

#[test]
fn waiters_are_woken_first_in_first_out() {
    let mut m: Mutex<u32, u8> = Mutex::new(0);
    let g = m.try_lock().unwrap();
    assert!(m.lock_poll(1).is_none());
    assert!(m.lock_poll(2).is_none());
    assert!(m.lock_poll(3).is_none());
    assert_eq!(m.unlock(g), Some(1));
    let g = m.try_lock().unwrap();
    assert_eq!(m.unlock(g), Some(2));
    let g = m.try_lock().unwrap();
    assert_eq!(m.unlock(g), Some(3));
    let g = m.try_lock().unwrap();
    assert_eq!(m.unlock(g), None);
}

#[test]
fn lock_poll_acquires_a_free_lock_at_once() {
    let mut m: Mutex<&'static str, u8> = Mutex::new("shared");
    let g = m.lock_poll(1).expect("a free lock is granted on the first poll");
    assert_eq!(*g.get(), "shared");
    assert_eq!(m.unlock(g), None);
}
