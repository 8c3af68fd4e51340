use locks::rwlock::WRITE_LOCKED;
use locks::RwLock;

#[test]
fn test() {
    let lock = RwLock::new(3u32);
    {
        let r = lock.read_step(&mut lock.begin()).expect("free lock");
        assert_eq!(*r.value(), 3);
    }
    let w = lock.write_step(&mut lock.begin()).expect("free lock");
    assert_eq!(*w.value(), 3);
}

#[test]
fn rwlock_readers_share() {
    let lock = RwLock::new(1u8);
    let a = lock.read_step(&mut lock.begin()).expect("free lock");
    let b = lock.read_step(&mut lock.begin()).expect("readers share");
    assert_eq!(lock.begin().last_seen(), 4);
    drop(a);
    drop(b);
    assert_eq!(lock.begin().last_seen(), 0);
}

#[test]
fn rwlock_writer_excludes_all() {
    let lock = RwLock::new(0u8);
    let w = lock.write_step(&mut lock.begin()).expect("free lock");
    assert_eq!(lock.begin().last_seen(), WRITE_LOCKED);
    let mut other = lock.begin();
    // A second writer finds the word taken: its compare-and-swap is not tried.
    assert_eq!(other.last_seen(), u32::MAX);
    drop(w);
    assert_eq!(lock.begin().last_seen(), 0);
    assert!(lock.write_step(&mut other).is_none());
    assert!(lock.write_step(&mut lock.begin()).is_some());
}

#[test]
fn rwlock_waiting_writer_blocks_new_readers() {
    let lock = RwLock::new(0u8);
    let r1 = lock.read_step(&mut lock.begin()).expect("free lock");
    let r2 = lock.read_step(&mut lock.begin()).expect("readers share");
    let mut writer = lock.begin();
    assert!(lock.write_step(&mut writer).is_none());
    // The writer marked itself waiting: the word is odd.
    assert_eq!(writer.last_seen(), 5);
    assert_eq!(lock.begin().last_seen() % 2, 1);
    drop(r1);
    assert_eq!(lock.begin().last_seen(), 3);
    drop(r2);
    assert_eq!(lock.begin().last_seen(), 1);
    assert!(lock.write_step(&mut writer).is_none());
    assert_eq!(writer.last_seen(), 1);
    let w = lock.write_step(&mut writer).expect("readers drained");
    assert_eq!(lock.begin().last_seen(), WRITE_LOCKED);
    drop(w);
    assert!(lock.read_step(&mut lock.begin()).is_some());
}
