use locks::arc::is_sole_handle;
use locks::mutex::{contended_took_lock, contended_word, locked_word, unlock_must_wake};
use locks::oneshot::{is_published, sent_state};
use locks::rwlock::{
    mark_target, read_release_wakes, read_target, reader_may_enter, write_target,
    writer_must_park, writer_should_mark, WRITE_LOCKED,
};
use locks::spin_channel::claimed_state;
use locks::spin_lock::locked_flag;

#[test]
fn mutex_transition_words() {
    assert_eq!(locked_word(), 1);
    assert_eq!(contended_word(), 2);
    assert!(contended_took_lock(0));
    assert!(!contended_took_lock(1));
    assert!(!contended_took_lock(2));
    assert!(unlock_must_wake(2));
    assert!(!unlock_must_wake(1));
}

#[test]
fn rwlock_reader_transitions() {
    assert!(reader_may_enter(0));
    assert!(reader_may_enter(6));
    assert!(!reader_may_enter(5));
    assert!(!reader_may_enter(WRITE_LOCKED));
    assert!(!reader_may_enter(WRITE_LOCKED - 1));
    assert!(reader_may_enter(WRITE_LOCKED - 3));
    assert_eq!(read_target(0), 2);
    assert_eq!(read_target(8), 10);
    assert!(read_release_wakes(3));
    assert!(!read_release_wakes(2));
    assert!(!read_release_wakes(5));
}

#[test]
fn rwlock_writer_transitions() {
    assert_eq!(write_target(), u32::MAX);
    assert!(writer_should_mark(2));
    assert!(!writer_should_mark(0));
    assert!(!writer_should_mark(3));
    assert!(!writer_should_mark(WRITE_LOCKED - 1));
    assert_eq!(mark_target(4), 5);
    assert!(writer_must_park(2));
    assert!(writer_must_park(WRITE_LOCKED));
    assert!(!writer_must_park(1));
    assert!(!writer_must_park(0));
}

#[test]
fn flag_and_channel_transitions() {
    assert!(locked_flag());
    assert_eq!(sent_state(), 1);
    assert!(is_published(1));
    assert!(!is_published(0));
    assert_eq!(claimed_state(), 2);
    assert!(is_sole_handle(1));
    assert!(!is_sole_handle(2));
    assert!(!is_sole_handle(0));
}
