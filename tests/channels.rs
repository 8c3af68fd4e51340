use locks::{oneshot, spin_channel};
use std::cell::RefCell;

#[test]
fn read_write() {
    let (reader, writer) = oneshot::channel(RefCell::new(None::<String>));
    *writer.slot_ref().borrow_mut() = Some("It's working".to_string());
    assert_eq!(writer.send(), oneshot::READY);
    let (state, slot) = reader.poll();
    assert_eq!(state, oneshot::READY);
    let message = slot.expect("sent").borrow_mut().take();
    assert_eq!(message, Some("It's working".to_owned()));
}

#[test]
fn oneshot_constants() {
    assert_eq!((oneshot::EMPTY, oneshot::READY), (0, 1));
}

#[test]
fn spin_channel_delivers_once() {
    let (sender, receiver) = spin_channel::channel(RefCell::new(None::<u64>));
    assert_eq!(receiver.try_receive().0, spin_channel::EMPTY);
    assert!(receiver.try_receive().1.is_none());
    *sender.slot_ref().borrow_mut() = Some(42);
    assert_eq!(sender.send(), spin_channel::READY);
    let (state, slot) = receiver.try_receive();
    assert_eq!(state, spin_channel::READY);
    let message = slot.expect("sent").borrow_mut().take();
    assert_eq!(message, Some(42));
    // The message is claimed: a second receive attempt fails.
    let (state, slot) = receiver.try_receive();
    assert_eq!(state, spin_channel::READING);
    assert!(slot.is_none());
    assert_eq!(receiver.finish(), spin_channel::READ);
}

#[test]
fn spin_channel_constants() {
    assert_eq!(
        (
            spin_channel::EMPTY,
            spin_channel::READY,
            spin_channel::READING,
            spin_channel::READ
        ),
        (0, 1, 2, 3)
    );
}
