use handshake_channel::message::Message;
use handshake_channel::slot::{OnEmpty, OnFull, Slot};

#[test]
fn produce_into_full_cell_hands_the_message_back() {
    let mut slot: Slot<i32, u32> = Slot::new();
    assert!(slot.try_produce(Message::Data(1)).is_ok());
    assert!(slot.is_full());
    match slot.try_produce(Message::Data(2)) {
        Err(rejected) => assert_eq!(rejected.into_inner(), Message::Data(2)),
        Ok(()) => panic!("a full cell took a second message"),
    }
    assert_eq!(slot.try_consume().ok(), Some(Message::Data(1)));
}

#[test]
fn consume_from_empty_cell_fails() {
    let mut slot: Slot<i32, u32> = Slot::new();
    assert!(slot.try_consume().is_err());
    assert!(slot.try_produce(Message::Done).is_ok());
    assert_eq!(slot.try_consume().ok(), Some(Message::Done));
    assert!(slot.try_consume().is_err());
    assert!(!slot.is_full());
}

#[test]
fn on_full_waits_for_the_next_message() {
    let mut slot: Slot<i32, u32> = Slot::new();
    let _token = slot.on_full(OnFull::Unpark(3));
    assert!(slot.take_woken().is_empty());
    assert!(slot.try_produce(Message::Data(1)).is_ok());
    assert_eq!(slot.take_woken(), vec![3]);
    assert!(slot.try_consume().is_ok());
    assert!(slot.try_produce(Message::Data(2)).is_ok());
    assert!(slot.take_woken().is_empty());
}

#[test]
fn on_full_runs_at_once_on_a_full_cell() {
    let mut slot: Slot<i32, u32> = Slot::new();
    assert!(slot.try_produce(Message::Data(1)).is_ok());
    let token = slot.on_full(OnFull::Unpark(3));
    assert_eq!(slot.take_woken(), vec![3]);
    slot.cancel(token);
    assert_eq!(slot.try_consume().ok(), Some(Message::Data(1)));
}

#[test]
fn on_empty_waits_for_the_cell_to_be_drained() {
    let mut slot: Slot<i32, u32> = Slot::new();
    assert!(slot.try_produce(Message::Data(1)).is_ok());
    let _token = slot.on_empty(OnEmpty::Unpark(4));
    assert!(slot.take_woken().is_empty());
    assert!(slot.try_consume().is_ok());
    assert_eq!(slot.take_woken(), vec![4]);
}

#[test]
fn on_empty_runs_at_once_on_an_empty_cell() {
    let mut slot: Slot<i32, u32> = Slot::new();
    let _token = slot.on_empty(OnEmpty::Unpark(4));
    assert_eq!(slot.take_woken(), vec![4]);
    let _token = slot.on_empty(OnEmpty::Finish);
    assert_eq!(slot.try_consume().ok(), Some(Message::Done));
}

#[test]
fn finish_writes_the_end_once_the_cell_is_drained() {
    let mut slot: Slot<i32, u32> = Slot::new();
    assert!(slot.try_produce(Message::Data(1)).is_ok());
    let _token = slot.on_empty(OnEmpty::Finish);
    assert_eq!(slot.try_consume().ok(), Some(Message::Data(1)));
    assert_eq!(slot.try_consume().ok(), Some(Message::Done));
    assert!(slot.try_consume().is_err());
}

#[test]
fn drain_discards_the_next_message_only() {
    let mut slot: Slot<i32, u32> = Slot::new();
    let _token = slot.on_full(OnFull::Drain);
    assert!(slot.try_produce(Message::Data(1)).is_ok());
    assert!(!slot.is_full());
    assert!(slot.try_produce(Message::Data(2)).is_ok());
    assert_eq!(slot.try_consume().ok(), Some(Message::Data(2)));
}

#[test]
fn drain_on_a_full_cell_lets_the_waiting_end_of_stream_in() {
    let mut slot: Slot<i32, u32> = Slot::new();
    assert!(slot.try_produce(Message::Data(1)).is_ok());
    let _finish = slot.on_empty(OnEmpty::Finish);
    let _drain = slot.on_full(OnFull::Drain);
    assert_eq!(slot.try_consume().ok(), Some(Message::Done));
    assert!(slot.take_woken().is_empty());
}

#[test]
fn cancelled_callback_never_runs() {
    let mut slot: Slot<i32, u32> = Slot::new();
    let token = slot.on_full(OnFull::Unpark(3));
    slot.cancel(token);
    assert!(slot.try_produce(Message::Data(1)).is_ok());
    assert!(slot.take_woken().is_empty());
    let token = slot.on_empty(OnEmpty::Unpark(4));
    slot.cancel(token);
    assert!(slot.try_consume().is_ok());
    assert!(slot.take_woken().is_empty());
}

#[test]
fn cancel_after_the_callback_ran_is_a_no_op() {
    let mut slot: Slot<i32, u32> = Slot::new();
    let spent = slot.on_full(OnFull::Unpark(1));
    assert!(slot.try_produce(Message::Data(1)).is_ok());
    assert!(slot.try_consume().is_ok());
    let _live = slot.on_full(OnFull::Unpark(2));
    slot.cancel(spent);
    assert!(slot.try_produce(Message::Data(2)).is_ok());
    assert_eq!(slot.take_woken(), vec![1, 2]);
    assert_eq!(slot.try_consume().ok(), Some(Message::Data(2)));
}

#[test]
fn cancel_leaves_the_other_side_alone() {
    let mut slot: Slot<i32, u32> = Slot::new();
    let full = slot.on_full(OnFull::Unpark(1));
    assert!(slot.try_produce(Message::Data(1)).is_ok());
    let _empty = slot.on_empty(OnEmpty::Unpark(2));
    slot.cancel(full);
    assert!(slot.try_consume().is_ok());
    assert_eq!(slot.take_woken(), vec![1, 2]);
}

#[test]
fn later_registration_takes_the_place_of_the_earlier() {
    let mut slot: Slot<i32, u32> = Slot::new();
    let _first = slot.on_full(OnFull::Unpark(1));
    let _second = slot.on_full(OnFull::Unpark(2));
    assert!(slot.try_produce(Message::Data(1)).is_ok());
    assert_eq!(slot.take_woken(), vec![2]);
}

#[test]
fn take_woken_keeps_the_order_and_empties_the_list() {
    let mut slot: Slot<i32, u32> = Slot::new();
    let _a = slot.on_full(OnFull::Unpark(5));
    assert!(slot.try_produce(Message::Data(1)).is_ok());
    let _b = slot.on_empty(OnEmpty::Unpark(6));
    assert!(slot.try_consume().is_ok());
    assert_eq!(slot.take_woken(), vec![5, 6]);
    assert!(slot.take_woken().is_empty());
    assert!(slot.room_left());
}
