use handshake_channel::channel::{create, FutureSender, Inner, Receiver, Sender};
use handshake_channel::message::Async;

const PRODUCER: u32 = 7;
const CONSUMER: u32 = 9;

type State = Inner<i32, String, u32>;

fn resolve(op: &mut FutureSender<i32, String>, inner: &mut State) -> Sender {
    match op.poll(inner, PRODUCER) {
        Ok(Async::Ready(sender)) => sender,
        Ok(Async::NotReady) => panic!("the send is still pending"),
        Err(_) => panic!("the send failed"),
    }
}

fn is_pending(op: &mut FutureSender<i32, String>, inner: &mut State) -> bool {
    matches!(op.poll(inner, PRODUCER), Ok(Async::NotReady))
}

fn recv(rx: &mut Receiver, inner: &mut State) -> Result<Async<Option<i32>>, String> {
    rx.poll(inner, CONSUMER)
}

#[test]
fn send_one_then_two_then_drop_sender() {
    let (mut inner, tx, mut rx) = create::<i32, String, u32>();
    let mut first = tx.send(Ok(1));
    let tx = resolve(&mut first, &mut inner);
    let mut second = tx.send(Ok(2));
    assert!(is_pending(&mut second, &mut inner));
    assert!(is_pending(&mut second, &mut inner));
    assert_eq!(recv(&mut rx, &mut inner), Ok(Async::Ready(Some(1))));
    assert_eq!(inner.take_woken(), vec![PRODUCER]);
    let tx = resolve(&mut second, &mut inner);
    assert_eq!(recv(&mut rx, &mut inner), Ok(Async::Ready(Some(2))));
    tx.finish(&mut inner);
    assert_eq!(recv(&mut rx, &mut inner), Ok(Async::Ready(None)));
}

#[test]
fn values_arrive_in_order_without_loss_or_duplication() {
    let (mut inner, mut tx, mut rx) = create::<i32, String, u32>();
    let mut got = Vec::new();
    for v in 1..=40 {
        let mut op = tx.send(Ok(v));
        loop {
            match op.poll(&mut inner, PRODUCER) {
                Ok(Async::Ready(sender)) => {
                    tx = sender;
                    break;
                }
                Ok(Async::NotReady) => match recv(&mut rx, &mut inner) {
                    Ok(Async::Ready(Some(x))) => got.push(x),
                    other => panic!("unexpected poll result {:?}", other),
                },
                Err(_) => panic!("the send failed"),
            }
        }
    }
    tx.finish(&mut inner);
    loop {
        match recv(&mut rx, &mut inner) {
            Ok(Async::Ready(Some(x))) => got.push(x),
            Ok(Async::Ready(None)) => break,
            other => panic!("unexpected poll result {:?}", other),
        }
    }
    assert_eq!(got, (1..=40).collect::<Vec<i32>>());
}

#[test]
fn second_send_stays_pending_until_first_is_drained() {
    let (mut inner, tx, mut rx) = create::<i32, String, u32>();
    let mut first = tx.send(Ok(10));
    let tx = resolve(&mut first, &mut inner);
    let mut second = tx.send(Ok(20));
    for _ in 0..5 {
        assert!(is_pending(&mut second, &mut inner));
        assert!(second.is_pending());
        assert!(inner.is_full());
    }
    assert_eq!(recv(&mut rx, &mut inner), Ok(Async::Ready(Some(10))));
    assert!(!inner.is_full());
    let _tx = resolve(&mut second, &mut inner);
    assert!(!second.is_pending());
    assert_eq!(recv(&mut rx, &mut inner), Ok(Async::Ready(Some(20))));
}

#[test]
fn send_fails_with_its_payload_once_receiver_is_closed() {
    let (mut inner, tx, rx) = create::<i32, String, u32>();
    rx.close(&mut inner);
    assert!(inner.receiver_gone());
    let mut op = tx.send(Ok(5));
    match op.poll(&mut inner, PRODUCER) {
        Err(e) => {
            assert_eq!(e.description(), "send failed because receiver is gone");
            assert_eq!(e.into_inner(), Ok(5));
        }
        _ => panic!("the send should have failed"),
    }
    assert!(!op.is_pending());
}

#[test]
fn failed_send_returns_an_error_payload_unchanged() {
    let (mut inner, tx, rx) = create::<i32, String, u32>();
    let mut op = tx.send(Err(String::from("broken")));
    rx.close(&mut inner);
    match op.poll(&mut inner, PRODUCER) {
        Err(e) => assert_eq!(e.into_inner(), Err(String::from("broken"))),
        _ => panic!("the send should have failed"),
    }
}

#[test]
fn pending_send_fails_after_receiver_closes() {
    let (mut inner, tx, rx) = create::<i32, String, u32>();
    let mut first = tx.send(Ok(1));
    let tx = resolve(&mut first, &mut inner);
    let mut second = tx.send(Ok(2));
    assert!(is_pending(&mut second, &mut inner));
    rx.close(&mut inner);
    assert!(!inner.is_full());
    assert_eq!(inner.take_woken(), vec![PRODUCER]);
    match second.poll(&mut inner, PRODUCER) {
        Err(e) => assert_eq!(e.into_inner(), Ok(2)),
        _ => panic!("the send should have failed"),
    }
    assert!(inner.take_woken().is_empty());
}

#[test]
fn close_discards_the_message_in_the_cell() {
    let (mut inner, tx, rx) = create::<i32, String, u32>();
    let mut op = tx.send(Ok(1));
    let _tx = resolve(&mut op, &mut inner);
    assert!(inner.is_full());
    assert!(!inner.receiver_gone());
    rx.close(&mut inner);
    assert!(!inner.is_full());
    assert!(inner.receiver_gone());
}

#[test]
fn finished_sender_yields_exhaustion_on_next_poll() {
    let (mut inner, tx, mut rx) = create::<i32, String, u32>();
    tx.finish(&mut inner);
    assert!(inner.is_full());
    assert_eq!(recv(&mut rx, &mut inner), Ok(Async::Ready(None)));
}

#[test]
fn finished_sender_yields_last_value_then_exhaustion() {
    let (mut inner, tx, mut rx) = create::<i32, String, u32>();
    let mut op = tx.send(Ok(3));
    let tx = resolve(&mut op, &mut inner);
    tx.finish(&mut inner);
    assert_eq!(recv(&mut rx, &mut inner), Ok(Async::Ready(Some(3))));
    assert_eq!(recv(&mut rx, &mut inner), Ok(Async::Ready(None)));
}

#[test]
fn parked_receiver_is_woken_when_sender_finishes() {
    let (mut inner, tx, mut rx) = create::<i32, String, u32>();
    assert_eq!(recv(&mut rx, &mut inner), Ok(Async::NotReady));
    assert!(inner.take_woken().is_empty());
    tx.finish(&mut inner);
    assert_eq!(inner.take_woken(), vec![CONSUMER]);
    assert_eq!(recv(&mut rx, &mut inner), Ok(Async::Ready(None)));
}

#[test]
fn parked_receiver_is_woken_when_a_message_arrives() {
    let (mut inner, tx, mut rx) = create::<i32, String, u32>();
    assert_eq!(recv(&mut rx, &mut inner), Ok(Async::NotReady));
    let mut op = tx.send(Ok(8));
    let _tx = resolve(&mut op, &mut inner);
    assert_eq!(inner.take_woken(), vec![CONSUMER]);
    assert!(inner.take_woken().is_empty());
    assert_eq!(recv(&mut rx, &mut inner), Ok(Async::Ready(Some(8))));
}

#[test]
fn only_the_latest_poll_is_woken() {
    let (mut inner, tx, mut rx) = create::<i32, String, u32>();
    assert_eq!(rx.poll(&mut inner, 1), Ok(Async::NotReady));
    assert_eq!(rx.poll(&mut inner, 2), Ok(Async::NotReady));
    let mut op = tx.send(Ok(8));
    let _tx = resolve(&mut op, &mut inner);
    assert_eq!(inner.take_woken(), vec![2]);
}

#[test]
fn abandoned_send_leaves_no_wakeup() {
    let (mut inner, tx, mut rx) = create::<i32, String, u32>();
    let mut first = tx.send(Ok(1));
    let tx = resolve(&mut first, &mut inner);
    let mut second = tx.send(Ok(2));
    assert!(is_pending(&mut second, &mut inner));
    assert_eq!(second.abandon(&mut inner), Some(Ok(2)));
    assert_eq!(recv(&mut rx, &mut inner), Ok(Async::Ready(Some(1))));
    assert!(inner.take_woken().is_empty());
    assert_eq!(recv(&mut rx, &mut inner), Ok(Async::Ready(None)));
    assert!(inner.take_woken().is_empty());
}

#[test]
fn closed_receiver_leaves_no_wakeup() {
    let (mut inner, tx, mut rx) = create::<i32, String, u32>();
    assert_eq!(recv(&mut rx, &mut inner), Ok(Async::NotReady));
    rx.close(&mut inner);
    let mut op = tx.send(Ok(1));
    assert!(op.poll(&mut inner, PRODUCER).is_err());
    assert!(inner.take_woken().is_empty());
    assert!(!inner.is_full());
}

#[test]
fn abandon_after_resolution_changes_nothing() {
    let (mut inner, tx, mut rx) = create::<i32, String, u32>();
    let mut op = tx.send(Ok(4));
    let tx = resolve(&mut op, &mut inner);
    assert_eq!(op.abandon(&mut inner), None);
    assert_eq!(recv(&mut rx, &mut inner), Ok(Async::Ready(Some(4))));
    assert_eq!(recv(&mut rx, &mut inner), Ok(Async::NotReady));
    let mut op = tx.send(Ok(5));
    let _tx = resolve(&mut op, &mut inner);
    assert_eq!(recv(&mut rx, &mut inner), Ok(Async::Ready(Some(5))));
}

#[test]
fn abandon_before_first_poll_ends_the_stream() {
    let (mut inner, tx, mut rx) = create::<i32, String, u32>();
    let op = tx.send(Err(String::from("unsent")));
    assert_eq!(op.abandon(&mut inner), Some(Err(String::from("unsent"))));
    assert_eq!(recv(&mut rx, &mut inner), Ok(Async::Ready(None)));
}

#[test]
fn error_values_pass_through_to_the_receiver() {
    let (mut inner, tx, mut rx) = create::<i32, String, u32>();
    let mut op = tx.send(Err(String::from("boom")));
    let tx = resolve(&mut op, &mut inner);
    assert_eq!(recv(&mut rx, &mut inner), Err(String::from("boom")));
    let mut op = tx.send(Ok(1));
    let _tx = resolve(&mut op, &mut inner);
    assert_eq!(recv(&mut rx, &mut inner), Ok(Async::Ready(Some(1))));
}

#[test]
fn new_channel_is_empty_and_open() {
    let (inner, _tx, _rx) = create::<i32, String, u32>();
    assert!(!inner.is_full());
    assert!(!inner.receiver_gone());
    assert!(inner.room_left());
}

#[test]
fn both_ends_gone_leaves_the_end_of_stream_unread() {
    let (mut inner, tx, rx) = create::<i32, String, u32>();
    let mut op = tx.send(Ok(1));
    let tx = resolve(&mut op, &mut inner);
    tx.finish(&mut inner);
    rx.close(&mut inner);
    assert!(inner.is_full());
    assert!(inner.take_woken().is_empty());
}

#[test]
fn ready_and_not_ready_are_told_apart() {
    assert!(Async::Ready(1).is_ready());
    assert!(!Async::<i32>::NotReady.is_ready());
}
