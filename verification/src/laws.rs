//! What holds of a channel as a whole.
//!
//! A `World` is a channel together with its two ends and a record of what has
//! passed through it. A `Step` is one call of an operation of the channel by
//! whoever holds the matching handle; `step` changes the shared state exactly
//! as the contract of that operation says. The laws below hold in every world
//! that a sequence of steps leads to from a new channel.
use vstd::prelude::*;
use crate::channel::{cancel_held, InnerView, Pending, SendVerdict};
use crate::message::{Async, Message};
use crate::slot::{OnEmpty, OnFull, SlotView};

verus! {

/// Where the sending handle is.
pub enum TxSide<T, E> {
    /// With its owner, free to start a send.
    Idle,
    /// Inside an unresolved send operation.
    InFlight(Pending<T, E>),
    /// Let go.
    Gone,
}

/// Where the receiving handle is.
pub enum RxSide {
    /// With its owner, holding the registration of its last poll if any.
    Live(Option<nat>),
    /// Closed.
    Gone,
}

/// One operation on the channel. What a step does to the shared state, to
/// the handle and to the record is read off the contract of the operation.
pub enum Step<T, E, K> {
    /// `Sender::send` with this message.
    Send(Result<T, E>),
    /// `FutureSender::poll` on behalf of the named task.
    PollSend(K),
    /// `FutureSender::abandon` on an unresolved operation.
    AbandonSend,
    /// `Sender::finish`.
    FinishSender,
    /// `Receiver::poll` on behalf of the named task.
    PollRecv(K),
    /// `Receiver::close`.
    CloseReceiver,
    /// `Inner::take_woken`.
    TakeWoken,
}

/// A channel, its ends, and what has happened so far.
pub struct World<T, E, K> {
    /// The shared state.
    pub inner: InnerView<T, E, K>,
    /// The sending end.
    pub tx: TxSide<T, E>,
    /// The receiving end.
    pub rx: RxSide,
    /// The messages of the sends that resolved, in order.
    pub accepted: Seq<Result<T, E>>,
    /// The messages that polls of the receiver produced, in order.
    pub delivered: Seq<Result<T, E>>,
    /// The messages that failed sends gave back, in order.
    pub refused: Seq<Result<T, E>>,
    /// Whether a poll of the receiver has reported the end of the stream.
    pub exhausted: bool,
}

/// The message that waits in the cell, as a sequence of length 0 or 1.
pub open spec fn in_flight<T, E, K>(inner: InnerView<T, E, K>) -> Seq<Result<T, E>> {
    match inner.slot.cell {
        Some(Message::Data(m)) => seq![m],
        _ => Seq::empty(),
    }
}

impl<T, E, K> World<T, E, K> {
    /// A channel that was just created.
    pub open spec fn fresh() -> Self {
        World {
            inner: InnerView::fresh(),
            tx: TxSide::Idle,
            rx: RxSide::Live(None),
            accepted: Seq::empty(),
            delivered: Seq::empty(),
            refused: Seq::empty(),
            exhausted: false,
        }
    }

    /// The world after one step. A step whose handle is not where the step
    /// needs it changes nothing.
    pub open spec fn step(self, s: Step<T, E, K>) -> Self {
        match s {
            Step::Send(payload) => match self.tx {
                TxSide::Idle => World {
                    tx: TxSide::InFlight(Pending { payload, token: None }),
                    ..self
                },
                _ => self,
            },
            Step::PollSend(task) => match self.tx {
                TxSide::InFlight(op) => {
                    let inner = self.inner.poll_send(op.payload, op.token, task);
                    match self.inner.send_verdict(op.payload) {
                        SendVerdict::Failed(payload) => World {
                            inner,
                            tx: TxSide::Gone,
                            refused: self.refused.push(payload),
                            ..self
                        },
                        SendVerdict::Resolved => World {
                            inner,
                            tx: TxSide::Idle,
                            accepted: self.accepted.push(op.payload),
                            ..self
                        },
                        SendVerdict::Waiting => World {
                            inner,
                            tx: TxSide::InFlight(
                                self.inner.pending_after_poll(op.payload)->0,
                            ),
                            ..self
                        },
                    }
                },
                _ => self,
            },
            Step::AbandonSend => match self.tx {
                TxSide::InFlight(op) => World {
                    inner: self.inner.abandon_send(Some(op.token)),
                    tx: TxSide::Gone,
                    ..self
                },
                _ => self,
            },
            Step::FinishSender => match self.tx {
                TxSide::Idle => World { inner: self.inner.finish(), tx: TxSide::Gone, ..self },
                _ => self,
            },
            Step::PollRecv(task) => match self.rx {
                RxSide::Live(token) => {
                    let inner = self.inner.poll_recv(token, task);
                    let rx = RxSide::Live(self.inner.held_after_recv());
                    match self.inner.recv_result() {
                        Ok(Async::Ready(Some(v))) => World {
                            inner,
                            rx,
                            delivered: self.delivered.push(Ok(v)),
                            ..self
                        },
                        Err(e) => World {
                            inner,
                            rx,
                            delivered: self.delivered.push(Err(e)),
                            ..self
                        },
                        Ok(Async::Ready(None)) => World { inner, rx, exhausted: true, ..self },
                        Ok(Async::NotReady) => World { inner, rx, ..self },
                    }
                },
                RxSide::Gone => self,
            },
            Step::CloseReceiver => match self.rx {
                RxSide::Live(token) => World {
                    inner: self.inner.close(token),
                    rx: RxSide::Gone,
                    ..self
                },
                RxSide::Gone => self,
            },
            Step::TakeWoken => World { inner: self.inner.without_woken(), ..self },
        }
    }

    /// The world after a sequence of steps.
    pub open spec fn run(self, steps: Seq<Step<T, E, K>>) -> Self
        decreases steps.len(),
    {
        if steps.len() == 0 {
            self
        } else {
            self.run(steps.drop_last()).step(steps.last())
        }
    }

    /// The receiving end and the cell agree: a task that waits for a message
    /// was registered by the last poll of the live handle, and after the
    /// close only the draining callback can wait.
    pub open spec fn rx_linked(self) -> bool {
        match self.rx {
            RxSide::Live(held) => {
                &&& !self.inner.receiver_gone
                &&& self.inner.slot.on_full matches Some((t, hook)) ==> hook is Unpark && held
                    == Some(t)
                &&& held matches Some(t) ==> t <= self.inner.slot.issued
                &&& held matches Some(t) ==> !(self.inner.slot.on_empty matches Some((u, _)) && u
                    == t)
            },
            RxSide::Gone => {
                &&& self.inner.receiver_gone
                &&& self.inner.slot.on_full matches Some((_, hook)) ==> hook is Drain
            },
        }
    }

    /// The sending end and the cell agree: a task that waits for room was
    /// registered by the last poll of the unresolved operation, and once the
    /// handle is let go only the end of the stream can wait to be written.
    pub open spec fn tx_linked(self) -> bool {
        match self.tx {
            TxSide::Idle => {
                &&& self.inner.slot.on_empty is None
                &&& self.inner.slot.cell != Some(Message::<Result<T, E>>::Done)
            },
            TxSide::InFlight(op) => {
                &&& self.inner.slot.on_empty matches Some((t, hook)) ==> hook is Unpark && op.token
                    == Some(t)
                &&& op.token matches Some(t) ==> t <= self.inner.slot.issued
                &&& op.token matches Some(t) ==> !(self.inner.slot.on_full matches Some((u, _))
                    && u == t)
                &&& self.inner.slot.cell != Some(Message::<Result<T, E>>::Done)
            },
            TxSide::Gone => {
                &&& self.inner.slot.on_empty matches Some((_, hook)) ==> hook is Finish
                &&& self.inner.slot.cell == Some(Message::<Result<T, E>>::Done)
                    ==> self.inner.slot.on_empty is None
            },
        }
    }

    /// The record agrees with the cell.
    pub open spec fn accounted(self) -> bool {
        &&& self.delivered.is_prefix_of(self.accepted)
        &&& self.rx is Live ==> self.accepted == self.delivered + in_flight(self.inner)
        &&& self.exhausted ==> {
            &&& self.tx is Gone
            &&& self.accepted == self.delivered
            &&& self.inner.slot.cell is None
            &&& self.inner.slot.on_empty is None
        }
        &&& self.tx is Gone && self.rx is Live && !self.exhausted ==> {
            ||| self.inner.slot.cell == Some(Message::<Result<T, E>>::Done)
            ||| self.inner.slot.cell is Some && self.inner.slot.on_empty matches Some(
                (_, OnEmpty::Finish),
            )
        }
    }

    /// What holds in every world that steps lead to from a new channel.
    pub open spec fn inv(self) -> bool {
        &&& self.inner.wf()
        &&& self.rx_linked()
        &&& self.tx_linked()
        &&& self.accounted()
    }
}

/// A new channel satisfies the invariant.
pub proof fn lemma_fresh_inv<T, E, K>()
    ensures
        World::<T, E, K>::fresh().inv(),
{
    let w = World::<T, E, K>::fresh();
    assert(w.accepted =~= w.delivered + in_flight(w.inner));
}

/// Every step keeps the invariant.
pub proof fn lemma_step_inv<T, E, K>(w: World<T, E, K>, s: Step<T, E, K>)
    requires
        w.inv(),
    ensures
        w.step(s).inv(),
{
    let v = w.step(s);
    match s {
        Step::Send(_) => {},
        Step::PollSend(_) => {
            lemma_poll_send_inv(w, s);
        },
        Step::AbandonSend => {
            lemma_tx_gone_inv(w, s);
        },
        Step::FinishSender => {
            lemma_tx_gone_inv(w, s);
        },
        Step::PollRecv(_) => {
            lemma_poll_recv_inv(w, s);
        },
        Step::CloseReceiver => {},
        Step::TakeWoken => {
            assert(in_flight(v.inner) == in_flight(w.inner));
        },
    }
}

proof fn lemma_poll_send_inv<T, E, K>(w: World<T, E, K>, s: Step<T, E, K>)
    requires
        w.inv(),
        s is PollSend,
    ensures
        w.step(s).inv(),
{
    let v = w.step(s);
    if let TxSide::InFlight(op) = w.tx {
        if w.inner.receiver_gone {
        } else if w.inner.slot.cell is None {
            assert(in_flight(w.inner) =~= Seq::empty());
            assert(w.accepted =~= w.delivered);
            assert(in_flight(v.inner) =~= seq![op.payload]);
            assert(v.accepted =~= v.delivered + in_flight(v.inner));
        } else {
            assert(in_flight(v.inner) == in_flight(w.inner));
        }
    }
}

proof fn lemma_tx_gone_inv<T, E, K>(w: World<T, E, K>, s: Step<T, E, K>)
    requires
        w.inv(),
        s is AbandonSend || s is FinishSender,
    ensures
        w.step(s).inv(),
{
    let v = w.step(s);
    assert(in_flight(v.inner) == in_flight(w.inner));
}

proof fn lemma_poll_recv_inv<T, E, K>(w: World<T, E, K>, s: Step<T, E, K>)
    requires
        w.inv(),
        s is PollRecv,
    ensures
        w.step(s).inv(),
{
    let v = w.step(s);
    if let RxSide::Live(token) = w.rx {
        match w.inner.slot.cell {
            Some(Message::Data(m)) => {
                assert(in_flight(w.inner) =~= seq![m]);
                assert(in_flight(v.inner) =~= Seq::empty());
                assert(v.delivered =~= w.delivered + seq![m]);
                assert(v.accepted =~= v.delivered + in_flight(v.inner));
            },
            Some(Message::Done) => {
                assert(in_flight(w.inner) =~= Seq::empty());
                assert(in_flight(v.inner) =~= Seq::empty());
                assert(w.accepted =~= w.delivered);
            },
            None => {
                assert(in_flight(v.inner) == in_flight(w.inner));
            },
        }
    }
}

/// Every world that steps lead to from a new channel satisfies the invariant.
pub proof fn lemma_run_inv<T, E, K>(steps: Seq<Step<T, E, K>>)
    ensures
        World::<T, E, K>::fresh().run(steps).inv(),
    decreases steps.len(),
{
    if steps.len() == 0 {
        lemma_fresh_inv::<T, E, K>();
    } else {
        lemma_run_inv::<T, E, K>(steps.drop_last());
        lemma_step_inv(World::<T, E, K>::fresh().run(steps.drop_last()), steps.last());
    }
}

/// No loss, no duplication, no reordering: whatever steps are taken on a new
/// channel, the messages the receiver has produced are the first of the
/// messages whose sends resolved, in the same order. While the receiver is
/// open, the only accepted message not yet produced is the one that waits in
/// the cell. And once the receiver has been told that the stream is over,
/// every accepted message has been produced and the sending handle is gone.
pub proof fn law_no_loss_no_duplication<T, E, K>(steps: Seq<Step<T, E, K>>)
    ensures
        ({
            let w = World::<T, E, K>::fresh().run(steps);
            &&& w.delivered.is_prefix_of(w.accepted)
            &&& w.rx is Live ==> w.accepted == w.delivered + in_flight(w.inner)
            &&& w.exhausted ==> w.delivered == w.accepted && w.tx is Gone
        }),
{
    lemma_run_inv(steps);
}

/// Backpressure: whatever steps are taken on a new channel with the receiver
/// left open, the sender is never more than one message ahead; and while the
/// message of the last resolved send has not been drained, polling the next
/// send operation does not resolve it.
pub proof fn law_backpressure<T, E, K>(steps: Seq<Step<T, E, K>>, task: K)
    ensures
        ({
            let w = World::<T, E, K>::fresh().run(steps);
            w.rx is Live ==> {
                &&& w.accepted.len() <= w.delivered.len() + 1
                &&& w.accepted.len() == w.delivered.len() + 1 ==> {
                    &&& w.step(Step::PollSend(task)).accepted == w.accepted
                    &&& w.tx is InFlight ==> w.step(Step::PollSend(task)).tx is InFlight
                }
            }
        }),
{
    lemma_run_inv(steps);
    let w = World::<T, E, K>::fresh().run(steps);
    if w.rx is Live {
        assert(w.accepted.len() == w.delivered.len() + in_flight(w.inner).len());
    }
}

/// Once the receiver is closed it stays closed: no step clears the flag that
/// makes sends fail.
pub proof fn law_receiver_stays_gone<T, E, K>(w: World<T, E, K>, s: Step<T, E, K>)
    requires
        w.inner.receiver_gone,
    ensures
        w.step(s).inner.receiver_gone,
{
}

/// A send that is still unresolved when the receiver is closed fails at its
/// next poll and gives back the very message it was started with; nothing is
/// accepted, and the sending handle is let go.
pub proof fn law_send_fails_after_close<T, E, K>(w: World<T, E, K>, task: K)
    requires
        w.inv(),
        w.rx is Gone,
        w.tx is InFlight,
    ensures
        w.step(Step::PollSend(task)).refused == w.refused.push(w.tx->InFlight_0.payload),
        w.step(Step::PollSend(task)).accepted == w.accepted,
        w.step(Step::PollSend(task)).tx is Gone,
{
}

/// An unresolved send keeps its message from poll to poll.
pub proof fn law_pending_send_keeps_message<T, E, K>(w: World<T, E, K>, task: K)
    requires
        w.tx is InFlight,
        w.step(Step::PollSend(task)).tx is InFlight,
    ensures
        w.step(Step::PollSend(task)).tx->InFlight_0.payload == w.tx->InFlight_0.payload,
{
}

/// Once the sending handle is gone, an open receiver is told so: its second
/// poll from then on, at the latest, has reported the end of the stream.
pub proof fn law_finished_stream_is_exhausted<T, E, K>(w: World<T, E, K>, first: K, second: K)
    requires
        w.inv(),
        w.tx is Gone,
        w.rx is Live,
    ensures
        w.step(Step::PollRecv(first)).step(Step::PollRecv(second)).exhausted,
{
    lemma_step_inv(w, Step::PollRecv(first));
}

/// No wakeup is missed by the receiver: a task that waits for a message
/// either goes on waiting after a step of the sending side, or that step has
/// signalled it.
pub proof fn law_waiting_receiver_is_signalled<T, E, K>(w: World<T, E, K>, s: Step<T, E, K>)
    requires
        w.inv(),
        s is Send || s is PollSend || s is AbandonSend || s is FinishSender,
    ensures
        w.inner.slot.on_full matches Some((_, OnFull::Unpark(task))) ==> {
            ||| w.step(s).inner.slot.on_full == w.inner.slot.on_full
            ||| w.step(s).inner.slot.woken == w.inner.slot.woken.push(task)
        },
{
}

/// No wakeup is missed by the sender: a task that waits for room either goes
/// on waiting after a step of the receiving side, or that step has signalled
/// it.
pub proof fn law_waiting_sender_is_signalled<T, E, K>(w: World<T, E, K>, s: Step<T, E, K>)
    requires
        w.inv(),
        s is PollRecv || s is CloseReceiver,
    ensures
        w.inner.slot.on_empty matches Some((_, OnEmpty::Unpark(task))) ==> {
            ||| w.step(s).inner.slot.on_empty == w.inner.slot.on_empty
            ||| w.step(s).inner.slot.woken == w.inner.slot.woken.push(task)
        },
{
}

/// A poll registers its task in a free place: in a world that steps lead to,
/// the cancellation at the start of a poll leaves no callback waiting on the
/// poller's side, so no registration ever displaces another.
pub proof fn law_polls_register_in_a_free_place<T, E, K>(w: World<T, E, K>)
    requires
        w.inv(),
    ensures
        w.rx matches RxSide::Live(held) ==> cancel_held(w.inner.slot, held).on_full is None,
        w.tx matches TxSide::InFlight(op) ==> cancel_held(w.inner.slot, op.token).on_empty
            is None,
        w.tx is Idle ==> w.inner.slot.on_empty is None,
{
}

/// Giving up an unresolved send leaves no task registered for the sender:
/// nothing that waits for room afterwards signals a task, and no later step
/// signals anyone.
pub proof fn law_abandoned_send_leaves_no_wakeup<T, E, K>(w: World<T, E, K>, s: Step<T, E, K>)
    requires
        w.inv(),
        w.tx is InFlight,
    ensures
        ({
            let v = w.step(Step::AbandonSend);
            &&& !(v.inner.slot.on_empty matches Some((_, OnEmpty::Unpark(_))))
            &&& v.step(s).inner.slot.woken == if s is TakeWoken {
                Seq::empty()
            } else {
                v.inner.slot.woken
            }
        }),
{
    lemma_step_inv(w, Step::AbandonSend);
    law_gone_sender_is_never_signalled(w.step(Step::AbandonSend), s);
}

/// Closing the receiver leaves no task registered for it: nothing that waits
/// for a message afterwards signals a task, and no later step signals anyone.
pub proof fn law_closed_receiver_leaves_no_wakeup<T, E, K>(w: World<T, E, K>, s: Step<T, E, K>)
    requires
        w.inv(),
        w.rx is Live,
    ensures
        ({
            let v = w.step(Step::CloseReceiver);
            &&& !(v.inner.slot.on_full matches Some((_, OnFull::Unpark(_))))
            &&& v.step(s).inner.slot.woken == if s is TakeWoken {
                Seq::empty()
            } else {
                v.inner.slot.woken
            }
        }),
{
    lemma_step_inv(w, Step::CloseReceiver);
    law_gone_receiver_is_never_signalled(w.step(Step::CloseReceiver), s);
}

/// While the sending handle is gone no step signals a task.
pub proof fn law_gone_sender_is_never_signalled<T, E, K>(w: World<T, E, K>, s: Step<T, E, K>)
    requires
        w.inv(),
        w.tx is Gone,
    ensures
        w.step(s).inner.slot.woken == if s is TakeWoken {
            Seq::empty()
        } else {
            w.inner.slot.woken
        },
{
}

/// While the receiver is closed no step signals a task.
pub proof fn law_gone_receiver_is_never_signalled<T, E, K>(w: World<T, E, K>, s: Step<T, E, K>)
    requires
        w.inv(),
        w.rx is Gone,
    ensures
        w.step(s).inner.slot.woken == if s is TakeWoken {
            Seq::empty()
        } else {
            w.inner.slot.woken
        },
{
}

/// Cancelling is idempotent: a registration that does not wait, because its
/// callback has run or it was cancelled before, is cancelled without effect;
/// and after a cancellation the registration does not wait.
pub proof fn law_cancel_is_idempotent<T, K>(slot: SlotView<T, K>, token: nat)
    ensures
        !slot.is_waiting(token) ==> slot.cancel(token) == slot,
        !slot.cancel(token).is_waiting(token),
        slot.cancel(token).cancel(token) == slot.cancel(token),
{
}

/// A callback that has run cannot be cancelled: when the cell changes state
/// the callback that waited for the change waits no longer, so cancelling
/// its registration afterwards changes nothing.
pub proof fn law_fired_callback_is_past_cancelling<T, K>(slot: SlotView<T, K>, m: Message<T>)
    requires
        slot.wf(),
    ensures
        slot.cell is None ==> (slot.on_full matches Some((token, _)) ==> slot.filled(m).cancel(
            token,
        ) == slot.filled(m)),
        slot.cell is Some ==> (slot.on_empty matches Some((token, _)) ==> slot.drained().cancel(
            token,
        ) == slot.drained()),
{
}

/// A token is never issued twice: a registration that was issued and waits
/// no longer stays that way whatever is done to the cell, so cancelling it
/// stays without effect for ever.
pub proof fn law_spent_token_stays_spent<T, K>(
    slot: SlotView<T, K>,
    token: nat,
    m: Message<T>,
    full: OnFull<K>,
    empty: OnEmpty<K>,
    other: nat,
)
    requires
        slot.wf(),
        token <= slot.issued,
        !slot.is_waiting(token),
    ensures
        !slot.try_produce(m).is_waiting(token),
        !slot.try_consume().is_waiting(token),
        !slot.on_full(full).is_waiting(token),
        !slot.on_empty(empty).is_waiting(token),
        !slot.cancel(other).is_waiting(token),
        !slot.without_woken().is_waiting(token),
{
}

} // verus!
