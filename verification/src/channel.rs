//! The channel: a sending handle, a receiving handle and the state they share.
//!
//! `create` makes the three. The sending handle is used up by `send`, which
//! yields a send operation; polling the operation hands the handle back once
//! the cell has accepted the message, so at most one send is under way at a
//! time. The receiving handle drains one message per poll. Every operation
//! takes the shared state by `&mut` and, where it has to wait, the handle of
//! the polling task; the tasks to signal are read from the shared state with
//! `Inner::take_woken`.
//!
//! Letting go of a handle is an operation too, because it acts on the shared
//! state: `Sender::finish`, `FutureSender::abandon` and `Receiver::close`.
use vstd::prelude::*;
use crate::message::{Async, Message, Poll};
use crate::slot::{OnEmpty, OnFull, Slot, SlotView, Token};

verus! {

/// The state shared by the two ends of a channel, as a mathematical value.
pub struct InnerView<T, E, K> {
    /// The cell through which the messages pass.
    pub slot: SlotView<Result<T, E>, K>,
    /// Whether the receiving handle has been closed.
    pub receiver_gone: bool,
}

/// How a poll of a send operation ends.
pub enum SendVerdict<T, E> {
    /// The cell took the message; the sending handle comes back.
    Resolved,
    /// The cell is full; the polling task is registered.
    Waiting,
    /// The receiver is gone; the message comes back.
    Failed(Result<T, E>),
}

/// Cancels the registration `token`, if there is one to cancel.
pub open spec fn cancel_held<T, K>(slot: SlotView<T, K>, token: Option<nat>) -> SlotView<T, K> {
    match token {
        Some(t) => slot.cancel(t),
        None => slot,
    }
}

impl<T, E, K> InnerView<T, E, K> {
    /// The state of a channel that was just created.
    pub open spec fn fresh() -> Self {
        InnerView { slot: SlotView::empty(), receiver_gone: false }
    }

    /// Whether the state is well formed.
    pub open spec fn wf(self) -> bool {
        self.slot.wf()
    }

    /// The state after the sending handle was let go: the end of the stream
    /// is written as soon as the cell has room.
    pub open spec fn finish(self) -> Self {
        InnerView { slot: self.slot.on_empty(OnEmpty::Finish), ..self }
    }

    /// The state after a send operation that holds `payload` and the
    /// registration `token` was polled by `task`.
    pub open spec fn poll_send(self, payload: Result<T, E>, token: Option<nat>, task: K) -> Self {
        let slot = cancel_held(self.slot, token);
        if self.receiver_gone {
            InnerView { slot, ..self }.finish()
        } else if slot.cell is None {
            InnerView { slot: slot.filled(Message::Data(payload)), ..self }
        } else {
            InnerView { slot: slot.on_empty(OnEmpty::Unpark(task)), ..self }
        }
    }

    /// How the poll of a send operation that holds `payload` ends in this
    /// state: it fails if the receiver is gone, resolves if the cell is empty,
    /// and waits if the cell is full.
    pub open spec fn send_verdict(self, payload: Result<T, E>) -> SendVerdict<T, E> {
        if self.receiver_gone {
            SendVerdict::Failed(payload)
        } else if self.slot.cell is None {
            SendVerdict::Resolved
        } else {
            SendVerdict::Waiting
        }
    }

    /// What a send operation that held `payload` holds after a poll in this
    /// state: the same message and the new registration if it has to wait,
    /// and nothing otherwise.
    pub open spec fn pending_after_poll(self, payload: Result<T, E>) -> Option<Pending<T, E>> {
        match self.send_verdict(payload) {
            SendVerdict::Waiting => Some(Pending { payload, token: Some(self.slot.issued + 1) }),
            _ => None,
        }
    }

    /// The state after a send operation was abandoned; `pending` is its
    /// registration if it was still unresolved.
    pub open spec fn abandon_send(self, pending: Option<Option<nat>>) -> Self {
        match pending {
            Some(token) => InnerView { slot: cancel_held(self.slot, token), ..self }.finish(),
            None => self,
        }
    }

    /// The state after the receiving handle, which holds the registration
    /// `token`, was polled by `task`.
    pub open spec fn poll_recv(self, token: Option<nat>, task: K) -> Self {
        let slot = cancel_held(self.slot, token);
        if slot.cell is Some {
            InnerView { slot: slot.drained(), ..self }
        } else {
            InnerView { slot: slot.on_full(OnFull::Unpark(task)), ..self }
        }
    }

    /// What a poll of the receiving handle returns in this state: the value
    /// or the error in the cell, the end of the stream, or "not ready" if the
    /// cell is empty.
    pub open spec fn recv_result(self) -> Poll<Option<T>, E> {
        match self.slot.cell {
            Some(Message::Data(Ok(v))) => Ok(Async::Ready(Some(v))),
            Some(Message::Data(Err(e))) => Err(e),
            Some(Message::Done) => Ok(Async::Ready(None)),
            None => Ok(Async::NotReady),
        }
    }

    /// The registration the receiving handle holds after a poll in this
    /// state: a new one if the cell is empty, and none otherwise.
    pub open spec fn held_after_recv(self) -> Option<nat> {
        if self.slot.cell is None {
            Some(self.slot.issued + 1)
        } else {
            None
        }
    }

    /// The state after the receiving handle, which holds the registration
    /// `token`, was closed: later sends fail, and one message that is or
    /// comes to be in the cell is drained and discarded.
    pub open spec fn close(self, token: Option<nat>) -> Self {
        InnerView { slot: cancel_held(self.slot, token).on_full(OnFull::Drain), receiver_gone: true }
    }

    /// The state after its owner took the signalled tasks.
    pub open spec fn without_woken(self) -> Self {
        InnerView { slot: self.slot.without_woken(), ..self }
    }
}

/// The state shared by the two ends of a channel.
pub struct Inner<T, E, K> {
    slot: Slot<Result<T, E>, K>,
    receiver_gone: bool,
}

impl<T, E, K> View for Inner<T, E, K> {
    type V = InnerView<T, E, K>;

    closed spec fn view(&self) -> InnerView<T, E, K> {
        InnerView { slot: self.slot@, receiver_gone: self.receiver_gone }
    }
}

impl<T, E, K> Inner<T, E, K> {
    /// Whether the state is well formed.
    pub open spec fn wf(&self) -> bool {
        self@.wf()
    }

    /// Whether the cell can still issue a token.
    pub open spec fn has_room(&self) -> bool {
        self@.slot.issued < u64::MAX
    }

    /// Whether the cell can still issue a token, as the operations that may
    /// register a callback require.
    pub fn room_left(&self) -> (b: bool)
        ensures
            b == self.has_room(),
    {
        self.slot.room_left()
    }

    /// Whether the receiving handle has been closed.
    pub fn receiver_gone(&self) -> (gone: bool)
        ensures
            gone == self@.receiver_gone,
    {
        self.receiver_gone
    }

    /// Whether a message is waiting in the cell.
    pub fn is_full(&self) -> (full: bool)
        ensures
            full == (self@.slot.cell is Some),
    {
        self.slot.is_full()
    }

    /// Hands over the tasks to signal, in the order in which their callbacks
    /// ran, and forgets them.
    pub fn take_woken(&mut self) -> (tasks: Vec<K>)
        requires
            old(self).wf(),
        ensures
            final(self).wf(),
            final(self)@ == old(self)@.without_woken(),
            tasks@ == old(self)@.slot.woken,
    {
        self.slot.take_woken()
    }
}

/// The sending end of a channel: the right to send one message.
pub struct Sender {
    _sealed: (),
}

/// The receiving end of a channel.
pub struct Receiver {
    on_full_token: Option<Token>,
}

/// A send under way: resolves to the sending handle once the cell has
/// accepted the message.
pub struct FutureSender<T, E> {
    sender: Option<Sender>,
    data: Option<Result<T, E>>,
    on_empty_token: Option<Token>,
}

/// The failure of a send whose receiver is gone; it carries the message that
/// could not be sent.
pub struct SendError<T, E>(Result<T, E>);

/// The number of a token that may be there.
pub open spec fn token_view(token: Option<Token>) -> Option<nat> {
    match token {
        Some(t) => Some(t@),
        None => None,
    }
}

impl<T, E> SendError<T, E> {
    /// The message that could not be sent.
    pub closed spec fn payload(&self) -> Result<T, E> {
        self.0
    }

    /// Gives the message back to the caller.
    pub fn into_inner(self) -> (payload: Result<T, E>)
        ensures
            payload == self.payload(),
    {
        self.0
    }

    /// A short description of the failure.
    pub fn description(&self) -> (text: &'static str)
        ensures
            text@ == "send failed because receiver is gone"@,
    {
        "send failed because receiver is gone"
    }
}

impl View for Receiver {
    type V = Option<nat>;

    /// The registration the handle holds from its last poll, if any.
    closed spec fn view(&self) -> Option<nat> {
        token_view(self.on_full_token)
    }
}

/// What an unresolved send operation holds.
pub struct Pending<T, E> {
    /// The message still to be sent.
    pub payload: Result<T, E>,
    /// The registration held from the last poll, if any.
    pub token: Option<nat>,
}

impl<T, E> View for FutureSender<T, E> {
    type V = Option<Pending<T, E>>;

    /// What the operation holds; `None` once it has resolved.
    closed spec fn view(&self) -> Option<Pending<T, E>> {
        match (self.sender, self.data) {
            (Some(_), Some(payload)) => Some(
                Pending { payload, token: token_view(self.on_empty_token) },
            ),
            _ => None,
        }
    }
}

/// The registration of a send operation that is still unresolved.
pub open spec fn pending_token<T, E>(op: Option<Pending<T, E>>) -> Option<Option<nat>> {
    match op {
        Some(pending) => Some(pending.token),
        None => None,
    }
}

/// What the result of polling a send operation says.
pub open spec fn verdict_of<T, E>(r: Poll<Sender, SendError<T, E>>) -> SendVerdict<T, E> {
    match r {
        Ok(Async::Ready(_)) => SendVerdict::Resolved,
        Ok(Async::NotReady) => SendVerdict::Waiting,
        Err(e) => SendVerdict::Failed(e.payload()),
    }
}

/// Makes a channel: its shared state, empty, and its two handles.
pub fn create<T, E, K>() -> (ends: (Inner<T, E, K>, Sender, Receiver))
    ensures
        ends.0.wf(),
        ends.0@ == InnerView::<T, E, K>::fresh(),
        ends.2@ is None,
{
    let inner = Inner { slot: Slot::new(), receiver_gone: false };
    let sender = Sender { _sealed: () };
    let receiver = Receiver { on_full_token: None };
    (inner, sender, receiver)
}

impl Sender {
    /// Starts sending `t`: the handle goes into the operation, which gives
    /// it back when the message has been accepted.
    pub fn send<T, E>(self, t: Result<T, E>) -> (op: FutureSender<T, E>)
        ensures
            op@ == Some(Pending { payload: t, token: None }),
    {
        FutureSender { sender: Some(self), data: Some(t), on_empty_token: None }
    }

    /// Lets the handle go: the end of the stream is written into the cell,
    /// at once if it is empty and else as soon as it has been drained.
    pub fn finish<T, E, K>(self, inner: &mut Inner<T, E, K>)
        requires
            old(inner).wf(),
            old(inner).has_room(),
        ensures
            final(inner).wf(),
            final(inner)@ == old(inner)@.finish(),
    {
        let _ = inner.slot.on_empty(OnEmpty::Finish);
    }
}

impl<T, E> FutureSender<T, E> {
    /// Whether the operation has not resolved yet.
    pub fn is_pending(&self) -> (pending: bool)
        ensures
            pending == (self@ is Some),
    {
        self.sender.is_some() && self.data.is_some()
    }

    /// Tries to hand the message to the cell.
    ///
    /// Any registration from an earlier poll is cancelled first. If the
    /// receiver is gone the operation fails and returns the message, and the
    /// sending handle is let go. If the cell is empty it takes the message and
    /// the operation resolves to the sending handle. Otherwise `task` is
    /// registered to be signalled when the cell is drained, and the operation
    /// stays as it was but for the new registration.
    pub fn poll<K>(&mut self, inner: &mut Inner<T, E, K>, task: K) -> (r: Poll<Sender, SendError<T, E>>)
        requires
            old(self)@ is Some,
            old(inner).wf(),
            old(inner).has_room(),
        ensures
            final(inner).wf(),
            final(inner)@ == old(inner)@.poll_send(
                old(self)@->0.payload,
                old(self)@->0.token,
                task,
            ),
            final(self)@ == old(inner)@.pending_after_poll(old(self)@->0.payload),
            verdict_of(r) == old(inner)@.send_verdict(old(self)@->0.payload),
    {
        let data = self.data.take().unwrap();
        let sender = self.sender.take().unwrap();
        if let Some(token) = self.on_empty_token.take() {
            inner.slot.cancel(token);
        }
        if inner.receiver_gone {
            sender.finish(inner);
            return Err(SendError(data));
        }
        match inner.slot.try_produce(Message::Data(data)) {
            Ok(()) => Ok(Async::Ready(sender)),
            Err(rejected) => {
                let token = inner.slot.on_empty(OnEmpty::Unpark(task));
                self.on_empty_token = Some(token);
                match rejected.into_inner() {
                    Message::Data(data) => {
                        self.data = Some(data);
                    },
                    Message::Done => {
                        vstd::pervasive::unreached::<()>();
                    },
                }
                self.sender = Some(sender);
                Ok(Async::NotReady)
            },
        }
    }

    /// Gives the operation up. If it was still unresolved, its registration
    /// is cancelled, the sending handle it holds is let go, and the message
    /// that was not sent comes back.
    pub fn abandon<K>(self, inner: &mut Inner<T, E, K>) -> (unsent: Option<Result<T, E>>)
        requires
            old(inner).wf(),
            old(inner).has_room(),
        ensures
            final(inner).wf(),
            final(inner)@ == old(inner)@.abandon_send(pending_token(self@)),
            match self@ {
                Some(pending) => unsent == Some(pending.payload),
                None => unsent is None,
            },
    {
        let FutureSender { sender, data, on_empty_token } = self;
        match (sender, data) {
            (Some(sender), Some(data)) => {
                if let Some(token) = on_empty_token {
                    inner.slot.cancel(token);
                }
                sender.finish(inner);
                Some(data)
            },
            _ => None,
        }
    }
}

impl Receiver {
    /// Tries to take one message out of the cell.
    ///
    /// Any registration from an earlier poll is cancelled first. A value in
    /// the cell is produced, an error in it is passed on, and the end of the
    /// stream is reported as `None`. If the cell is empty, `task` is
    /// registered to be signalled when a message arrives.
    pub fn poll<T, E, K>(&mut self, inner: &mut Inner<T, E, K>, task: K) -> (r: Poll<Option<T>, E>)
        requires
            old(inner).wf(),
            old(inner).has_room(),
        ensures
            final(inner).wf(),
            final(inner)@ == old(inner)@.poll_recv(old(self)@, task),
            final(self)@ == old(inner)@.held_after_recv(),
            r == old(inner)@.recv_result(),
    {
        if let Some(token) = self.on_full_token.take() {
            inner.slot.cancel(token);
        }
        match inner.slot.try_consume() {
            Ok(Message::Data(Ok(v))) => Ok(Async::Ready(Some(v))),
            Ok(Message::Data(Err(e))) => Err(e),
            Ok(Message::Done) => Ok(Async::Ready(None)),
            Err(_) => {
                let token = inner.slot.on_full(OnFull::Unpark(task));
                self.on_full_token = Some(token);
                Ok(Async::NotReady)
            },
        }
    }

    /// Lets the handle go. From now on sends fail; the registration of the
    /// last poll is cancelled; and one message that is in the cell, or is the
    /// next to arrive, is drained and discarded so that the cell does not
    /// stay full for ever.
    pub fn close<T, E, K>(self, inner: &mut Inner<T, E, K>)
        requires
            old(inner).wf(),
            old(inner).has_room(),
        ensures
            final(inner).wf(),
            final(inner)@ == old(inner)@.close(self@),
    {
        inner.receiver_gone = true;
        if let Some(token) = self.on_full_token {
            inner.slot.cancel(token);
        }
        let _ = inner.slot.on_full(OnFull::Drain);
    }
}

} // verus!
