//! The rendezvous cell: room for one message and for one waiting callback.
//!
//! A callback is registered for the next transition of the cell, empty to
//! full or full to empty, and runs exactly once unless it is cancelled first.
//! If the cell is already in the state the callback waits for, it runs at
//! once. The callbacks a channel needs are few, so they are data rather than
//! closures: signal a task, drain the cell, or write the end of the stream.
//! Tasks to be signalled are collected in the cell until its owner takes them.
use vstd::prelude::*;
use crate::message::Message;

verus! {

/// What to do when the cell becomes full.
pub enum OnFull<K> {
    /// Signal the task that waits for a message.
    Unpark(K),
    /// Take the message out and discard it.
    Drain,
}

/// What to do when the cell becomes empty.
pub enum OnEmpty<K> {
    /// Signal the task that waits for room.
    Unpark(K),
    /// Write the end of the stream into the cell.
    Finish,
}

/// Identifies one registration, so that it can be cancelled.
///
/// The token of a callback that ran at registration is the number zero,
/// which no waiting callback ever has.
pub struct Token {
    id: u64,
}

impl View for Token {
    type V = nat;

    closed spec fn view(&self) -> nat {
        self.id as nat
    }
}

/// The message a full cell refused.
pub struct TryProduceError<T>(pub Message<T>);

impl<T> TryProduceError<T> {
    /// The refused message.
    pub fn into_inner(self) -> (m: Message<T>)
        ensures
            m == self.0,
    {
        self.0
    }
}

/// Marks an attempt to drain an empty cell.
pub struct TryConsumeError;

/// The cell as a mathematical value.
pub struct SlotView<T, K> {
    /// The message in the cell, if any.
    pub cell: Option<Message<T>>,
    /// The callback that waits for the cell to become full, with its token.
    pub on_full: Option<(nat, OnFull<K>)>,
    /// The callback that waits for the cell to become empty, with its token.
    pub on_empty: Option<(nat, OnEmpty<K>)>,
    /// How many tokens have been given to waiting callbacks so far.
    pub issued: nat,
    /// The tasks signalled since the owner last took them, oldest first.
    pub woken: Seq<K>,
}

impl<T, K> SlotView<T, K> {
    /// The empty cell that `Slot::new` makes.
    pub open spec fn empty() -> Self {
        SlotView { cell: None, on_full: None, on_empty: None, issued: 0, woken: Seq::empty() }
    }

    /// A callback only waits for a transition that has not happened yet, and
    /// its token is one that was issued.
    pub open spec fn wf(self) -> bool {
        &&& self.cell is Some ==> self.on_full is None
        &&& self.cell is None ==> self.on_empty is None
        &&& self.on_full matches Some((t, _)) ==> 1 <= t <= self.issued
        &&& self.on_empty matches Some((t, _)) ==> 1 <= t <= self.issued
    }

    /// Whether a callback with this token is waiting.
    pub open spec fn is_waiting(self, token: nat) -> bool {
        ||| self.on_full matches Some((t, _)) && t == token
        ||| self.on_empty matches Some((t, _)) && t == token
    }

    /// The empty cell receives `m`: the on-full callback, if one waits, runs.
    pub open spec fn filled(self, m: Message<T>) -> Self {
        match self.on_full {
            None => SlotView { cell: Some(m), ..self },
            Some((_, OnFull::Unpark(k))) => SlotView {
                cell: Some(m),
                on_full: None,
                woken: self.woken.push(k),
                ..self
            },
            Some((_, OnFull::Drain)) => SlotView { cell: None, on_full: None, ..self },
        }
    }

    /// The full cell loses its message: the on-empty callback, if one waits,
    /// runs.
    pub open spec fn drained(self) -> Self {
        match self.on_empty {
            None => SlotView { cell: None, ..self },
            Some((_, OnEmpty::Unpark(k))) => SlotView {
                cell: None,
                on_empty: None,
                woken: self.woken.push(k),
                ..self
            },
            Some((_, OnEmpty::Finish)) => SlotView {
                cell: Some(Message::Done),
                on_empty: None,
                ..self
            },
        }
    }

    /// The cell after an attempt to put `m` into it.
    pub open spec fn try_produce(self, m: Message<T>) -> Self {
        if self.cell is Some {
            self
        } else {
            self.filled(m)
        }
    }

    /// The cell after an attempt to take its message.
    pub open spec fn try_consume(self) -> Self {
        if self.cell is Some {
            self.drained()
        } else {
            self
        }
    }

    /// The cell after `hook` was registered for the next empty-to-full
    /// transition. On a full cell it runs at once; on an empty one it waits,
    /// in the place of any callback that waited there before.
    pub open spec fn on_full(self, hook: OnFull<K>) -> Self {
        if self.cell is Some {
            match hook {
                OnFull::Unpark(k) => SlotView { woken: self.woken.push(k), ..self },
                OnFull::Drain => self.drained(),
            }
        } else {
            SlotView { on_full: Some((self.issued + 1, hook)), issued: self.issued + 1, ..self }
        }
    }

    /// The token that `on_full` returns.
    pub open spec fn on_full_token(self) -> nat {
        if self.cell is Some {
            0
        } else {
            self.issued + 1
        }
    }

    /// The cell after `hook` was registered for the next full-to-empty
    /// transition. On an empty cell it runs at once; on a full one it waits,
    /// in the place of any callback that waited there before.
    pub open spec fn on_empty(self, hook: OnEmpty<K>) -> Self {
        if self.cell is None {
            match hook {
                OnEmpty::Unpark(k) => SlotView { woken: self.woken.push(k), ..self },
                OnEmpty::Finish => self.filled(Message::Done),
            }
        } else {
            SlotView { on_empty: Some((self.issued + 1, hook)), issued: self.issued + 1, ..self }
        }
    }

    /// The token that `on_empty` returns.
    pub open spec fn on_empty_token(self) -> nat {
        if self.cell is None {
            0
        } else {
            self.issued + 1
        }
    }

    /// The cell after the registration `token` was cancelled: the callback
    /// with that token no longer waits, and nothing else changes.
    pub open spec fn cancel(self, token: nat) -> Self {
        SlotView {
            on_full: match self.on_full {
                Some((t, _)) if t == token => None,
                _ => self.on_full,
            },
            on_empty: match self.on_empty {
                Some((t, _)) if t == token => None,
                _ => self.on_empty,
            },
            ..self
        }
    }

    /// The cell after its owner took the signalled tasks.
    pub open spec fn without_woken(self) -> Self {
        SlotView { woken: Seq::empty(), ..self }
    }
}

/// A cell for one message and one waiting callback.
pub struct Slot<T, K> {
    cell: Option<Message<T>>,
    on_full: Option<(u64, OnFull<K>)>,
    on_empty: Option<(u64, OnEmpty<K>)>,
    issued: u64,
    woken: Vec<K>,
}

impl<T, K> View for Slot<T, K> {
    type V = SlotView<T, K>;

    closed spec fn view(&self) -> SlotView<T, K> {
        SlotView {
            cell: self.cell,
            on_full: match self.on_full {
                Some((t, hook)) => Some((t as nat, hook)),
                None => None,
            },
            on_empty: match self.on_empty {
                Some((t, hook)) => Some((t as nat, hook)),
                None => None,
            },
            issued: self.issued as nat,
            woken: self.woken@,
        }
    }
}

impl<T, K> Slot<T, K> {
    /// Whether the cell is well formed.
    pub open spec fn wf(&self) -> bool {
        self@.wf()
    }

    /// Whether another token can still be issued.
    pub open spec fn has_room(&self) -> bool {
        self@.issued < u64::MAX
    }

    /// An empty cell with no callback waiting.
    pub fn new() -> (slot: Self)
        ensures
            slot.wf(),
            slot@ == SlotView::<T, K>::empty(),
    {
        Slot { cell: None, on_full: None, on_empty: None, issued: 0, woken: Vec::new() }
    }

    /// Whether another token can still be issued, as registering requires.
    pub fn room_left(&self) -> (b: bool)
        ensures
            b == self.has_room(),
    {
        self.issued < u64::MAX
    }

    /// Whether the cell holds a message.
    pub fn is_full(&self) -> (b: bool)
        ensures
            b == (self@.cell is Some),
    {
        self.cell.is_some()
    }

    fn fill(&mut self, m: Message<T>)
        requires
            old(self).wf(),
            old(self)@.cell is None,
        ensures
            final(self).wf(),
            final(self)@ == old(self)@.filled(m),
    {
        match self.on_full.take() {
            None => {
                self.cell = Some(m);
            },
            Some((_, OnFull::Unpark(k))) => {
                self.cell = Some(m);
                self.woken.push(k);
            },
            Some((_, OnFull::Drain)) => {},
        }
    }

    fn drain(&mut self) -> (m: Message<T>)
        requires
            old(self).wf(),
            old(self)@.cell is Some,
        ensures
            final(self).wf(),
            final(self)@ == old(self)@.drained(),
            Some(m) == old(self)@.cell,
    {
        let m = self.cell.take().unwrap();
        match self.on_empty.take() {
            None => {},
            Some((_, OnEmpty::Unpark(k))) => {
                self.woken.push(k);
            },
            Some((_, OnEmpty::Finish)) => {
                self.cell = Some(Message::Done);
            },
        }
        m
    }

    /// Puts `m` into the cell if it is empty, and hands it back if not.
    pub fn try_produce(&mut self, m: Message<T>) -> (r: Result<(), TryProduceError<T>>)
        requires
            old(self).wf(),
        ensures
            final(self).wf(),
            final(self)@ == old(self)@.try_produce(m),
            old(self)@.cell is None ==> r is Ok,
            old(self)@.cell is Some ==> r == Err::<(), _>(TryProduceError(m)),
    {
        if self.cell.is_some() {
            Err(TryProduceError(m))
        } else {
            self.fill(m);
            Ok(())
        }
    }

    /// Takes the message out of the cell, if there is one.
    pub fn try_consume(&mut self) -> (r: Result<Message<T>, TryConsumeError>)
        requires
            old(self).wf(),
        ensures
            final(self).wf(),
            final(self)@ == old(self)@.try_consume(),
            match old(self)@.cell {
                Some(m) => r == Ok::<_, TryConsumeError>(m),
                None => r is Err,
            },
    {
        if self.cell.is_some() {
            Ok(self.drain())
        } else {
            Err(TryConsumeError)
        }
    }

    /// Registers `hook` for the next time the cell becomes full.
    pub fn on_full(&mut self, hook: OnFull<K>) -> (token: Token)
        requires
            old(self).wf(),
            old(self).has_room(),
        ensures
            final(self).wf(),
            final(self)@ == old(self)@.on_full(hook),
            token@ == old(self)@.on_full_token(),
    {
        if self.cell.is_some() {
            match hook {
                OnFull::Unpark(k) => {
                    self.woken.push(k);
                },
                OnFull::Drain => {
                    let _ = self.drain();
                },
            }
            Token { id: 0 }
        } else {
            self.issued = self.issued + 1;
            self.on_full = Some((self.issued, hook));
            Token { id: self.issued }
        }
    }

    /// Registers `hook` for the next time the cell becomes empty.
    pub fn on_empty(&mut self, hook: OnEmpty<K>) -> (token: Token)
        requires
            old(self).wf(),
            old(self).has_room(),
        ensures
            final(self).wf(),
            final(self)@ == old(self)@.on_empty(hook),
            token@ == old(self)@.on_empty_token(),
    {
        if self.cell.is_none() {
            match hook {
                OnEmpty::Unpark(k) => {
                    self.woken.push(k);
                },
                OnEmpty::Finish => {
                    self.fill(Message::Done);
                },
            }
            Token { id: 0 }
        } else {
            self.issued = self.issued + 1;
            self.on_empty = Some((self.issued, hook));
            Token { id: self.issued }
        }
    }

    /// Cancels the registration `token`; does nothing if its callback has
    /// run or was cancelled before.
    pub fn cancel(&mut self, token: Token)
        requires
            old(self).wf(),
        ensures
            final(self).wf(),
            final(self)@ == old(self)@.cancel(token@),
            !old(self)@.is_waiting(token@) ==> final(self)@ == old(self)@,
    {
        let full_hit = match &self.on_full {
            Some((t, _)) => *t == token.id,
            None => false,
        };
        if full_hit {
            self.on_full = None;
        }
        let empty_hit = match &self.on_empty {
            Some((t, _)) => *t == token.id,
            None => false,
        };
        if empty_hit {
            self.on_empty = None;
        }
    }

    /// Hands over the tasks signalled since the last call, oldest first.
    pub fn take_woken(&mut self) -> (tasks: Vec<K>)
        requires
            old(self).wf(),
        ensures
            final(self).wf(),
            final(self)@ == old(self)@.without_woken(),
            tasks@ == old(self)@.woken,
    {
        let mut tasks: Vec<K> = Vec::new();
        std::mem::swap(&mut self.woken, &mut tasks);
        tasks
    }
}

} // verus!
