//! A single-slot handshake channel.
//!
//! A producer and a consumer exchange a sequence of fallible values through
//! one rendezvous cell. The producer may push a value only once the cell is
//! empty; the consumer drains one message per poll. Neither side ever blocks:
//! a poll that cannot make progress leaves a one-shot wakeup registration in
//! the cell and reports "not ready".
//!
//! The state that both ends share is an ordinary value, [`channel::Inner`],
//! which every operation takes by `&mut`. Whoever embeds the channel decides
//! how that value is shared (a lock, a single-threaded executor, ...) and
//! signals the task handles that the operations hand back.
pub mod message;
pub mod slot;
pub mod channel;
pub mod laws;

pub use channel::{create, FutureSender, Inner, Receiver, SendError, Sender};
pub use message::{Async, Message, Poll};
