//! A request/response handoff primitive pairing one requester with one
//! responder over a single pre-allocated payload slot.
//!
//! A [`Channel`] owns a six-valued [`State`] acting as a baton: whichever
//! side the state designates holds exclusive access to the payload slot.
//! Handles for the two roles are claimed at most once each until released,
//! and an [`Interchange`] carves many channels out of one allocation,
//! handing out the first free pair round-robin.
//!
//! This crate verifies the protocol itself: every transition a channel can
//! make, which operations succeed from which state, and the invariant tying
//! the slot's contents to the state. The model is sequential: a handle
//! operates on a channel passed in by mutable reference, so the atomic
//! hand-off between two truly concurrent contexts is outside what is proved
//! here.

pub mod channel;
pub mod laws;
pub mod message;
pub mod pool;
pub mod requester;
pub mod responder;
pub mod state;

pub use channel::Channel;
pub use channel::Error;
pub use channel::Requester;
pub use channel::Responder;
pub use message::Message;
pub use pool::Interchange;
pub use state::State;
