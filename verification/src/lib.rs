//! The core of a session actor for a turn-based word game.
//!
//! One session proxies the commands of a player to a separate game actor. At most one request
//! is in flight; the caller that issued it stays parked until the matching reply arrives, and a
//! deferred status check ends a round that ran over its block budget.
//!
//! The crate holds the decisions only. Every entry point is a function from the session record
//! and the values of the message at hand to the next record and the effect to carry out, so the
//! code that talks to the runtime stays a thin shell around it.
pub mod effect;
pub mod ids;
pub mod io;
pub mod laws;
pub mod model;
pub mod session;
pub mod wordle;
