//! A single-session game-client core: the login/handshake state machine and
//! the ordered dispatch pipeline that follows it.
//!
//! The library holds the decision logic only.  Wire framing, sockets, timers
//! and the identity service live outside; they hand this crate plain values
//! (canonical events) and carry out the actions it returns.

pub mod chat;
pub mod crypto;
pub mod der;
pub mod dispatch;
pub mod events;
pub mod ident;
pub mod login;
pub mod negotiate;
pub mod step;
pub mod text;
pub mod tunnel;
