//! Session identity and secret storage for a desktop application backend.
//!
//! The crate has three parts:
//!
//! * [`identifier`]: what a random (version 4) identifier is, as a 128-bit
//!   value and as text;
//! * [`session`]: the state that carries the session token, and the guarded
//!   holder through which every command reads it;
//! * [`secrets`]: the three operations on the platform credential store, with
//!   every failure flattened to a message.

pub mod identifier;
pub mod session;
pub mod secrets;
