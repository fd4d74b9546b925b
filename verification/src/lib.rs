//! A client library for keeping a single DNS record of a hosted zone in step
//! with the machine's current public address.
//!
//! The crate holds the decision logic of the synchronization: which address
//! family to probe, how provider responses are interpreted, and which provider
//! call follows which answer. Performing the actual HTTP and socket work is
//! the caller's business; the caller feeds every observed response back into
//! the state machine of [`dns`].

pub mod cmd;
pub mod config;
pub mod dns;
pub mod ip;
