//! Intake of newsletter subscriptions.
//!
//! The crate decides what happens to a submitted form: whether it is
//! accepted, which row is to be stored for it, which status the client gets
//! and which log events belong to the request. Talking to the network and to
//! the database is left to the caller, which hands over plain values and
//! carries out what comes back.

pub mod clock;
pub mod form;
pub mod identity;
pub mod lifecycle;
pub mod provision;
pub mod response;
pub mod subscriber;
pub mod subscriptions;
pub mod telemetry;
