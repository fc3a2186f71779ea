//! Mandate consistency engine and API audit event pipeline of a payment switch.
//!
//! `mandate` and `store` hold the mandate records and the predicate-scoped
//! store over them; `flow`, `event` and `publisher` build and hand off the
//! per-transaction audit events.
pub mod text;
pub mod mandate;
pub mod store;
pub mod flow;
pub mod event;
pub mod sub_events;
pub mod publisher;
