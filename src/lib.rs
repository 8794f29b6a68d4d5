//! Client library for a MarketStore time-series server.
//!
//! The streaming side is modelled as a session state machine (`session`):
//! the caller runs the I/O and feeds each outcome back as an event, the
//! session answers with the next action. Frame classification, the
//! subscribe frame, pattern validation, request building and the columnar
//! encoding of OHLCV rows are verified here as well.

pub mod error;
pub mod pattern;
pub mod models;
pub mod codec;
pub mod requests;
pub mod session;
pub mod session_lemmas;
pub mod conversion;
pub mod admin;
