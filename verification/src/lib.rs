//! Polling engine for a license server's seat-availability counts.
//!
//! The library holds the verified core of the engine: parsing the dotted
//! version strings the server emits, interpreting its response envelope into
//! typed license records, aggregating available seats under a selection
//! criterion, the polling state machine that drives request/sleep cycles, and
//! the one-shot launch decision.  Network transport, timers and the
//! presentation layer are the caller's concern.

pub mod aggregate;
pub mod chaser;
pub mod config;
pub mod envelope;
pub mod pages;
pub mod request;
pub mod response;
pub mod version;
pub mod widgets;
