//! A resumable, cancellable, progress-reporting single-file HTTP download
//! engine.
//!
//! The crate holds the verified core of the engine: building the outbound
//! header set, resolving the resume offset from a `Range` header, the
//! arithmetic behind throughput and ETA reports, the shared store of pending
//! pause/abort signals, and the session state machine that decides, chunk by
//! chunk, whether a transfer continues, reports progress, pauses or aborts.
//!
//! The surrounding application supplies the transport (the HTTP client), the
//! clock, the file writer and the event observer; it feeds their results to
//! the state machine as plain values and carries out the actions the machine
//! prescribes.

pub mod errors;
pub mod events;
pub mod headers;
pub mod laws;
pub mod progress;
pub mod session;
pub mod signals;
