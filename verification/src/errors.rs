//! The error taxonomy of the download engine.

use vstd::prelude::*;

verus! {

/// A typed failure of a download session.
///
/// Every error surfaces to the caller of the download entry point; none is
/// silently swallowed except event-delivery failures, which are outside the
/// verified core.
#[derive(Clone, Copy, Debug, PartialEq, Eq, Structural)]
pub enum DownloadError {
    /// A caller-supplied header name or value is malformed. Fatal; raised
    /// before any partial state is created.
    InvalidHeader,
    /// The transport followed the redirect limit without reaching a final
    /// response. Fatal.
    TooManyRedirects,
    /// The server answered with HTTP 429. Retryable at the caller's
    /// discretion; a `RateLimitExceeded` event is emitted first.
    RateLimited,
    /// The response declared no content length, so progress cannot be
    /// tracked safely. Fatal.
    UnknownContentLength,
    /// An I/O failure on read or write. Fatal; the partial file is left on
    /// disk so a later resume attempt stays possible.
    Io,
    /// The destination directory could not be created. Fatal; raised before
    /// any network call.
    DirCreation,
}

} // verus!
