//! Lifecycle and progress notifications handed to the event observer.

use vstd::prelude::*;

verus! {

/// A lifecycle notification for one download, consumed by an external
/// observer. Immutable once constructed; delivery is best-effort, so a
/// failure to deliver never fails the session.
///
/// `progress_percentage` is the share of the total already on disk, in whole
/// percent (0 to 100).
#[derive(Clone, Debug)]
pub enum DownloadEvent {
    Started { url: String, path: String, content_length: u64 },
    Progress {
        url: String,
        progress_percentage: u64,
        downloaded_bytes: u64,
        download_speed: u64,
        eta: u64,
    },
    Paused { url: String },
    Completed { url: String },
    Aborted { url: String },
    RateLimitExceeded { url: String },
}

/// `ev` is the `Started` notification for this URL, path and total length.
pub open spec fn started_event_for(
    ev: DownloadEvent,
    url: Seq<char>,
    path: Seq<char>,
    content_length: u64,
) -> bool {
    &&& ev matches DownloadEvent::Started { url: u, path: p, content_length: c }
    &&& u@ == url
    &&& p@ == path
    &&& c == content_length
}

/// `ev` is the `Paused` notification for this URL.
pub open spec fn paused_event_for(ev: DownloadEvent, url: Seq<char>) -> bool {
    &&& ev matches DownloadEvent::Paused { url: u }
    &&& u@ == url
}

/// `ev` is the `Completed` notification for this URL.
pub open spec fn completed_event_for(ev: DownloadEvent, url: Seq<char>) -> bool {
    &&& ev matches DownloadEvent::Completed { url: u }
    &&& u@ == url
}

/// `ev` is the `Aborted` notification for this URL.
pub open spec fn aborted_event_for(ev: DownloadEvent, url: Seq<char>) -> bool {
    &&& ev matches DownloadEvent::Aborted { url: u }
    &&& u@ == url
}

/// `ev` is the `RateLimitExceeded` notification for this URL.
pub open spec fn rate_limit_event_for(ev: DownloadEvent, url: Seq<char>) -> bool {
    &&& ev matches DownloadEvent::RateLimitExceeded { url: u }
    &&& u@ == url
}

} // verus!
