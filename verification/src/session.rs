//! The session state machine that drives one download from its first
//! response to a terminal state.
//!
//! The embedding application performs the outside work — issuing the GET
//! request, awaiting body chunks, appending to the destination file, reading
//! the clock, delivering events — and calls in here after each step. The
//! functions of this module decide everything: what the response means, what
//! each chunk does to the session, which events to emit, and whether the
//! transfer continues, reports progress, pauses or aborts. A terminal
//! decision (`Abort`, `Pause`, a completion) tells the caller which sink
//! action to take; [`sink_after_outcome`] states what that action leaves on
//! disk.

use vstd::prelude::*;

use crate::errors::DownloadError;
use crate::events::{
    aborted_event_for, completed_event_for, paused_event_for, rate_limit_event_for,
    started_event_for, DownloadEvent,
};
use crate::progress::{
    download_speed, eta, eta_spec, percentage_spec, progress_percentage, speed_spec,
};
use crate::signals::SignalStore;

verus! {

/// Milliseconds that must elapse between two checkpoint passes: progress is
/// reported, and pending signals are honoured, at most this often.
pub const PROGRESS_INTERVAL_MS: u64 = 2000;

/// The HTTP status code by which a server reports rate limiting.
pub const RATE_LIMITED_STATUS: u16 = 429;

/// One active transfer, owned by its session loop from the first response
/// until a terminal state.
#[derive(Debug)]
pub struct DownloadSession {
    /// Identity key for event correlation and control-signal lookup.
    pub url: String,
    /// Target file location.
    pub dest_path: String,
    /// Total expected byte count: bytes already on disk from earlier
    /// sessions plus the remaining content length the server reported.
    /// Fixed once known.
    pub total_length: u64,
    /// Cumulative bytes written, this session and prior sessions combined;
    /// never decreases within a session.
    pub downloaded_bytes: u64,
    /// Value of `downloaded_bytes` at session start, so that throughput
    /// excludes bytes inherited from earlier resumed sessions.
    pub session_start_offset: u64,
    /// Session start time, in milliseconds of a monotonic clock.
    pub started_at_ms: u64,
    /// Time of the last checkpoint pass, same clock.
    pub last_progress_emit_ms: u64,
}

impl DownloadSession {
    /// Well-formedness: the byte counters are ordered and the clock marks
    /// are ordered. Established by [`on_response`] and preserved by
    /// [`DownloadSession::on_chunk`].
    pub open spec fn wf(self) -> bool {
        &&& self.session_start_offset <= self.downloaded_bytes
        &&& self.downloaded_bytes <= self.total_length
        &&& self.started_at_ms <= self.last_progress_emit_ms
    }

    /// Whole seconds elapsed since session start, as of `now_ms`.
    pub open spec fn elapsed_secs_at(self, now_ms: u64) -> int {
        (now_ms - self.started_at_ms) / 1000
    }
}

/// A checkpoint pass is due once the progress interval has elapsed since
/// the last one.
pub open spec fn checkpoint_due(last_progress_emit_ms: u64, now_ms: u64) -> bool {
    now_ms - last_progress_emit_ms >= PROGRESS_INTERVAL_MS
}

/// `ev` is the `Progress` report of session `s` taken at `now_ms`: its
/// fields are exactly the guarded-division formulas over the session's
/// counters.
pub open spec fn progress_event_for(ev: DownloadEvent, s: DownloadSession, now_ms: u64) -> bool {
    &&& ev matches DownloadEvent::Progress {
        url,
        progress_percentage,
        downloaded_bytes,
        download_speed,
        eta,
    }
    &&& url@ == s.url@
    &&& downloaded_bytes == s.downloaded_bytes
    &&& download_speed == speed_spec(
        (s.downloaded_bytes - s.session_start_offset) as u64,
        s.elapsed_secs_at(now_ms) as u64,
    )
    &&& eta == eta_spec(s.total_length, s.downloaded_bytes, download_speed)
    &&& progress_percentage == percentage_spec(s.downloaded_bytes, s.total_length)
}

/// What the session loop does after one chunk has been appended: keep
/// streaming, keep streaming after reporting progress, or stop.
///
/// The variants prescribe the caller's sink actions: on `Abort`, flush-close
/// the sink, delete the destination file and emit the event; on `Pause`,
/// flush the sink (keeping the file as the resume point) and emit the
/// progress report and then the pause notification; on `Progress`, emit the
/// report and keep reading the stream.
#[derive(Debug)]
pub enum ChunkOutcome {
    /// Keep reading; the progress interval has not elapsed yet.
    Continue,
    /// Emit this progress report, then keep reading.
    Progress(DownloadEvent),
    /// Flush-close the sink, delete the destination file, emit this
    /// `Aborted` event, stop reading.
    Abort(DownloadEvent),
    /// Flush the sink, emit this progress report and then this `Paused`
    /// event, stop reading; the partial file remains as the resume point.
    Pause { progress: DownloadEvent, paused: DownloadEvent },
}

/// The destination file after the sink action that `outcome` prescribes,
/// given the bytes the file held when the decision was made: an abort
/// removes the file, every other outcome leaves it as written.
pub open spec fn sink_after_outcome(contents: Seq<u8>, outcome: ChunkOutcome) -> Option<Seq<u8>> {
    match outcome {
        ChunkOutcome::Abort(_) => None,
        _ => Some(contents),
    }
}

/// Interprets the response to the GET request and opens the session.
///
/// A 429 status fails the session with the retryable rate-limit error and
/// hands back the `RateLimitExceeded` event to deliver first; any other
/// status without a declared content length is the fatal
/// `UnknownContentLength`; otherwise the session starts with its total
/// length fixed to the bytes already on disk plus the remaining content
/// length, and the `Started` event is handed back for delivery.
pub fn on_response(
    url: String,
    dest_path: String,
    resume_offset: u64,
    status: u16,
    content_length: Option<u64>,
    now_ms: u64,
) -> (r: Result<(DownloadSession, DownloadEvent), (Option<DownloadEvent>, DownloadError)>)
    requires
        content_length matches Some(cl) ==> resume_offset + cl <= u64::MAX,
    ensures
        status == RATE_LIMITED_STATUS ==> ({
            &&& r matches Err((ev, e))
            &&& e == DownloadError::RateLimited
            &&& ev matches Some(v)
            &&& rate_limit_event_for(v, url@)
        }),
        status != RATE_LIMITED_STATUS ==> (match content_length {
            None => {
                &&& r matches Err((ev, e))
                &&& ev is None
                &&& e == DownloadError::UnknownContentLength
            },
            Some(cl) => {
                &&& r matches Ok((s, ev))
                &&& s.url@ == url@
                &&& s.dest_path@ == dest_path@
                &&& s.total_length == resume_offset + cl
                &&& s.downloaded_bytes == resume_offset
                &&& s.session_start_offset == resume_offset
                &&& s.started_at_ms == now_ms
                &&& s.last_progress_emit_ms == now_ms
                &&& s.wf()
                &&& started_event_for(ev, url@, dest_path@, (resume_offset + cl) as u64)
            },
        }),
{
    if status == RATE_LIMITED_STATUS {
        let ev = DownloadEvent::RateLimitExceeded { url };
        return Err((Some(ev), DownloadError::RateLimited));
    }
    match content_length {
        None => Err((None, DownloadError::UnknownContentLength)),
        Some(cl) => {
            let total_length = resume_offset + cl;
            let ev = DownloadEvent::Started {
                url: url.clone(),
                path: dest_path.clone(),
                content_length: total_length,
            };
            let session = DownloadSession {
                url,
                dest_path,
                total_length,
                downloaded_bytes: resume_offset,
                session_start_offset: resume_offset,
                started_at_ms: now_ms,
                last_progress_emit_ms: now_ms,
            };
            Ok((session, ev))
        },
    }
}

impl DownloadSession {
    /// Accounts one appended chunk and, if the progress interval has
    /// elapsed, runs the checkpoint pass: a pending abort for this URL wins
    /// and stops the transfer (leaving a simultaneous pause signal stale);
    /// otherwise a progress report is taken, and a pending pause for this
    /// URL then stops the transfer. Signals for other URLs are never
    /// consumed.
    pub fn on_chunk(&mut self, chunk_len: u64, now_ms: u64, signals: &mut SignalStore) -> (outcome:
        ChunkOutcome)
        requires
            old(self).wf(),
            old(self).downloaded_bytes + chunk_len <= old(self).total_length,
            old(self).last_progress_emit_ms <= now_ms,
        ensures
            final(self).url@ == old(self).url@,
            final(self).dest_path@ == old(self).dest_path@,
            final(self).total_length == old(self).total_length,
            final(self).session_start_offset == old(self).session_start_offset,
            final(self).started_at_ms == old(self).started_at_ms,
            final(self).downloaded_bytes == old(self).downloaded_bytes + chunk_len,
            final(self).wf(),
            !checkpoint_due(old(self).last_progress_emit_ms, now_ms) ==> {
                &&& outcome is Continue
                &&& final(self).last_progress_emit_ms == old(self).last_progress_emit_ms
                &&& *final(signals) == *old(signals)
            },
            checkpoint_due(old(self).last_progress_emit_ms, now_ms) && old(signals).abort_signal()
                == Some(old(self).url@) ==> {
                &&& outcome matches ChunkOutcome::Abort(ev)
                &&& aborted_event_for(ev, old(self).url@)
                &&& final(signals).abort_signal() is None
                &&& final(signals).pause_signal() == old(signals).pause_signal()
                &&& final(self).last_progress_emit_ms == old(self).last_progress_emit_ms
            },
            checkpoint_due(old(self).last_progress_emit_ms, now_ms) && old(signals).abort_signal()
                != Some(old(self).url@) ==> {
                &&& final(signals).abort_signal() == old(signals).abort_signal()
                &&& final(self).last_progress_emit_ms == now_ms
                &&& (old(signals).pause_signal() == Some(old(self).url@) ==> {
                    &&& outcome matches ChunkOutcome::Pause { progress, paused }
                    &&& progress_event_for(progress, *final(self), now_ms)
                    &&& paused_event_for(paused, old(self).url@)
                    &&& final(signals).pause_signal() is None
                })
                &&& (old(signals).pause_signal() != Some(old(self).url@) ==> {
                    &&& outcome matches ChunkOutcome::Progress(ev)
                    &&& progress_event_for(ev, *final(self), now_ms)
                    &&& final(signals).pause_signal() == old(signals).pause_signal()
                })
            },
    {
        self.downloaded_bytes = self.downloaded_bytes + chunk_len;
        if now_ms - self.last_progress_emit_ms >= PROGRESS_INTERVAL_MS {
            if signals.consume_abort_if_matching(&self.url) {
                ChunkOutcome::Abort(DownloadEvent::Aborted { url: self.url.clone() })
            } else {
                let elapsed_secs = (now_ms - self.started_at_ms) / 1000;
                let session_downloaded = self.downloaded_bytes - self.session_start_offset;
                let speed = download_speed(session_downloaded, elapsed_secs);
                let eta_secs = eta(self.total_length, self.downloaded_bytes, speed);
                let pct = progress_percentage(self.downloaded_bytes, self.total_length);
                let report = DownloadEvent::Progress {
                    url: self.url.clone(),
                    progress_percentage: pct,
                    downloaded_bytes: self.downloaded_bytes,
                    download_speed: speed,
                    eta: eta_secs,
                };
                self.last_progress_emit_ms = now_ms;
                if signals.consume_pause_if_matching(&self.url) {
                    ChunkOutcome::Pause {
                        progress: report,
                        paused: DownloadEvent::Paused { url: self.url.clone() },
                    }
                } else {
                    ChunkOutcome::Progress(report)
                }
            }
        } else {
            ChunkOutcome::Continue
        }
    }

    /// Closes a session whose body stream ran dry without an abort or pause
    /// having stopped it. `Completed` is owed exactly when neither signal is
    /// pending for this URL at loop exit — a signal that arrived after the
    /// last chunk suppresses it — and any signal pending for this URL is
    /// cleared either way, so it cannot leak into a later session for the
    /// same URL. Signals for other URLs are left for their own sessions.
    pub fn on_stream_end(&self, signals: &mut SignalStore) -> (completion: Option<DownloadEvent>)
        ensures
            (completion is Some) == (old(signals).abort_signal() != Some(self.url@) && old(
                signals,
            ).pause_signal() != Some(self.url@)),
            completion matches Some(ev) ==> completed_event_for(ev, self.url@),
            final(signals).abort_signal() == if old(signals).abort_signal() == Some(self.url@) {
                None::<Seq<char>>
            } else {
                old(signals).abort_signal()
            },
            final(signals).pause_signal() == if old(signals).pause_signal() == Some(self.url@) {
                None::<Seq<char>>
            } else {
                old(signals).pause_signal()
            },
    {
        let abort_was_pending = signals.consume_abort_if_matching(&self.url);
        let pause_was_pending = signals.consume_pause_if_matching(&self.url);
        if !abort_was_pending && !pause_was_pending {
            Some(DownloadEvent::Completed { url: self.url.clone() })
        } else {
            None
        }
    }
}

} // verus!
