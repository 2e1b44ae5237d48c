//! The shared store of pending pause and abort requests.
//!
//! The store holds at most one pending abort target and at most one pending
//! pause target at a time. A signal is set by an external caller and
//! consumed (read and cleared in one step) by the session loop, so that once
//! honoured it cannot affect a later, unrelated download of the same URL.
//! Signals are compared by URL equality: a signal targeting one URL never
//! affects a session for another.
//!
//! The embedding application wraps one store in a mutex and hands it to both
//! the command side (setting signals) and the session loop (consuming them);
//! inside the lock every access is the sequential code verified here.

use vstd::prelude::*;

verus! {

/// Process-wide control state: the pending abort target and the pending
/// pause target, each at most one URL.
pub struct SignalStore {
    abort: Option<String>,
    pause: Option<String>,
}

impl SignalStore {
    /// The URL whose download an abort is pending for, if any.
    pub closed spec fn abort_signal(self) -> Option<Seq<char>> {
        match self.abort {
            Some(u) => Some(u@),
            None => None,
        }
    }

    /// The URL whose download a pause is pending for, if any.
    pub closed spec fn pause_signal(self) -> Option<Seq<char>> {
        match self.pause {
            Some(u) => Some(u@),
            None => None,
        }
    }

    /// A store with no pending signal.
    pub fn new() -> (store: SignalStore)
        ensures
            store.abort_signal() is None,
            store.pause_signal() is None,
    {
        SignalStore { abort: None, pause: None }
    }

    /// Records an abort request for `url`, replacing any earlier pending
    /// abort target. Idempotent; observed by the session loop at its next
    /// checkpoint.
    pub fn abort_download(&mut self, url: String)
        ensures
            final(self).abort_signal() == Some(url@),
            final(self).pause_signal() == old(self).pause_signal(),
    {
        self.abort = Some(url);
    }

    /// Records a pause request for `url`, replacing any earlier pending
    /// pause target. Idempotent; observed by the session loop at its next
    /// checkpoint.
    pub fn pause_download(&mut self, url: String)
        ensures
            final(self).pause_signal() == Some(url@),
            final(self).abort_signal() == old(self).abort_signal(),
    {
        self.pause = Some(url);
    }

    /// Atomic check-and-clear of the abort signal: reports whether an abort
    /// is pending for exactly this `url`, and if so clears it. The pause
    /// signal is never touched.
    pub fn consume_abort_if_matching(&mut self, url: &String) -> (consumed: bool)
        ensures
            consumed == (old(self).abort_signal() == Some(url@)),
            final(self).abort_signal() == if consumed {
                None::<Seq<char>>
            } else {
                old(self).abort_signal()
            },
            final(self).pause_signal() == old(self).pause_signal(),
    {
        let matched = match &self.abort {
            Some(target) => target.eq(url),
            None => false,
        };
        if matched {
            self.abort = None;
        }
        matched
    }

    /// Atomic check-and-clear of the pause signal: reports whether a pause
    /// is pending for exactly this `url`, and if so clears it. The abort
    /// signal is never touched.
    pub fn consume_pause_if_matching(&mut self, url: &String) -> (consumed: bool)
        ensures
            consumed == (old(self).pause_signal() == Some(url@)),
            final(self).pause_signal() == if consumed {
                None::<Seq<char>>
            } else {
                old(self).pause_signal()
            },
            final(self).abort_signal() == old(self).abort_signal(),
    {
        let matched = match &self.pause {
            Some(target) => target.eq(url),
            None => false,
        };
        if matched {
            self.pause = None;
        }
        matched
    }
}

} // verus!
