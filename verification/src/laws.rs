//! Engine-wide guarantees, stated over the session and sink models and
//! proved once and for all.
//!
//! [`downloaded_after`] replays what a streaming loop does to the byte
//! counter: each chunk adds its length, exactly as
//! [`DownloadSession::on_chunk`] guarantees of one step.
//! [`contents_after_chunks`] replays what the append-only sink does to the
//! destination file: each chunk is appended, never truncating what an
//! earlier session left. The proof functions below connect those replays to
//! the terminal states.

use vstd::prelude::*;

use crate::session::{sink_after_outcome, ChunkOutcome, DownloadSession};

verus! {

/// Total length of a sequence of body chunks.
pub open spec fn sum_chunks(lens: Seq<u64>) -> int
    decreases lens.len(),
{
    if lens.len() == 0 {
        0
    } else {
        lens[0] + sum_chunks(lens.drop_first())
    }
}

/// The byte counter after a session that starts at `start` consumes the
/// chunks in order, each step adding its chunk's length as
/// [`DownloadSession::on_chunk`] does.
pub open spec fn downloaded_after(start: int, lens: Seq<u64>) -> int
    decreases lens.len(),
{
    if lens.len() == 0 {
        start
    } else {
        downloaded_after(start + lens[0], lens.drop_first())
    }
}

/// Replaying the chunks adds exactly their total length to the counter.
pub proof fn lemma_downloaded_after_sum(start: int, lens: Seq<u64>)
    ensures
        downloaded_after(start, lens) == start + sum_chunks(lens),
    decreases lens.len(),
{
    if lens.len() > 0 {
        lemma_downloaded_after_sum(start + lens[0], lens.drop_first());
    }
}

/// A completed session has downloaded everything: a session opened at
/// `resume_offset` against a response of `content_length` remaining bytes
/// has `total_length == resume_offset + content_length`, and once the body
/// stream — whose chunks carry exactly those `content_length` bytes — is
/// exhausted, the byte counter stands at exactly `total_length`.
pub proof fn lemma_completed_downloads_everything(
    resume_offset: u64,
    content_length: u64,
    lens: Seq<u64>,
)
    requires
        sum_chunks(lens) == content_length,
    ensures
        downloaded_after(resume_offset as int, lens) == resume_offset + content_length,
{
    lemma_downloaded_after_sum(resume_offset as int, lens);
}

/// The bytes of a sequence of body chunks, in stream order.
pub open spec fn concat_chunks(chunks: Seq<Seq<u8>>) -> Seq<u8>
    decreases chunks.len(),
{
    if chunks.len() == 0 {
        Seq::empty()
    } else {
        chunks[0] + concat_chunks(chunks.drop_first())
    }
}

/// The destination file after an append-only sink, opened over `initial`
/// bytes without truncation, has appended the chunks in order.
pub open spec fn contents_after_chunks(initial: Seq<u8>, chunks: Seq<Seq<u8>>) -> Seq<u8>
    decreases chunks.len(),
{
    if chunks.len() == 0 {
        initial
    } else {
        contents_after_chunks(initial + chunks[0], chunks.drop_first())
    }
}

/// Appending the chunks one by one leaves the initial bytes followed by the
/// chunks' bytes in stream order.
pub proof fn lemma_contents_after_chunks_concat(initial: Seq<u8>, chunks: Seq<Seq<u8>>)
    ensures
        contents_after_chunks(initial, chunks) == initial + concat_chunks(chunks),
    decreases chunks.len(),
{
    if chunks.len() == 0 {
        assert(initial + concat_chunks(chunks) =~= initial);
    } else {
        lemma_contents_after_chunks_concat(initial + chunks[0], chunks.drop_first());
        assert((initial + chunks[0]) + concat_chunks(chunks.drop_first()) =~= initial + (chunks[0]
            + concat_chunks(chunks.drop_first())));
    }
}

/// Resume correctness: a session started with `Range: bytes=n-` against a
/// file holding exactly the first `n` bytes of the resource, whose response
/// body carries the rest of the resource, completes with the file
/// byte-identical to a single uninterrupted download — the whole resource,
/// at its full length.
pub proof fn lemma_resume_reproduces_resource(resource: Seq<u8>, n: int, chunks: Seq<Seq<u8>>)
    requires
        0 <= n <= resource.len(),
        concat_chunks(chunks) == resource.subrange(n, resource.len() as int),
    ensures
        contents_after_chunks(resource.subrange(0, n), chunks) == resource,
        contents_after_chunks(resource.subrange(0, n), chunks).len() == resource.len(),
{
    lemma_contents_after_chunks_concat(resource.subrange(0, n), chunks);
    assert(resource.subrange(0, n) + resource.subrange(n, resource.len() as int) =~= resource);
}

/// Abort removes the destination file: whatever had been written when the
/// abort decision fell, the prescribed sink action leaves no file behind.
pub proof fn lemma_abort_removes_file(contents: Seq<u8>, outcome: ChunkOutcome)
    requires
        outcome is Abort,
    ensures
        sink_after_outcome(contents, outcome) is None,
{
}

/// Pause keeps the destination file: the prescribed sink action leaves the
/// file exactly as written, non-empty and no longer than the total length,
/// ready as the resume point of a later `Range`-qualified session.
pub proof fn lemma_pause_keeps_file(
    session: DownloadSession,
    contents: Seq<u8>,
    outcome: ChunkOutcome,
)
    requires
        session.wf(),
        outcome is Pause,
        contents.len() == session.downloaded_bytes,
        session.downloaded_bytes > 0,
    ensures
        ({
            &&& sink_after_outcome(contents, outcome) matches Some(f)
            &&& f == contents
            &&& 0 < f.len() <= session.total_length
        }),
{
}

} // verus!
