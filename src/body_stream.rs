use vstd::prelude::*;
use crate::error::{Failure, StorageError, transport_error};

verus! {

/// A chunk of a response body, passed through as the transport produced it.
#[verifier::external_type_specification]
#[verifier::external_body]
pub struct ExBytes(bytes::Bytes);

/// The view of what one read of the transport's body produced: a chunk, a
/// read failure with its description, or the end of the body.
pub open spec fn polled_view(p: Option<Result<bytes::Bytes, String>>) -> Option<Result<bytes::Bytes, Seq<char>>> {
    match p {
        Some(Ok(c)) => Some(Ok(c)),
        Some(Err(d)) => Some(Err(d@)),
        None => None,
    }
}

/// The view of one item handed to the consumer of a body stream.
pub open spec fn item_view(i: Option<Result<bytes::Bytes, StorageError>>) -> Option<Result<bytes::Bytes, Failure>> {
    match i {
        Some(Ok(c)) => Some(Ok(c)),
        Some(Err(e)) => Some(Err(e@)),
        None => None,
    }
}

/// One step of a body stream: whether it has finished afterwards, and the
/// item it yields for what the transport produced. A finished stream yields
/// nothing more; a read failure is yielded once and finishes the stream.
pub open spec fn stream_step(
    finished: bool,
    polled: Option<Result<bytes::Bytes, Seq<char>>>,
) -> (bool, Option<Result<bytes::Bytes, Failure>>) {
    if finished {
        (true, None)
    } else {
        match polled {
            Some(Ok(c)) => (false, Some(Ok(c))),
            Some(Err(d)) => (true, Some(Err(Failure::Transport(d)))),
            None => (true, None),
        }
    }
}

/// The items that a body stream in state `finished` yields for the reads
/// `polls`, one item per read.
pub open spec fn stream_items(
    finished: bool,
    polls: Seq<Option<Result<bytes::Bytes, Seq<char>>>>,
) -> Seq<Option<Result<bytes::Bytes, Failure>>>
    decreases polls.len(),
{
    if polls.len() == 0 {
        Seq::empty()
    } else {
        let (f, item) = stream_step(finished, polls[0]);
        seq![item] + stream_items(f, polls.drop_first())
    }
}

/// The reads that deliver `chunks` one after another.
pub open spec fn chunk_reads(chunks: Seq<bytes::Bytes>) -> Seq<Option<Result<bytes::Bytes, Seq<char>>>> {
    Seq::new(chunks.len(), |i: int| Some(Ok(chunks[i])))
}

/// The items that hand `chunks` to the consumer one after another.
pub open spec fn chunk_items(chunks: Seq<bytes::Bytes>) -> Seq<Option<Result<bytes::Bytes, Failure>>> {
    Seq::new(chunks.len(), |i: int| Some(Ok(chunks[i])))
}

/// `n` ends of stream.
pub open spec fn ends(n: nat) -> Seq<Option<Result<bytes::Bytes, Failure>>> {
    Seq::new(n, |i: int| None)
}

/// A finished stream yields only ends of stream, whatever is read.
pub proof fn lemma_finished_stays_finished(polls: Seq<Option<Result<bytes::Bytes, Seq<char>>>>)
    ensures
        stream_items(true, polls) == ends(polls.len()),
    decreases polls.len(),
{
    if polls.len() > 0 {
        lemma_finished_stays_finished(polls.drop_first());
        assert(stream_items(true, polls) =~= ends(polls.len()));
    }
}

/// Chunks read before anything else go to the consumer unchanged, in order.
pub proof fn lemma_chunks_pass_through(
    chunks: Seq<bytes::Bytes>,
    rest: Seq<Option<Result<bytes::Bytes, Seq<char>>>>,
)
    ensures
        stream_items(false, chunk_reads(chunks) + rest) == chunk_items(chunks) + stream_items(
            false,
            rest,
        ),
    decreases chunks.len(),
{
    if chunks.len() > 0 {
        let tail = chunks.drop_first();
        lemma_chunks_pass_through(tail, rest);
        let polls = chunk_reads(chunks) + rest;
        assert(polls.drop_first() =~= chunk_reads(tail) + rest);
        assert(chunk_items(chunks) =~= seq![chunk_items(chunks)[0]] + chunk_items(tail));
        assert(stream_items(false, polls) =~= chunk_items(chunks) + stream_items(false, rest));
    }
}

/// A body of `n` chunks yields exactly those `n` chunks in order, then
/// ends, and nothing after that, whatever further reads produce.
pub proof fn lemma_whole_body(
    chunks: Seq<bytes::Bytes>,
    after: Seq<Option<Result<bytes::Bytes, Seq<char>>>>,
)
    ensures
        stream_items(false, chunk_reads(chunks) + seq![None] + after) == chunk_items(chunks)
            + ends(after.len() + 1),
{
    let rest = seq![None] + after;
    assert(chunk_reads(chunks) + seq![None] + after =~= chunk_reads(chunks) + rest);
    lemma_chunks_pass_through(chunks, rest);
    assert(rest.drop_first() =~= after);
    lemma_finished_stays_finished(after);
    assert(stream_items(false, rest) =~= ends(after.len() + 1));
}

/// A read failure on chunk `k` of a body yields the `k - 1` chunks before it
/// in order, then one `HttpTransportError`, and nothing after that.
pub proof fn lemma_failed_read(
    before: Seq<bytes::Bytes>,
    details: Seq<char>,
    after: Seq<Option<Result<bytes::Bytes, Seq<char>>>>,
)
    ensures
        stream_items(false, chunk_reads(before) + seq![Some(Err(details))] + after) == chunk_items(
            before,
        ) + seq![Some(Err(Failure::Transport(details)))] + ends(after.len()),
{
    let rest = seq![Some(Err(details))] + after;
    assert(chunk_reads(before) + seq![Some(Err(details))] + after =~= chunk_reads(before) + rest);
    lemma_chunks_pass_through(before, rest);
    assert(rest.drop_first() =~= after);
    lemma_finished_stays_finished(after);
    assert(stream_items(false, rest) =~= seq![Some(Err(Failure::Transport(details)))] + ends(
        after.len(),
    ));
}

/// A single-pass stream over a response body: each chunk is handed on as it
/// arrives, and the first read failure or the end of the body finishes it.
#[derive(Debug)]
pub struct BodyStream {
    finished: bool,
}

impl View for BodyStream {
    type V = bool;

    /// Whether the stream has finished.
    closed spec fn view(&self) -> bool {
        self.finished
    }
}

impl BodyStream {
    /// A stream over a body from which nothing has been read yet.
    pub fn new() -> (r: BodyStream)
        ensures
            !r@,
    {
        BodyStream { finished: false }
    }

    /// Whether the stream has finished.
    pub fn is_finished(&self) -> (r: bool)
        ensures
            r == self@,
    {
        self.finished
    }

    /// The next item for the consumer, given what the next read of the body
    /// produced: the chunk itself, `HttpTransportError` for a read failure,
    /// or `None` at the end. Once finished, the stream yields only `None`.
    pub fn next_item(&mut self, polled: Option<Result<bytes::Bytes, String>>) -> (r: Option<
        Result<bytes::Bytes, StorageError>,
    >)
        ensures
            (final(self)@, item_view(r)) == stream_step(old(self)@, polled_view(polled)),
    {
        if self.finished {
            return None;
        }
        match polled {
            Some(Ok(chunk)) => Some(Ok(chunk)),
            Some(Err(details)) => {
                self.finished = true;
                Some(Err(transport_error(&details)))
            },
            None => {
                self.finished = true;
                None
            },
        }
    }
}

} // verus!
