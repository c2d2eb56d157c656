//! The byte budget of one download, checked against the declared length
//! before the body is read and against the running total of every chunk.
use vstd::prelude::*;

verus! {

#[derive(Debug, Clone, Copy, PartialEq, Eq, Structural)]
pub enum TooLarge {
    /// The response declared this many bytes, more than the budget.
    Declared(u64),
    /// The body ran to at least this many bytes, more than the budget.
    Streamed(u64),
}

/// Bytes accepted so far against the budget of one download.
pub struct ByteBudget {
    limit: u64,
    accepted: u64,
}

/// The total that a chunk brings the accepted bytes to, as the error reports it.
pub open spec fn reported_total(accepted: u64, chunk_len: nat) -> u64 {
    if accepted + chunk_len > u64::MAX {
        u64::MAX
    } else {
        (accepted + chunk_len) as u64
    }
}

/// Bytes kept after feeding `chunks`, one by one, to a budget of `limit`
/// that had kept `start`: a chunk that would overrun it ends the download.
pub open spec fn kept_after(limit: nat, start: nat, chunks: Seq<nat>) -> nat
    decreases chunks.len(),
{
    if chunks.len() == 0 || start + chunks[0] > limit {
        start
    } else {
        kept_after(limit, start + chunks[0], chunks.drop_first())
    }
}

/// Bytes a whole download keeps: none when the declared length is over the
/// budget (the body is never read), else the chunks taken before any overrun.
pub open spec fn bytes_kept(limit: u64, declared_length: Option<u64>, chunks: Seq<nat>) -> nat {
    if over_declared(limit, declared_length) {
        0
    } else {
        kept_after(limit as nat, 0, chunks)
    }
}

/// The response declared a length above the budget.
pub open spec fn over_declared(limit: u64, declared_length: Option<u64>) -> bool {
    declared_length matches Some(d) && d > limit
}

impl ByteBudget {
    pub closed spec fn limit_spec(&self) -> nat {
        self.limit as nat
    }

    pub closed spec fn accepted_spec(&self) -> nat {
        self.accepted as nat
    }

    /// Never more bytes accepted than the budget allows.
    pub open spec fn wf(&self) -> bool {
        self.accepted_spec() <= self.limit_spec()
    }

    /// Starts a download of at most `limit` bytes. A declared length above the
    /// budget fails at once, before any of the body is read.
    pub fn open(limit: u64, declared_length: Option<u64>) -> (r: Result<ByteBudget, TooLarge>)
        ensures
            over_declared(limit, declared_length) ==> r == Err::<ByteBudget, TooLarge>(
                TooLarge::Declared(declared_length.unwrap()),
            ),
            !over_declared(limit, declared_length) ==> (r matches Ok(b) && b.wf()
                && b.limit_spec() == limit && b.accepted_spec() == 0),
    {
        if let Some(d) = declared_length {
            if d > limit {
                return Err(TooLarge::Declared(d));
            }
        }
        Ok(ByteBudget { limit, accepted: 0 })
    }

    /// Takes a chunk of `chunk_len` bytes. When the running total would pass
    /// the budget the chunk is refused and nothing more is accepted from it.
    pub fn accept_chunk(&mut self, chunk_len: usize) -> (r: Result<(), TooLarge>)
        requires
            old(self).wf(),
        ensures
            final(self).wf(),
            final(self).limit_spec() == old(self).limit_spec(),
            old(self).accepted_spec() + chunk_len <= old(self).limit_spec() ==> r is Ok
                && final(self).accepted_spec() == old(self).accepted_spec() + chunk_len,
            old(self).accepted_spec() + chunk_len > old(self).limit_spec() ==> r == Err::<
                (),
                TooLarge,
            >(TooLarge::Streamed(reported_total(old(self).accepted_spec() as u64, chunk_len as nat)))
                && final(self).accepted_spec() == old(self).accepted_spec(),
    {
        let len = chunk_len as u64;
        if len > self.limit - self.accepted {
            let total = if len > u64::MAX - self.accepted {
                u64::MAX
            } else {
                self.accepted + len
            };
            return Err(TooLarge::Streamed(total));
        }
        self.accepted = self.accepted + len;
        Ok(())
    }

    pub fn limit(&self) -> (r: u64)
        ensures
            r == self.limit_spec(),
    {
        self.limit
    }

    pub fn accepted(&self) -> (r: u64)
        ensures
            r == self.accepted_spec(),
    {
        self.accepted
    }
}

proof fn lemma_kept_within(limit: nat, start: nat, chunks: Seq<nat>)
    requires
        start <= limit,
    ensures
        kept_after(limit, start, chunks) <= limit,
    decreases chunks.len(),
{
    if chunks.len() > 0 && start + chunks[0] <= limit {
        lemma_kept_within(limit, start + chunks[0], chunks.drop_first());
    }
}

/// Whatever the server declares and however many bytes it streams, a download
/// never keeps more bytes than its budget.
pub proof fn budget_is_never_exceeded(limit: u64, declared_length: Option<u64>, chunks: Seq<nat>)
    ensures
        bytes_kept(limit, declared_length, chunks) <= limit,
{
    if !over_declared(limit, declared_length) {
        lemma_kept_within(limit as nat, 0, chunks);
    }
}

/// The total length of a sequence of chunks.
pub open spec fn total(chunks: Seq<nat>) -> nat
    decreases chunks.len(),
{
    if chunks.len() == 0 {
        0
    } else {
        chunks[0] + total(chunks.drop_first())
    }
}

/// How streaming `chunks` into a budget of `limit` that has kept `start` ends:
/// the first chunk that passes the budget fails with the total it reached,
/// else the whole total is kept. Each step is one `accept_chunk`.
pub open spec fn stream_outcome(limit: u64, start: nat, chunks: Seq<nat>) -> Result<nat, TooLarge>
    decreases chunks.len(),
{
    if chunks.len() == 0 {
        Ok(start)
    } else if start + chunks[0] > limit {
        Err(TooLarge::Streamed(reported_total(start as u64, chunks[0])))
    } else {
        stream_outcome(limit, start + chunks[0], chunks.drop_first())
    }
}

/// How a whole download ends: a declared length over the budget fails before
/// any chunk is read; otherwise the chunks are streamed.
pub open spec fn download_outcome(limit: u64, declared_length: Option<u64>, chunks: Seq<nat>) -> Result<
    nat,
    TooLarge,
> {
    if over_declared(limit, declared_length) {
        Err(TooLarge::Declared(declared_length.unwrap()))
    } else {
        stream_outcome(limit, 0, chunks)
    }
}

proof fn lemma_stream_outcome(limit: u64, start: nat, chunks: Seq<nat>)
    requires
        start <= limit,
    ensures
        stream_outcome(limit, start, chunks) is Err <==> start + total(chunks) > limit,
        stream_outcome(limit, start, chunks) is Err ==> stream_outcome(limit, start, chunks) matches Err(
            TooLarge::Streamed(_),
        ),
        stream_outcome(limit, start, chunks) matches Ok(t) ==> t == start + total(chunks),
    decreases chunks.len(),
{
    if chunks.len() > 0 && start + chunks[0] <= limit {
        lemma_stream_outcome(limit, start + chunks[0], chunks.drop_first());
    }
}

/// A download fails exactly when its declared length or the total of its
/// chunks passes the budget. A declared overrun is reported as declared, before
/// any chunk is read; an omitted or understated length as streamed. A download
/// that succeeds keeps every byte of every chunk, and no more than the budget.
pub proof fn download_fails_iff_over_budget(limit: u64, declared_length: Option<u64>, chunks: Seq<nat>)
    ensures
        download_outcome(limit, declared_length, chunks) is Err <==> over_declared(limit, declared_length)
            || total(chunks) > limit,
        over_declared(limit, declared_length) ==> download_outcome(limit, declared_length, chunks)
            == Err::<nat, TooLarge>(TooLarge::Declared(declared_length.unwrap())),
        !over_declared(limit, declared_length) && total(chunks) > limit ==> download_outcome(
            limit,
            declared_length,
            chunks,
        ) matches Err(TooLarge::Streamed(_)),
        download_outcome(limit, declared_length, chunks) matches Ok(t) ==> t == total(chunks) && t
            <= limit,
{
    lemma_stream_outcome(limit, 0, chunks);
}

/// `accept_chunk` is one step of `stream_outcome`: its result on one chunk,
/// followed by the rest, is how the whole stream ends.
pub proof fn chunk_is_one_stream_step(limit: u64, start: nat, chunk: nat, rest: Seq<nat>)
    ensures
        stream_outcome(limit, start, seq![chunk] + rest) == if start + chunk > limit {
            Err(TooLarge::Streamed(reported_total(start as u64, chunk)))
        } else {
            stream_outcome(limit, start + chunk, rest)
        },
{
    assert((seq![chunk] + rest).drop_first() =~= rest);
}

} // verus!
