//! Overlap-add continuity of streaming decode, and the token chunks it runs on.
//!
//! Each decoded chunk leaves a tail of its last `overlap_len` samples. The next
//! chunk blends its first samples with that tail by a linear crossfade: sample
//! `i` of a blend of length `n` takes the tail sample with weight `(n - i) / n`
//! and its own with weight `i / n`. The blend length is the overlap requested,
//! clamped to the tail's and the chunk's lengths. The output of a chunk is as
//! long as the chunk itself, and the next tail is cut from the chunk before
//! blending.

use vstd::prelude::*;

use crate::error::{ConfigError, TtsError};

verus! {

/// The weights of one blended sample: the tail sample counts `previous / total`
/// and the chunk's own sample `next / total`.
#[derive(Debug, Clone, Copy, PartialEq, Eq, Structural)]
pub struct FadeWeight {
    pub previous: usize,
    pub next: usize,
    pub total: usize,
}

pub open spec fn min_nat(a: nat, b: nat) -> nat {
    if a <= b {
        a
    } else {
        b
    }
}

/// How many leading samples of a chunk are blended with the previous tail.
pub open spec fn blend_len_spec(overlap_len: nat, tail_len: Option<nat>, chunk_len: nat) -> nat {
    match tail_len {
        Some(t) => min_nat(min_nat(overlap_len, t), chunk_len),
        None => 0,
    }
}

/// The length of an optional tail.
pub open spec fn tail_len_of<S>(tail: Option<&[S]>) -> Option<nat> {
    match tail {
        Some(t) => Some(t@.len()),
        None => None,
    }
}

/// The weights of sample `i` of a blend of length `n`.
pub open spec fn fade_weight_spec(i: nat, n: nat) -> FadeWeight {
    FadeWeight { previous: (n - i) as usize, next: i as usize, total: n as usize }
}

/// Where the next tail starts in a chunk of `chunk_len` samples.
pub open spec fn tail_start_spec(overlap_len: nat, chunk_len: nat) -> nat {
    (chunk_len - min_nat(overlap_len, chunk_len)) as nat
}

/// How many leading samples of a chunk of `chunk_len` samples are blended with
/// a previous tail of `previous_tail_len` samples: none without a tail, else
/// the overlap clamped to both lengths.
pub fn blend_len(overlap_len: usize, previous_tail_len: Option<usize>, chunk_len: usize) -> (r:
    usize)
    ensures
        r == blend_len_spec(
            overlap_len as nat,
            match previous_tail_len {
                Some(t) => Some(t as nat),
                None => None,
            },
            chunk_len as nat,
        ),
{
    match previous_tail_len {
        Some(t) => {
            let a = if overlap_len <= t {
                overlap_len
            } else {
                t
            };
            if a <= chunk_len {
                a
            } else {
                chunk_len
            }
        },
        None => 0,
    }
}

/// Blends a decoded chunk with the tail left by the previous one.
///
/// Returns the chunk's output samples and the tail for the next chunk.
/// `blend` computes one crossfaded sample from the tail sample, the chunk
/// sample and their weights.
pub fn overlap_add<S: Copy, B: Fn(S, S, FadeWeight) -> S>(
    chunk: &[S],
    overlap_len: usize,
    previous_tail: Option<&[S]>,
    blend: B,
) -> (r: (Vec<S>, Vec<S>))
    requires
        forall|p: S, n: S, w: FadeWeight| #[trigger] blend.requires((p, n, w)),
    ensures
        ({
            let n = blend_len_spec(overlap_len as nat, tail_len_of(previous_tail), chunk@.len());
            &&& r.0@.len() == chunk@.len()
            &&& forall|i: int|
                0 <= i < n ==> blend.ensures(
                    (previous_tail.unwrap()@[i], chunk@[i], fade_weight_spec(i as nat, n)),
                    #[trigger] r.0@[i],
                )
            &&& forall|i: int| n <= i < chunk@.len() ==> #[trigger] r.0@[i] == chunk@[i]
            &&& r.1@ == chunk@.subrange(
                tail_start_spec(overlap_len as nat, chunk@.len()) as int,
                chunk@.len() as int,
            )
        }),
{
    let len = chunk.len();
    let n = match previous_tail {
        Some(t) => blend_len(overlap_len, Some(t.len()), len),
        None => blend_len(overlap_len, None, len),
    };
    let mut out: Vec<S> = Vec::with_capacity(len);
    let mut i: usize = 0;
    while i < len
        invariant
            i <= len,
            len == chunk@.len(),
            n == blend_len_spec(overlap_len as nat, tail_len_of(previous_tail), chunk@.len()),
            n <= len,
            previous_tail matches Some(t) ==> n <= t@.len(),
            previous_tail is None ==> n == 0,
            forall|p: S, q: S, w: FadeWeight| #[trigger] blend.requires((p, q, w)),
            out@.len() == i,
            forall|j: int|
                0 <= j < i && j < n ==> blend.ensures(
                    (previous_tail.unwrap()@[j], chunk@[j], fade_weight_spec(j as nat, n as nat)),
                    #[trigger] out@[j],
                ),
            forall|j: int| n <= j < i ==> #[trigger] out@[j] == chunk@[j],
        decreases len - i,
    {
        if i < n {
            match previous_tail {
                Some(t) => {
                    let w = FadeWeight { previous: n - i, next: i, total: n };
                    let s = blend(t[i], chunk[i], w);
                    out.push(s);
                },
                None => {},
            }
        } else {
            out.push(chunk[i]);
        }
        i = i + 1;
    }
    let keep = if overlap_len <= len {
        overlap_len
    } else {
        len
    };
    let start = len - keep;
    let mut tail: Vec<S> = Vec::with_capacity(keep);
    let mut j: usize = start;
    while j < len
        invariant
            start <= j <= len,
            len == chunk@.len(),
            tail@ == chunk@.subrange(start as int, j as int),
        decreases len - j,
    {
        tail.push(chunk[j]);
        j = j + 1;
    }
    (out, tail)
}

/// An overlap longer than the previous tail is clamped to it: when the chunk is
/// at least as long as the tail, the whole tail is blended and no more.
pub proof fn lemma_overlap_clamped_to_tail(overlap_len: nat, tail_len: nat, chunk_len: nat)
    requires
        overlap_len >= tail_len,
        chunk_len >= tail_len,
    ensures
        blend_len_spec(overlap_len, Some(tail_len), chunk_len) == tail_len,
{
}

/// A run of tokens handled as one streaming chunk: positions `start..end`.
#[derive(Debug, Clone, Copy, PartialEq, Eq, Structural)]
pub struct TokenChunk {
    pub start: usize,
    pub end: usize,
    pub is_last: bool,
}

/// `chunks` split `num_tokens` tokens, in order, into runs of `chunk_size`
/// tokens, the last of which may be shorter; only the last is marked last.
pub open spec fn splits_tokens(chunks: Seq<TokenChunk>, num_tokens: nat, chunk_size: nat) -> bool {
    &&& (num_tokens == 0 <==> chunks.len() == 0)
    &&& chunks.len() > 0 ==> chunks[0].start == 0 && chunks.last().end == num_tokens
    &&& forall|i: int|
        0 <= i < chunks.len() ==> {
            &&& (#[trigger] chunks[i]).start < chunks[i].end
            &&& chunks[i].end - chunks[i].start <= chunk_size
            &&& chunks[i].is_last == (i == chunks.len() - 1)
            &&& i < chunks.len() - 1 ==> chunks[i].end - chunks[i].start == chunk_size
                && chunks[i].end == chunks[i + 1].start
        }
}

/// Splits `num_tokens` tokens into streaming chunks of `chunk_size` tokens.
pub fn plan_token_chunks(num_tokens: usize, chunk_size: usize) -> (r: Result<
    Vec<TokenChunk>,
    ConfigError,
>)
    ensures
        chunk_size == 0 ==> r == Err::<Vec<TokenChunk>, ConfigError>(ConfigError::ZeroChunkSize),
        chunk_size > 0 ==> (r matches Ok(v) && splits_tokens(v@, num_tokens as nat, chunk_size as nat)),
{
    if chunk_size == 0 {
        return Err(ConfigError::ZeroChunkSize);
    }
    let mut chunks: Vec<TokenChunk> = Vec::new();
    let mut start: usize = 0;
    while start < num_tokens
        invariant
            start <= num_tokens,
            chunk_size > 0,
            chunks@.len() == 0 ==> start == 0,
            chunks@.len() > 0 ==> chunks@[0].start == 0 && chunks@.last().end == start,
            chunks@.len() > 0 && start < num_tokens ==> chunks@.last().end - chunks@.last().start
                == chunk_size,
            forall|i: int|
                0 <= i < chunks@.len() ==> {
                    &&& (#[trigger] chunks@[i]).start < chunks@[i].end
                    &&& chunks@[i].end <= start
                    &&& chunks@[i].end - chunks@[i].start <= chunk_size
                    &&& chunks@[i].is_last == (chunks@[i].end == num_tokens)
                    &&& i < chunks@.len() - 1 ==> chunks@[i].end - chunks@[i].start == chunk_size
                        && chunks@[i].end == chunks@[i + 1].start && chunks@[i].end < start
                },
        decreases num_tokens - start,
    {
        let end = if num_tokens - start > chunk_size {
            start + chunk_size
        } else {
            num_tokens
        };
        let ghost before = chunks@;
        chunks.push(TokenChunk { start, end, is_last: end == num_tokens });
        proof {
            assert forall|i: int| 0 <= i < before.len() implies chunks@[i] == before[i] by {}
        }
        start = end;
    }
    Ok(chunks)
}

/// The chunk loop of streaming synthesis.
///
/// Chunks are handed out in order. After each chunk is emitted, the consumer
/// answers whether to go on; a "stop" ends the stream before the next chunk
/// is generated.
#[derive(Debug)]
pub struct ChunkStream {
    chunks: Vec<TokenChunk>,
    next: usize,
    stopped: bool,
}

impl ChunkStream {
    /// The chunks of the whole utterance, in order.
    pub closed spec fn chunks_spec(&self) -> Seq<TokenChunk> {
        self.chunks@
    }

    /// How many chunks have been emitted.
    pub closed spec fn next_spec(&self) -> nat {
        self.next as nat
    }

    /// Whether the consumer asked to stop.
    pub closed spec fn stopped_spec(&self) -> bool {
        self.stopped
    }

    pub open spec fn wf(&self) -> bool {
        self.next_spec() <= self.chunks_spec().len()
    }

    /// Whether no chunk is left to generate.
    pub open spec fn done_spec(&self) -> bool {
        self.stopped_spec() || self.next_spec() >= self.chunks_spec().len()
    }

    /// A stream over `num_tokens` tokens in chunks of `chunk_size`.
    pub fn new(num_tokens: usize, chunk_size: usize) -> (r: Result<Self, TtsError>)
        ensures
            chunk_size == 0 ==> r matches Err(TtsError::InvalidConfig(ConfigError::ZeroChunkSize)),
            chunk_size > 0 ==> (r matches Ok(s) && s.wf() && s.next_spec() == 0 && !s.stopped_spec()
                && splits_tokens(s.chunks_spec(), num_tokens as nat, chunk_size as nat)),
    {
        match plan_token_chunks(num_tokens, chunk_size) {
            Ok(chunks) => Ok(ChunkStream { chunks, next: 0, stopped: false }),
            Err(e) => Err(TtsError::InvalidConfig(e)),
        }
    }

    /// The chunk to generate next, or none when the stream is over.
    pub fn next_chunk(&self) -> (r: Option<TokenChunk>)
        requires
            self.wf(),
        ensures
            self.done_spec() ==> r is None,
            !self.done_spec() ==> r == Some(self.chunks_spec()[self.next_spec() as int]),
    {
        if self.stopped || self.next >= self.chunks.len() {
            None
        } else {
            Some(self.chunks[self.next])
        }
    }

    /// Records that the next chunk was emitted and whether the consumer wants
    /// more.
    pub fn record_emitted(&mut self, keep_going: bool)
        requires
            old(self).wf(),
            !old(self).done_spec(),
        ensures
            final(self).wf(),
            final(self).chunks_spec() == old(self).chunks_spec(),
            final(self).next_spec() == old(self).next_spec() + 1,
            final(self).stopped_spec() == !keep_going,
    {
        let n = self.chunks.len();
        // The stream is not done, so `next < n`.
        if self.next < n {
            self.next = self.next + 1;
        }
        self.stopped = !keep_going;
    }

    /// How many chunks have been emitted.
    pub fn emitted(&self) -> (r: usize)
        ensures
            r == self.next_spec(),
    {
        self.next
    }

    /// Whether the stream is over: every chunk was emitted, or the consumer
    /// asked to stop.
    pub fn is_done(&self) -> (r: bool)
        ensures
            r == self.done_spec(),
    {
        self.stopped || self.next >= self.chunks.len()
    }
}

} // verus!
