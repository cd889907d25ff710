//! The audio feeder: what to do with each read from an audio source.
//!
//! The caller owns the source and the engine. It reads up to `CHUNK_SIZE`
//! bytes at a time, hands the outcome of each read to an `AudioFeeder`, and
//! performs the action it gets back: push the chunk (then pause, when paced),
//! or stop.
use vstd::prelude::*;

verus! {

/// Largest number of bytes pushed to the engine at once.
pub const CHUNK_SIZE: usize = 2048;

/// Pause between two chunks when delivery is paced, in milliseconds.
pub const PACING_DELAY_MS: u64 = 20;

/// What the caller does after a read.
#[derive(Clone, Copy, Debug, PartialEq, Eq, Structural)]
pub enum FeedAction {
    /// Push the first `len` bytes that were read, then pause `delay_ms`.
    Push { len: usize, delay_ms: u64 },
    /// The source is exhausted (or failed): stop feeding.
    Finish,
}

/// The pause after each chunk in the given pacing mode.
pub open spec fn delay_for(paced: bool) -> u64 {
    if paced {
        PACING_DELAY_MS
    } else {
        0
    }
}

/// The action that follows a read: `None` is a failed read, `Some(n)` a read
/// of `n` bytes. A failed or empty read ends the feed, and nothing is pushed
/// once it has ended.
pub open spec fn feed_action(finished: bool, read: Option<usize>, paced: bool) -> FeedAction {
    if finished {
        FeedAction::Finish
    } else {
        match read {
            Some(n) => if n == 0 {
                FeedAction::Finish
            } else {
                FeedAction::Push { len: n, delay_ms: delay_for(paced) }
            },
            None => FeedAction::Finish,
        }
    }
}

/// Decides, read by read, what happens to an audio stream.
pub struct AudioFeeder {
    paced: bool,
    finished: bool,
}

impl AudioFeeder {
    /// Whether delivery is paced to emulate live audio.
    pub closed spec fn is_paced(&self) -> bool {
        self.paced
    }

    /// Whether the feed has ended.
    pub closed spec fn is_finished(&self) -> bool {
        self.finished
    }

    /// A feeder at the start of a stream.
    pub fn new(paced: bool) -> (r: AudioFeeder)
        ensures
            r.is_paced() == paced,
            !r.is_finished(),
    {
        AudioFeeder { paced, finished: false }
    }

    pub fn finished(&self) -> (r: bool)
        ensures
            r == self.is_finished(),
    {
        self.finished
    }

    /// Takes the outcome of one read into a buffer of `CHUNK_SIZE` bytes and
    /// returns what to do with it.
    pub fn on_read(&mut self, read: Option<usize>) -> (r: FeedAction)
        requires
            read matches Some(n) ==> n <= CHUNK_SIZE,
        ensures
            r == feed_action(old(self).is_finished(), read, old(self).is_paced()),
            final(self).is_paced() == old(self).is_paced(),
            final(self).is_finished() == (r == FeedAction::Finish),
    {
        let action = if self.finished {
            FeedAction::Finish
        } else {
            match read {
                Some(n) => if n == 0 {
                    FeedAction::Finish
                } else {
                    FeedAction::Push {
                        len: n,
                        delay_ms: if self.paced {
                            PACING_DELAY_MS
                        } else {
                            0
                        },
                    }
                },
                None => FeedAction::Finish,
            }
        };
        self.finished = action == FeedAction::Finish;
        action
    }
}

/// What a read returns from an in-memory source with `remaining` bytes left:
/// as much as the chunk buffer holds.
pub open spec fn full_read(remaining: nat) -> usize {
    if remaining < CHUNK_SIZE as nat {
        remaining as usize
    } else {
        CHUNK_SIZE
    }
}

/// The actions taken, in order, when a fresh feeder is driven by an in-memory
/// source of `remaining` bytes until it finishes.
pub open spec fn feed_trace(remaining: nat, paced: bool) -> Seq<FeedAction>
    decreases remaining,
{
    let a = feed_action(false, Some(full_read(remaining)), paced);
    match a {
        FeedAction::Push { len, .. } => if 0 < len <= remaining {
            seq![a] + feed_trace((remaining - len) as nat, paced)
        } else {
            seq![a]
        },
        FeedAction::Finish => seq![a],
    }
}

/// An empty source pushes nothing: the first action already finishes the feed.
pub proof fn lemma_empty_source_pushes_nothing(paced: bool)
    ensures
        feed_trace(0, paced) == seq![FeedAction::Finish],
{
    assert(feed_trace(0, paced) =~= seq![FeedAction::Finish]);
}

/// A source whose length is `k` whole chunks is pushed as exactly `k` full
/// chunks, then the feed finishes.
pub proof fn lemma_whole_chunks_pushed_in_full(k: nat, paced: bool)
    ensures
        feed_trace(k * CHUNK_SIZE as nat, paced).len() == k + 1,
        forall|i: int|
            0 <= i < k ==> #[trigger] feed_trace(k * CHUNK_SIZE as nat, paced)[i]
                == (FeedAction::Push { len: CHUNK_SIZE, delay_ms: delay_for(paced) }),
        feed_trace(k * CHUNK_SIZE as nat, paced)[k as int] == FeedAction::Finish,
    decreases k,
{
    if k == 0 {
        lemma_empty_source_pushes_nothing(paced);
    } else {
        let n = k * CHUNK_SIZE as nat;
        assert(n == (k - 1) * CHUNK_SIZE as nat + CHUNK_SIZE as nat) by (nonlinear_arith)
            requires n == k * CHUNK_SIZE as nat, k > 0;
        lemma_whole_chunks_pushed_in_full((k - 1) as nat, paced);
        let rest = feed_trace(((k - 1) as nat) * CHUNK_SIZE as nat, paced);
        assert(feed_trace(n, paced) == seq![FeedAction::Push { len: CHUNK_SIZE, delay_ms: delay_for(paced) }] + rest);
        assert forall|i: int| 0 <= i < k implies #[trigger] feed_trace(n, paced)[i]
            == (FeedAction::Push { len: CHUNK_SIZE, delay_ms: delay_for(paced) }) by {
            if i > 0 {
                assert(feed_trace(n, paced)[i] == rest[i - 1]);
            }
        }
    }
}

} // verus!
