//! Line-oriented command framing and reply-completion detection.
//!
//! A command is sent as its bytes followed by a two-byte terminator
//! (carriage return, line feed). The reply stream is not parsed: an
//! exchange is complete as soon as two line-feed bytes have been observed
//! across the read chunks, whatever text surrounds them.

use vstd::prelude::*;

verus! {

/// First byte of the command terminator.
pub const CARRIAGE_RETURN: u8 = 13;

/// Second byte of the command terminator; also the byte counted to detect
/// a complete reply.
pub const LINE_FEED: u8 = 10;

/// Number of line-feed bytes after which a reply is considered complete.
pub const COMPLETION_THRESHOLD: u64 = 2;

/// Number of line-feed bytes in `s`.
pub open spec fn line_feed_count(s: Seq<u8>) -> nat
    decreases s.len(),
{
    if s.len() == 0 {
        0
    } else {
        line_feed_count(s.drop_last()) + if s.last() == LINE_FEED {
            1nat
        } else {
            0nat
        }
    }
}

/// There are never more line feeds in a chunk than bytes.
pub proof fn lemma_line_feed_count_le_len(s: Seq<u8>)
    ensures
        line_feed_count(s) <= s.len(),
    decreases s.len(),
{
    if s.len() > 0 {
        lemma_line_feed_count_le_len(s.drop_last());
    }
}

/// Builds the wire form of a command: its bytes followed by the two-byte
/// terminator.
pub fn frame_command(command: &[u8]) -> (line: Vec<u8>)
    ensures
        line@ == command@ + seq![CARRIAGE_RETURN, LINE_FEED],
{
    let mut line: Vec<u8> = Vec::new();
    let mut i: usize = 0;
    while i < command.len()
        invariant
            i <= command@.len(),
            line@ == command@.take(i as int),
        decreases command@.len() - i,
    {
        line.push(command[i]);
        proof {
            assert(command@.take(i + 1) =~= command@.take(i as int).push(command@[i as int]));
        }
        i = i + 1;
    }
    proof {
        assert(command@.take(command@.len() as int) =~= command@);
    }
    line.push(CARRIAGE_RETURN);
    line.push(LINE_FEED);
    proof {
        assert(line@ =~= command@ + seq![CARRIAGE_RETURN, LINE_FEED]);
    }
    line
}

/// Counts the line-feed bytes in `chunk`.
pub fn count_line_feeds(chunk: &[u8]) -> (n: usize)
    ensures
        n == line_feed_count(chunk@),
{
    let mut n: usize = 0;
    let mut i: usize = 0;
    while i < chunk.len()
        invariant
            i <= chunk@.len(),
            n == line_feed_count(chunk@.take(i as int)),
            n <= i,
        decreases chunk@.len() - i,
    {
        proof {
            assert(chunk@.take(i + 1).drop_last() =~= chunk@.take(i as int));
            assert(chunk@.take(i + 1).last() == chunk@[i as int]);
        }
        if chunk[i] == LINE_FEED {
            n = n + 1;
        }
        i = i + 1;
    }
    proof {
        assert(chunk@.take(chunk@.len() as int) =~= chunk@);
    }
    n
}

/// Line-feed bytes over a whole sequence of reply chunks, in order.
pub open spec fn total_line_feeds(chunks: Seq<Seq<u8>>) -> nat
    decreases chunks.len(),
{
    if chunks.len() == 0 {
        0
    } else {
        total_line_feeds(chunks.drop_last()) + line_feed_count(chunks.last())
    }
}

/// An exchange that has absorbed `chunks` is complete exactly when their
/// line feeds total at least the threshold.
pub open spec fn complete_after(chunks: Seq<Seq<u8>>) -> bool {
    total_line_feeds(chunks) >= COMPLETION_THRESHOLD
}

/// Completion is blind to reply content: two reply streams whose chunks
/// carry the same number of line feeds complete alike, whatever the bytes
/// around the line feeds say.
pub proof fn lemma_completion_content_blind(chunks: Seq<Seq<u8>>, other: Seq<Seq<u8>>)
    requires
        chunks.len() == other.len(),
        forall|i: int|
            0 <= i < chunks.len() ==> line_feed_count(chunks[i]) == line_feed_count(other[i]),
    ensures
        total_line_feeds(chunks) == total_line_feeds(other),
        complete_after(chunks) == complete_after(other),
    decreases chunks.len(),
{
    if chunks.len() > 0 {
        assert(chunks.drop_last().len() == other.drop_last().len());
        assert(forall|i: int|
            0 <= i < chunks.drop_last().len() ==> line_feed_count(chunks.drop_last()[i])
                == line_feed_count(other.drop_last()[i]));
        lemma_completion_content_blind(chunks.drop_last(), other.drop_last());
        assert(line_feed_count(chunks.last()) == line_feed_count(other[chunks.len() - 1]));
    }
}

/// A completed exchange stays completed under further chunks: the running
/// count never decreases.
pub proof fn lemma_completion_monotone(chunks: Seq<Seq<u8>>, more: Seq<u8>)
    ensures
        total_line_feeds(chunks.push(more)) == total_line_feeds(chunks) + line_feed_count(more),
        complete_after(chunks) ==> complete_after(chunks.push(more)),
{
    assert(chunks.push(more).drop_last() =~= chunks);
}

/// Why a command exchange failed: the single read attempt ran out of time,
/// or the transport itself reported an error. The two causes stay distinct.
#[derive(Clone, Copy, Debug, PartialEq, Eq, Structural)]
pub enum CommandError {
    Timeout,
    Transport,
}

/// Outcome of one read attempt during a command exchange, as the driver
/// observed it.
pub enum ReadEvent {
    /// The read returned these bytes within its time budget.
    Data(Vec<u8>),
    /// The read attempt exceeded its per-read timeout.
    TimedOut,
    /// The transport reported an error.
    Failed,
}

/// State of a command exchange after a step.
#[derive(Clone, Copy, Debug, PartialEq, Eq, Structural)]
pub enum ExchangeStatus {
    /// Fewer than two line feeds seen so far; keep reading.
    Pending,
    /// Two line feeds seen; the exchange succeeded.
    Complete,
    /// The exchange failed for the tagged cause.
    Aborted(CommandError),
}

/// The two failure tags never coincide: a timed-out read and a transport
/// error abort an exchange distinguishably.
pub proof fn lemma_abort_tags_distinct()
    ensures
        ExchangeStatus::Aborted(CommandError::Timeout) != ExchangeStatus::Aborted(
            CommandError::Transport,
        ),
{
}

/// One command exchange: it remembers only how many terminator bytes the
/// reply stream has shown so far.
pub struct CommandExchange {
    /// Line-feed bytes observed across all chunks absorbed so far.
    pub observed: u64,
}

impl CommandExchange {
    /// Starts an exchange with an empty reply stream.
    pub fn new() -> (e: CommandExchange)
        ensures
            e.observed == 0,
    {
        CommandExchange { observed: 0 }
    }

    /// Folds one reply chunk into the running line-feed count.
    /// Returns whether the exchange is now complete.
    pub fn absorb(&mut self, chunk: &[u8]) -> (done: bool)
        requires
            old(self).observed + chunk@.len() <= u64::MAX,
        ensures
            final(self).observed == old(self).observed + line_feed_count(chunk@),
            done == (final(self).observed >= COMPLETION_THRESHOLD),
    {
        proof {
            lemma_line_feed_count_le_len(chunk@);
        }
        let seen = count_line_feeds(chunk);
        self.observed = self.observed + seen as u64;
        self.observed >= COMPLETION_THRESHOLD
    }

    /// Whether enough terminator bytes have been seen to declare success.
    pub fn is_complete(&self) -> (r: bool)
        ensures
            r == (self.observed >= COMPLETION_THRESHOLD),
    {
        self.observed >= COMPLETION_THRESHOLD
    }

    /// Advances the exchange by one read attempt's outcome.
    ///
    /// A timed-out read aborts with the timeout tag, a transport error with
    /// the transport tag; data only ever moves the exchange toward
    /// completion, regardless of what the bytes say.
    pub fn step(&mut self, event: ReadEvent) -> (status: ExchangeStatus)
        requires
            event is Data ==> old(self).observed + event->Data_0@.len() <= u64::MAX,
        ensures
            match event {
                ReadEvent::Data(chunk) => {
                    &&& final(self).observed == old(self).observed + line_feed_count(chunk@)
                    &&& status == (if final(self).observed >= COMPLETION_THRESHOLD {
                        ExchangeStatus::Complete
                    } else {
                        ExchangeStatus::Pending
                    })
                },
                ReadEvent::TimedOut => {
                    &&& final(self).observed == old(self).observed
                    &&& status == ExchangeStatus::Aborted(CommandError::Timeout)
                },
                ReadEvent::Failed => {
                    &&& final(self).observed == old(self).observed
                    &&& status == ExchangeStatus::Aborted(CommandError::Transport)
                },
            },
    {
        match event {
            ReadEvent::Data(chunk) => {
                let done = self.absorb(chunk.as_slice());
                if done {
                    ExchangeStatus::Complete
                } else {
                    ExchangeStatus::Pending
                }
            },
            ReadEvent::TimedOut => ExchangeStatus::Aborted(CommandError::Timeout),
            ReadEvent::Failed => ExchangeStatus::Aborted(CommandError::Transport),
        }
    }
}

} // verus!
