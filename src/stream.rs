//! Reading an inbound byte stream to its end under a hard size ceiling.
//!
//! The reader is driven one event at a time: each chunk that the transport
//! delivers, its end, a transport failure, or a cancellation. It never holds
//! more than its limit, and it hands out its buffer only when the stream ends.
use vstd::prelude::*;

verus! {

/// The ceiling that applies when the caller gives none: 64 KiB.
pub const DEFAULT_READ_LIMIT: usize = 64 * 1024;

/// The failures of a bounded read.
#[derive(Debug, PartialEq, Eq)]
pub enum StreamError {
    /// The transport reported an error; its description is kept.
    ReadFailure(String),
    /// The stream held more bytes than the limit.
    OverLimit,
    /// The read was cancelled before the stream ended.
    Cancelled,
}

/// What the transport reports to a read in progress.
#[derive(Debug)]
pub enum StreamEvent {
    /// The next bytes of the stream, in order.
    Chunk(Vec<u8>),
    /// The stream ended.
    End,
    /// The transport failed, with a description of the cause.
    Failed(String),
    /// The surrounding task gave up on the read.
    Cancelled,
}

/// The state of a read after an event.
#[derive(Debug)]
pub enum ReadProgress {
    /// More of the stream is awaited.
    Reading(BoundedRead),
    /// The stream ended: all of its bytes, in order.
    Done(Vec<u8>),
    /// The read failed; what was received is dropped.
    Failed(StreamError),
}

/// A read in progress: the bytes received so far and the ceiling.
#[derive(Debug)]
pub struct BoundedRead {
    received: Vec<u8>,
    limit: usize,
}

/// The limit in effect for an optional one.
pub open spec fn effective_limit(limit: Option<usize>) -> usize {
    match limit {
        Some(n) => n,
        None => DEFAULT_READ_LIMIT,
    }
}

/// The buffer after one more chunk, or `None` where it would pass the limit.
pub open spec fn accept(limit: nat, received: Seq<u8>, chunk: Seq<u8>) -> Option<Seq<u8>> {
    if received.len() + chunk.len() <= limit {
        Some(received + chunk)
    } else {
        None
    }
}

/// The buffer after each chunk in turn, or `None` once one passes the limit.
pub open spec fn accept_all(limit: nat, received: Seq<u8>, chunks: Seq<Seq<u8>>) -> Option<Seq<u8>>
    decreases chunks.len(),
{
    if chunks.len() == 0 {
        Some(received)
    } else {
        match accept_all(limit, received, chunks.drop_last()) {
            Some(before) => accept(limit, before, chunks.last()),
            None => None,
        }
    }
}

/// The chunks joined in order.
pub open spec fn concat(chunks: Seq<Seq<u8>>) -> Seq<u8>
    decreases chunks.len(),
{
    if chunks.len() == 0 {
        Seq::empty()
    } else {
        concat(chunks.drop_last()) + chunks.last()
    }
}

impl BoundedRead {
    #[verifier::type_invariant]
    spec fn within_limit(&self) -> bool {
        self.received@.len() <= self.limit
    }

    /// The bytes received so far.
    pub closed spec fn received(&self) -> Seq<u8> {
        self.received@
    }

    /// The ceiling of this read.
    pub closed spec fn limit(&self) -> usize {
        self.limit
    }

    /// Starts a read with the given ceiling, or the default one.
    pub fn new(limit: Option<usize>) -> (r: BoundedRead)
        ensures
            r.received() == Seq::<u8>::empty(),
            r.limit() == effective_limit(limit),
    {
        let limit = match limit {
            Some(n) => n,
            None => DEFAULT_READ_LIMIT,
        };
        BoundedRead { received: Vec::new(), limit }
    }

    /// How many more bytes fit under the limit.
    pub fn room(&self) -> (r: usize)
        ensures
            r == self.limit() - self.received().len(),
    {
        proof {
            use_type_invariant(self);
        }
        self.limit - self.received.len()
    }

    /// Takes one event of the stream. A chunk is kept while the total stays
    /// within the limit and fails the read with `OverLimit` otherwise; the end
    /// hands out every byte received; a transport failure or a cancellation
    /// fails the read and drops what was received.
    pub fn step(self, event: StreamEvent) -> (r: ReadProgress)
        ensures
            match event {
                StreamEvent::Chunk(c) => match accept(self.limit() as nat, self.received(), c@) {
                    Some(next) => r matches ReadProgress::Reading(s) && s.received() == next
                        && s.limit() == self.limit(),
                    None => r matches ReadProgress::Failed(StreamError::OverLimit),
                },
                StreamEvent::End => r matches ReadProgress::Done(buf) && buf@ == self.received(),
                StreamEvent::Failed(msg) => r == ReadProgress::Failed(
                    StreamError::ReadFailure(msg),
                ),
                StreamEvent::Cancelled => r matches ReadProgress::Failed(StreamError::Cancelled),
            },
    {
        proof {
            use_type_invariant(&self);
        }
        let BoundedRead { received, limit } = self;
        match event {
            StreamEvent::Chunk(mut chunk) => {
                if chunk.len() <= limit - received.len() {
                    let mut received = received;
                    received.append(&mut chunk);
                    ReadProgress::Reading(BoundedRead { received, limit })
                } else {
                    ReadProgress::Failed(StreamError::OverLimit)
                }
            },
            StreamEvent::End => ReadProgress::Done(received),
            StreamEvent::Failed(msg) => ReadProgress::Failed(StreamError::ReadFailure(msg)),
            StreamEvent::Cancelled => ReadProgress::Failed(StreamError::Cancelled),
        }
    }
}

/// A stream is read whole exactly when it fits the limit: fed from an empty
/// buffer, its chunks give all of its bytes in order where their total is
/// at most the limit, and fail the read where it is more. A read never ends
/// with a truncated buffer.
pub proof fn lemma_stream_read_outcome(limit: nat, chunks: Seq<Seq<u8>>)
    ensures
        accept_all(limit, Seq::empty(), chunks) == (if concat(chunks).len() <= limit {
            Some(concat(chunks))
        } else {
            None::<Seq<u8>>
        }),
    decreases chunks.len(),
{
    if chunks.len() > 0 {
        let prefix = chunks.drop_last();
        lemma_stream_read_outcome(limit, prefix);
        assert(concat(chunks) == concat(prefix) + chunks.last());
    }
}

} // verus!
