use vstd::prelude::*;
use crate::codec::{
    announced_len, parse_inbound, parsed_as, FrameError, InboundFrame, FRAME_HEADER,
};

verus! {

/// Failed attempts a read of the port may retry before it gives up.
pub const DEFAULT_RETRIES: u8 = 3;

/// How long, in milliseconds, the search for a frame header may last.
pub const READ_TIMEOUT: u64 = 500;

/// Whether the search for a frame header, begun `elapsed_ms` ago, must give up.
pub fn header_wait_expired(elapsed_ms: u64) -> (r: bool)
    ensures
        r == (elapsed_ms > READ_TIMEOUT),
{
    elapsed_ms > READ_TIMEOUT
}

/// Where a read of a fixed number of bytes stands.
#[derive(Debug, Clone, Copy, PartialEq, Eq, Structural)]
pub enum ReadStatus {
    /// More bytes are wanted; read again after a short pause.
    Pending,
    /// All the bytes wanted have arrived.
    Complete,
    /// A failed attempt came with no retry left.
    TimedOut,
}

/// Reads of at most this many bytes are single fields: a read of the port
/// that leaves such a field short counts as a failed attempt.
pub const FIELD_LEN: usize = 2;

/// Whether a read of the port that brought `chunk_len` bytes, towards
/// `wanted` bytes of which `had` had come before, is a failed attempt: it
/// brought nothing, or it left a field of at most `FIELD_LEN` bytes short.
pub open spec fn attempt_failed(wanted: nat, had: nat, chunk_len: nat) -> bool {
    had + chunk_len < wanted && (chunk_len == 0 || wanted <= FIELD_LEN)
}

/// A read of exactly `wanted` bytes, gathered over several reads of the port.
/// One budget of `max_retries` retries serves the whole read and is never
/// refilled: each failed attempt spends one, and the attempt after the last
/// retry gives up.
pub struct ByteRead {
    pub wanted: usize,
    pub buf: Vec<u8>,
    pub max_retries: u8,
    pub retries_left: u8,
}

impl ByteRead {
    pub open spec fn wf(&self) -> bool {
        &&& self.buf@.len() <= self.wanted
        &&& self.retries_left <= self.max_retries
    }

    /// A read of `wanted` bytes with `max_retries` retries.
    pub fn new(wanted: usize, max_retries: u8) -> (r: ByteRead)
        ensures
            r.wf(),
            r.wanted == wanted,
            r.buf@ == Seq::<u8>::empty(),
            r.max_retries == max_retries,
            r.retries_left == max_retries,
    {
        ByteRead { wanted, buf: Vec::new(), max_retries, retries_left: max_retries }
    }

    /// Whether all the bytes wanted have come; at once for a read of none.
    pub fn is_complete(&self) -> (r: bool)
        requires
            self.wf(),
        ensures
            r == (self.buf@.len() == self.wanted),
    {
        self.buf.len() == self.wanted
    }

    /// How many bytes are still wanted.
    pub fn remaining(&self) -> (r: usize)
        requires
            self.wf(),
        ensures
            r == self.wanted - self.buf@.len(),
    {
        self.wanted - self.buf.len()
    }

    /// Takes in what one read of the port gave: `chunk`, empty when nothing
    /// came. Its bytes are kept. A failed attempt (see `attempt_failed`)
    /// spends a retry, or gives up when none is left.
    pub fn on_read(&mut self, chunk: &[u8]) -> (r: ReadStatus)
        requires
            old(self).wf(),
            old(self).buf@.len() < old(self).wanted,
            chunk@.len() <= old(self).wanted - old(self).buf@.len(),
        ensures
            final(self).wf(),
            final(self).wanted == old(self).wanted,
            final(self).max_retries == old(self).max_retries,
            final(self).buf@ == old(self).buf@ + chunk@,
            final(self).buf@.len() == final(self).wanted ==> r == ReadStatus::Complete
                && final(self).retries_left == old(self).retries_left,
            !attempt_failed(old(self).wanted as nat, old(self).buf@.len(), chunk@.len())
                && final(self).buf@.len() < final(self).wanted ==> r == ReadStatus::Pending
                && final(self).retries_left == old(self).retries_left,
            attempt_failed(old(self).wanted as nat, old(self).buf@.len(), chunk@.len())
                && old(self).retries_left == 0 ==> r == ReadStatus::TimedOut
                && final(self).retries_left == 0,
            attempt_failed(old(self).wanted as nat, old(self).buf@.len(), chunk@.len())
                && old(self).retries_left > 0 ==> r == ReadStatus::Pending
                && final(self).retries_left == old(self).retries_left - 1,
    {
        let ghost start = self.buf@;
        let mut i: usize = 0;
        while i < chunk.len()
            invariant
                i <= chunk@.len(),
                self.wanted == old(self).wanted,
                self.max_retries == old(self).max_retries,
                self.retries_left == old(self).retries_left,
                start == old(self).buf@,
                self.buf@ == start + chunk@.subrange(0, i as int),
            decreases chunk@.len() - i,
        {
            self.buf.push(chunk[i]);
            i = i + 1;
            proof {
                assert(self.buf@ =~= start + chunk@.subrange(0, i as int));
            }
        }
        proof {
            assert(chunk@.subrange(0, chunk@.len() as int) =~= chunk@);
        }
        if self.buf.len() == self.wanted {
            return ReadStatus::Complete;
        }
        if chunk.len() == 0 || self.wanted <= FIELD_LEN {
            if self.retries_left == 0 {
                return ReadStatus::TimedOut;
            }
            self.retries_left = self.retries_left - 1;
        }
        ReadStatus::Pending
    }

    /// The bytes gathered so far.
    pub fn into_bytes(self) -> (r: Vec<u8>)
        ensures
            r@ == self.buf@,
    {
        self.buf
    }
}

/// Length the inbound bytes `b` must reach before the next field is whole:
/// header, length, function code, status, data length, data, checksum.
pub open spec fn next_boundary(b: Seq<u8>) -> int {
    if b.len() < 1 {
        1
    } else if b.len() < 3 {
        3
    } else if b.len() < 4 {
        4
    } else if b.len() < 5 {
        5
    } else if b.len() < 7 {
        7
    } else if b.len() < 7 + announced_len(b) {
        7 + announced_len(b)
    } else {
        9 + announced_len(b)
    }
}

/// Whether `b` holds a whole inbound frame, by the lengths it announces.
pub open spec fn frame_done(b: Seq<u8>) -> bool {
    b.len() >= 7 && b.len() == 9 + announced_len(b)
}

/// What one step of reading an inbound frame gave.
#[derive(Debug)]
pub enum DecodeStep {
    /// A byte read while looking for the header was not the header; it is dropped.
    Skipped,
    /// The field was taken in; more fields follow.
    Partial,
    /// The frame is whole: the frame, or why it is refused.
    Complete(Result<InboundFrame, FrameError>),
}

/// Reads an inbound frame one field at a time, after skipping what comes
/// before its header.
pub struct FrameDecoder {
    pub buf: Vec<u8>,
}

impl FrameDecoder {
    pub open spec fn wf(&self) -> bool {
        &&& self.buf@.len() > 0 ==> self.buf@[0] == FRAME_HEADER
        &&& self.buf@.len() <= 1 || self.buf@.len() == 3 || self.buf@.len() == 4
            || self.buf@.len() == 5 || self.buf@.len() >= 7
        &&& self.buf@.len() >= 7 ==> self.buf@.len() < 9 + announced_len(self.buf@)
    }

    /// A decoder that waits for a header.
    pub fn new() -> (r: FrameDecoder)
        ensures
            r.wf(),
            r.buf@ == Seq::<u8>::empty(),
    {
        FrameDecoder { buf: Vec::new() }
    }

    /// How many bytes the next field takes.
    pub fn needed(&self) -> (r: usize)
        requires
            self.wf(),
        ensures
            r == next_boundary(self.buf@) - self.buf@.len(),
            r > 0,
    {
        let n = self.buf.len();
        if n < 1 {
            1
        } else if n < 3 {
            3 - n
        } else if n < 4 {
            1
        } else if n < 5 {
            1
        } else if n < 7 {
            7 - n
        } else {
            let dl = ((self.buf[5] as usize) + 256 * (self.buf[6] as usize)) as usize;
            if n < 7 + dl {
                7 + dl - n
            } else {
                9 + dl - n
            }
        }
    }

    /// Takes in the next field, `bytes`, of exactly the length `needed` gives.
    pub fn feed(&mut self, bytes: &[u8]) -> (r: DecodeStep)
        requires
            old(self).wf(),
            bytes@.len() == next_boundary(old(self).buf@) - old(self).buf@.len(),
        ensures
            old(self).buf@.len() == 0 && bytes@[0] != FRAME_HEADER ==> r is Skipped
                && final(self).buf@ == old(self).buf@,
            !(old(self).buf@.len() == 0 && bytes@[0] != FRAME_HEADER) ==> final(self).buf@
                == old(self).buf@ + bytes@ && !(r is Skipped),
            r is Complete <==> frame_done(final(self).buf@),
            r matches DecodeStep::Complete(res) ==> parsed_as(res, final(self).buf@),
            !(r is Complete) ==> final(self).wf(),
    {
        if self.buf.len() == 0 && bytes[0] != FRAME_HEADER {
            return DecodeStep::Skipped;
        }
        let ghost start = self.buf@;
        let mut i: usize = 0;
        while i < bytes.len()
            invariant
                i <= bytes@.len(),
                start == old(self).buf@,
                self.buf@ == start + bytes@.subrange(0, i as int),
            decreases bytes@.len() - i,
        {
            self.buf.push(bytes[i]);
            i = i + 1;
            proof {
                assert(self.buf@ =~= start + bytes@.subrange(0, i as int));
            }
        }
        proof {
            assert(bytes@.subrange(0, bytes@.len() as int) =~= bytes@);
            if start.len() >= 7 {
                assert(announced_len(self.buf@) == announced_len(start));
            }
        }
        let n = self.buf.len();
        if n >= 7 {
            let dl = ((self.buf[5] as usize) + 256 * (self.buf[6] as usize)) as usize;
            assert(dl as int == announced_len(self.buf@));
            if n == dl + 9 {
                return DecodeStep::Complete(parse_inbound(self.buf.as_slice()));
            }
            assert(n < dl + 9);
        }
        DecodeStep::Partial
    }
}

} // verus!
