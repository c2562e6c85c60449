use vstd::prelude::*;
use crate::codec::{encode_outbound, outbound_frame, FrameError, InboundFrame, MAX_PAYLOAD_LEN};

verus! {

/// Replies to other requests that an exchange puts up with before it gives up.
pub const MAX_MISMATCHES: u8 = 3;

/// Why a request to the reader got no usable reply.
#[derive(Debug, Clone, Copy, PartialEq, Eq, Structural)]
pub enum ExchangeError {
    /// The request's payload is too long for a frame.
    PayloadTooLong,
    /// The port failed while writing or reading.
    Io,
    /// A read of the port ran out of retries.
    ReadTimeout,
    /// No frame header arrived in time.
    HeaderTimeout,
    /// A reply's checksum did not match its bytes.
    Checksum,
    /// Only replies to other requests arrived.
    NoMatchingReply,
}

/// The error an exchange reports for a frame that could not be built or read.
pub open spec fn frame_error_spec(e: FrameError) -> ExchangeError {
    match e {
        FrameError::PayloadTooLong => ExchangeError::PayloadTooLong,
        FrameError::Malformed => ExchangeError::Io,
        FrameError::Checksum => ExchangeError::Checksum,
    }
}

impl ExchangeError {
    /// The error an exchange reports for a frame that could not be built or read.
    pub fn from_frame_error(e: FrameError) -> (r: ExchangeError)
        ensures
            r == frame_error_spec(e),
    {
        match e {
            FrameError::PayloadTooLong => ExchangeError::PayloadTooLong,
            FrameError::Malformed => ExchangeError::Io,
            FrameError::Checksum => ExchangeError::Checksum,
        }
    }
}

/// How an exchange takes one inbound frame, in the abstract.
#[derive(Debug, Clone, Copy, PartialEq, Eq, Structural)]
pub enum Verdict {
    /// The frame answers the request.
    Matched,
    /// The frame answers something else; keep waiting.
    Discarded,
    /// The frame answers something else, one time too many.
    Exhausted,
    /// No frame could be read.
    Failed,
}

/// The verdict on a frame with function code `code`, for a request with
/// `fn_code` that has already seen `mismatches` replies to other requests.
pub open spec fn step_verdict(fn_code: u8, mismatches: int, code: u8) -> Verdict {
    if code == fn_code {
        Verdict::Matched
    } else if mismatches + 1 > MAX_MISMATCHES {
        Verdict::Exhausted
    } else {
        Verdict::Discarded
    }
}

/// Where a request with `fn_code` stands after the frames with function codes
/// `codes` arrive in order, having seen `mismatches` others before; it stops at
/// the first frame that settles it.
pub open spec fn exchange_verdict(fn_code: u8, mismatches: int, codes: Seq<u8>) -> Verdict
    decreases codes.len(),
{
    if codes.len() == 0 {
        Verdict::Discarded
    } else {
        let v = step_verdict(fn_code, mismatches, codes[0]);
        if v != Verdict::Discarded || codes.len() == 1 {
            v
        } else {
            exchange_verdict(fn_code, mismatches + 1, codes.drop_first())
        }
    }
}

/// What an exchange did with one inbound frame.
#[derive(Debug)]
pub enum ExchangeStep {
    /// The frame answers the request: here it is, whatever its status.
    Matched(InboundFrame),
    /// The frame answers something else and was dropped.
    Discarded,
    /// Too many frames answered something else: the request failed.
    Exhausted,
    /// No frame could be read: the request failed with this error, and is
    /// not sent again.
    Failed(ExchangeError),
}

/// The abstract verdict that an exchange step stands for.
pub open spec fn verdict_of(s: ExchangeStep) -> Verdict {
    match s {
        ExchangeStep::Matched(_) => Verdict::Matched,
        ExchangeStep::Discarded => Verdict::Discarded,
        ExchangeStep::Exhausted => Verdict::Exhausted,
        ExchangeStep::Failed(_) => Verdict::Failed,
    }
}

/// One request sent to the reader, waiting for the reply with its function code.
pub struct Exchange {
    pub fn_code: u8,
    pub mismatches: u8,
}

impl Exchange {
    pub open spec fn wf(&self) -> bool {
        self.mismatches <= MAX_MISMATCHES
    }

    /// Starts a request with `fn_code` and `payload`: the exchange, and the
    /// frame to write to the port.
    pub fn start(fn_code: u8, payload: &[u8]) -> (r: Result<(Exchange, Vec<u8>), ExchangeError>)
        ensures
            r is Err <==> payload@.len() > MAX_PAYLOAD_LEN,
            r is Err ==> r == Err::<(Exchange, Vec<u8>), ExchangeError>(
                ExchangeError::PayloadTooLong,
            ),
            r matches Ok((x, bytes)) ==> x.wf() && x.fn_code == fn_code && x.mismatches == 0
                && bytes@ == outbound_frame(fn_code, payload@),
    {
        match encode_outbound(fn_code, payload) {
            Ok(bytes) => Ok((Exchange { fn_code, mismatches: 0 }, bytes)),
            Err(e) => Err(ExchangeError::from_frame_error(e)),
        }
    }

    /// Takes one inbound frame: the reply if it answers the request, else a
    /// mismatch counted, and failure after more than `MAX_MISMATCHES` of them.
    pub fn on_frame(&mut self, frame: InboundFrame) -> (r: ExchangeStep)
        requires
            old(self).wf(),
        ensures
            final(self).fn_code == old(self).fn_code,
            verdict_of(r) == step_verdict(old(self).fn_code, old(self).mismatches as int, frame.fn_code),
            r matches ExchangeStep::Matched(f) ==> f == frame,
            !(r is Failed),
            r is Discarded ==> final(self).wf() && final(self).mismatches == old(self).mismatches + 1,
    {
        if frame.fn_code == self.fn_code {
            return ExchangeStep::Matched(frame);
        }
        if self.mismatches >= MAX_MISMATCHES {
            return ExchangeStep::Exhausted;
        }
        self.mismatches = self.mismatches + 1;
        ExchangeStep::Discarded
    }

    /// Takes the outcome of one attempt to read a frame: a frame goes to
    /// `on_frame`; an error ends the request with that error.
    pub fn on_read(&mut self, read: Result<InboundFrame, ExchangeError>) -> (r: ExchangeStep)
        requires
            old(self).wf(),
        ensures
            final(self).fn_code == old(self).fn_code,
            read matches Err(e) ==> r == ExchangeStep::Failed(e) && *final(self) == *old(self),
            read is Ok ==> !(r is Failed),
            read matches Ok(frame) ==> verdict_of(r) == step_verdict(
                old(self).fn_code,
                old(self).mismatches as int,
                frame.fn_code,
            ),
            read matches Ok(frame) ==> (r matches ExchangeStep::Matched(f) ==> f == frame),
            read is Ok && r is Discarded ==> final(self).wf() && final(self).mismatches == old(
                self,
            ).mismatches + 1,
    {
        match read {
            Ok(frame) => self.on_frame(frame),
            Err(e) => ExchangeStep::Failed(e),
        }
    }
}

/// A request that sees only replies to other requests keeps waiting through
/// `MAX_MISMATCHES` of them and fails at the next: it fails exactly when at
/// least four such frames have arrived, and never waits past the fourth.
pub proof fn lemma_mismatch_exhaustion(fn_code: u8, codes: Seq<u8>)
    requires
        forall|i: int| 0 <= i < codes.len() ==> codes[i] != fn_code,
    ensures
        exchange_verdict(fn_code, 0, codes) == Verdict::Exhausted <==> codes.len() >= 4,
        codes.len() < 4 ==> exchange_verdict(fn_code, 0, codes) == Verdict::Discarded,
{
    lemma_mismatch_run(fn_code, 0, codes);
}

proof fn lemma_mismatch_run(fn_code: u8, m: int, codes: Seq<u8>)
    requires
        0 <= m <= 3,
        forall|i: int| 0 <= i < codes.len() ==> codes[i] != fn_code,
    ensures
        exchange_verdict(fn_code, m, codes) == (if codes.len() + m >= 4 {
            Verdict::Exhausted
        } else {
            Verdict::Discarded
        }),
    decreases codes.len(),
{
    if codes.len() > 0 {
        if m < 3 && codes.len() > 1 {
            let rest = codes.drop_first();
            assert forall|i: int| 0 <= i < rest.len() implies rest[i] != fn_code by {
                assert(rest[i] == codes[i + 1]);
            }
            lemma_mismatch_run(fn_code, m + 1, rest);
        }
    }
}

} // verus!
