use vstd::prelude::*;
use byteorder::{ByteOrder, LittleEndian};
use crc16::{State, XMODEM};

verus! {

/// Start-of-frame marker that opens every frame on the wire.
pub const FRAME_HEADER: u8 = 0x24;

/// Status code of an inbound frame that reports success.
pub const ST_CODE_SUCCESS: u8 = 0x00;

/// Longest payload whose frame length field still fits in 16 bits.
pub const MAX_PAYLOAD_LEN: usize = 65530;

/// Bytes of an outbound frame besides its payload.
pub const OUTBOUND_OVERHEAD: usize = 8;

/// Bytes of an inbound frame besides its data.
pub const INBOUND_OVERHEAD: usize = 9;

/// Why a frame could not be built or read.
#[derive(Debug, Clone, Copy, PartialEq, Eq, Structural)]
pub enum FrameError {
    /// The payload is too long for the 16-bit length fields.
    PayloadTooLong,
    /// The bytes do not have the layout of an inbound frame.
    Malformed,
    /// The checksum carried by the frame does not match its bytes.
    Checksum,
}

/// The CRC16/XMODEM checksum of a byte sequence.
pub uninterp spec fn crc_xmodem(s: Seq<u8>) -> u16;

/// Low byte of a little-endian 16-bit value.
pub open spec fn lo_byte(v: u16) -> u8 {
    (v % 256) as u8
}

/// High byte of a little-endian 16-bit value.
pub open spec fn hi_byte(v: u16) -> u8 {
    (v / 256) as u8
}

/// The 16-bit value whose little-endian bytes are `lo`, `hi`.
pub open spec fn le16(lo: u8, hi: u8) -> u16 {
    (lo as int + 256 * (hi as int)) as u16
}

/// The two little-endian bytes of `v`.
pub open spec fn le_bytes(v: u16) -> Seq<u8> {
    seq![lo_byte(v), hi_byte(v)]
}

/// `s` followed by its checksum, low byte first.
pub open spec fn with_crc(s: Seq<u8>) -> Seq<u8> {
    s + le_bytes(crc_xmodem(s))
}

/// Header, length, function code, payload length and payload of an outbound frame.
pub open spec fn outbound_body(fn_code: u8, payload: Seq<u8>) -> Seq<u8> {
    seq![FRAME_HEADER] + le_bytes((payload.len() + 5) as u16) + seq![fn_code]
        + le_bytes(payload.len() as u16) + payload
}

/// The complete outbound frame for `fn_code` and `payload`.
pub open spec fn outbound_frame(fn_code: u8, payload: Seq<u8>) -> Seq<u8> {
    with_crc(outbound_body(fn_code, payload))
}

/// Relies on crc16's `State::<XMODEM>::calculate`: the CRC16/XMODEM checksum of the bytes.
#[verifier::external_body]
fn crc16_xmodem(data: &[u8]) -> (r: u16)
    ensures
        r == crc_xmodem(data@),
{
    State::<XMODEM>::calculate(data)
}

/// Relies on byteorder's `LittleEndian::write_u16`: the low byte goes first.
#[verifier::external_body]
fn u16_to_le(v: u16) -> (r: (u8, u8))
    ensures
        r.0 == lo_byte(v),
        r.1 == hi_byte(v),
{
    let mut buf = [0u8; 2];
    LittleEndian::write_u16(&mut buf, v);
    (buf[0], buf[1])
}

/// Relies on byteorder's `LittleEndian::read_u16`: the first byte is the low byte.
#[verifier::external_body]
fn u16_from_le(lo: u8, hi: u8) -> (r: u16)
    ensures
        r == le16(lo, hi),
{
    LittleEndian::read_u16(&[lo, hi])
}

/// Appends the little-endian CRC16/XMODEM checksum of `data` to it.
pub fn wrap_data(data: Vec<u8>) -> (r: Vec<u8>)
    ensures
        r@ == with_crc(data@),
{
    let crc = crc16_xmodem(data.as_slice());
    let (lo, hi) = u16_to_le(crc);
    let mut out = data;
    out.push(lo);
    out.push(hi);
    proof {
        assert(out@ =~= with_crc(data@));
    }
    out
}

/// Builds the outbound frame that carries `payload` under `fn_code`.
pub fn encode_outbound(fn_code: u8, payload: &[u8]) -> (r: Result<Vec<u8>, FrameError>)
    ensures
        r is Err <==> payload@.len() > MAX_PAYLOAD_LEN,
        r is Err ==> r == Err::<Vec<u8>, FrameError>(FrameError::PayloadTooLong),
        r matches Ok(bytes) ==> bytes@ == outbound_frame(fn_code, payload@),
{
    let n = payload.len();
    if n > MAX_PAYLOAD_LEN {
        return Err(FrameError::PayloadTooLong);
    }
    let (l0, l1) = u16_to_le((n + 5) as u16);
    let (d0, d1) = u16_to_le(n as u16);
    let mut pkg: Vec<u8> = Vec::with_capacity(n + OUTBOUND_OVERHEAD);
    pkg.push(FRAME_HEADER);
    pkg.push(l0);
    pkg.push(l1);
    pkg.push(fn_code);
    pkg.push(d0);
    pkg.push(d1);
    let ghost head = pkg@;
    let mut i: usize = 0;
    while i < n
        invariant
            i <= n,
            n == payload@.len(),
            pkg@ == head + payload@.subrange(0, i as int),
        decreases n - i,
    {
        pkg.push(payload[i]);
        i = i + 1;
        proof {
            assert(pkg@ =~= head + payload@.subrange(0, i as int));
        }
    }
    proof {
        assert(payload@.subrange(0, n as int) =~= payload@);
        assert(pkg@ =~= outbound_body(fn_code, payload@));
    }
    Ok(wrap_data(pkg))
}

/// What an inbound frame carries, as plain values.
pub ghost struct FrameView {
    pub length: u16,
    pub fn_code: u8,
    pub st_code: u8,
    pub data: Seq<u8>,
    pub crc: u16,
}

/// One inbound frame, read and checked.
#[derive(Debug, Clone)]
pub struct InboundFrame {
    /// Length field as carried by the frame.
    pub length: u16,
    /// Function code the reader answers.
    pub fn_code: u8,
    /// Outcome reported by the reader: `ST_CODE_SUCCESS` or a failure code.
    pub st_code: u8,
    /// Data carried by the frame.
    pub data: Vec<u8>,
    /// Checksum carried by the frame.
    pub crc: u16,
}

impl View for InboundFrame {
    type V = FrameView;

    open spec fn view(&self) -> FrameView {
        FrameView {
            length: self.length,
            fn_code: self.fn_code,
            st_code: self.st_code,
            data: self.data@,
            crc: self.crc,
        }
    }
}

impl InboundFrame {
    /// True when the reader reported success.
    pub fn is_success(&self) -> (r: bool)
        ensures
            r == (self.st_code == ST_CODE_SUCCESS),
    {
        self.st_code == ST_CODE_SUCCESS
    }
}

/// Data length announced by the inbound bytes `b` (at least 7 of them).
pub open spec fn announced_len(b: Seq<u8>) -> int {
    le16(b[5], b[6]) as int
}

/// How an inbound frame is read from its bytes: header, length, function code,
/// status, data length, data and checksum, the checksum covering all before it.
pub open spec fn parse_spec(b: Seq<u8>) -> Result<FrameView, FrameError> {
    if b.len() < 7 || b[0] != FRAME_HEADER || b.len() != announced_len(b) + 9 {
        Err(FrameError::Malformed)
    } else {
        let dl = announced_len(b);
        let crc = le16(b[7 + dl], b[8 + dl]);
        if crc != crc_xmodem(b.subrange(0, 7 + dl)) {
            Err(FrameError::Checksum)
        } else {
            Ok(
                FrameView {
                    length: le16(b[1], b[2]),
                    fn_code: b[3],
                    st_code: b[4],
                    data: b.subrange(7, 7 + dl),
                    crc,
                },
            )
        }
    }
}

/// The outcome of `parse_spec` that an executable result stands for.
pub open spec fn parsed_as(r: Result<InboundFrame, FrameError>, b: Seq<u8>) -> bool {
    match r {
        Ok(f) => parse_spec(b) == Ok::<FrameView, FrameError>(f@),
        Err(e) => parse_spec(b) == Err::<FrameView, FrameError>(e),
    }
}

/// Reads one complete inbound frame from `bytes` and checks its checksum.
pub fn parse_inbound(bytes: &[u8]) -> (r: Result<InboundFrame, FrameError>)
    ensures
        parsed_as(r, bytes@),
{
    let n = bytes.len();
    if n < 7 || bytes[0] != FRAME_HEADER {
        return Err(FrameError::Malformed);
    }
    let dl = u16_from_le(bytes[5], bytes[6]) as usize;
    if n != dl + INBOUND_OVERHEAD {
        return Err(FrameError::Malformed);
    }
    let crc = u16_from_le(bytes[7 + dl], bytes[8 + dl]);
    let expected = crc16_xmodem(&bytes[0..7 + dl]);
    if crc != expected {
        return Err(FrameError::Checksum);
    }
    let mut data: Vec<u8> = Vec::with_capacity(dl);
    let mut i: usize = 7;
    while i < 7 + dl
        invariant
            7 <= i <= 7 + dl,
            n == bytes@.len(),
            n == dl + 9,
            data@ == bytes@.subrange(7, i as int),
        decreases 7 + dl - i,
    {
        data.push(bytes[i]);
        i = i + 1;
        proof {
            assert(data@ =~= bytes@.subrange(7, i as int));
        }
    }
    let length = u16_from_le(bytes[1], bytes[2]);
    let frame = InboundFrame { length, fn_code: bytes[3], st_code: bytes[4], data, crc };
    proof {
        assert(frame@.data == bytes@.subrange(7, 7 + announced_len(bytes@)));
    }
    Ok(frame)
}

/// An outbound frame turned into the inbound frame a reader would send back:
/// `status` inserted after the function code and the checksum computed anew.
pub open spec fn as_inbound(outbound: Seq<u8>, status: u8) -> Seq<u8> {
    with_crc(outbound.subrange(0, 4) + seq![status] + outbound.subrange(4, outbound.len() - 2))
}

/// The two little-endian bytes of a 16-bit value read back give that value.
pub proof fn lemma_le16_round_trip(v: u16)
    ensures
        le16(lo_byte(v), hi_byte(v)) == v,
{
}

/// The checksum appended to any byte sequence is the CRC16/XMODEM of exactly
/// that sequence, low byte first, and the sequence itself is left as it was.
pub proof fn lemma_appended_checksum(s: Seq<u8>)
    ensures
        with_crc(s).len() == s.len() + 2,
        with_crc(s).subrange(0, s.len() as int) == s,
        le16(with_crc(s)[s.len() as int], with_crc(s)[s.len() as int + 1]) == crc_xmodem(s),
{
    lemma_le16_round_trip(crc_xmodem(s));
    assert(with_crc(s).subrange(0, s.len() as int) =~= s);
}

/// Encoding a frame for function code `fn_code` and `payload`, then reading
/// those bytes back as an inbound frame with a status byte inserted, gives
/// the same function code and payload, and that status.
pub proof fn lemma_frame_round_trip(fn_code: u8, payload: Seq<u8>, status: u8)
    requires
        payload.len() <= MAX_PAYLOAD_LEN,
    ensures
        parse_spec(as_inbound(outbound_frame(fn_code, payload), status)) matches Ok(v)
            && v.fn_code == fn_code && v.st_code == status && v.data == payload,
{
    let n = payload.len() as int;
    let out = outbound_frame(fn_code, payload);
    let body = outbound_body(fn_code, payload);
    assert(out.subrange(0, out.len() - 2) =~= body);
    let mid = out.subrange(0, 4) + seq![status] + out.subrange(4, out.len() - 2);
    let b = as_inbound(out, status);
    lemma_le16_round_trip(n as u16);
    lemma_le16_round_trip(crc_xmodem(mid));
    assert(mid.len() == n + 7);
    assert(b[5] == lo_byte(n as u16) && b[6] == hi_byte(n as u16));
    assert(announced_len(b) == n);
    assert(b.subrange(0, 7 + n) =~= mid);
    assert(b.subrange(7, 7 + n) =~= payload);
}

} // verus!
