use crc16::{State, XMODEM};
use ntag_reader::codec::{FrameError, InboundFrame};
use ntag_reader::exchange::{Exchange, ExchangeError, ExchangeStep};
use ntag_reader::transport::{header_wait_expired, ByteRead, DecodeStep, FrameDecoder, ReadStatus};

fn frame(fn_code: u8, st_code: u8, data: &[u8]) -> InboundFrame {
    InboundFrame { length: (data.len() + 6) as u16, fn_code, st_code, data: data.to_vec(), crc: 0 }
}

fn inbound(fn_code: u8, status: u8, data: &[u8]) -> Vec<u8> {
    let len = (data.len() + 6) as u16;
    let mut v = vec![0x24];
    v.extend_from_slice(&len.to_le_bytes());
    v.push(fn_code);
    v.push(status);
    v.extend_from_slice(&(data.len() as u16).to_le_bytes());
    v.extend_from_slice(data);
    let crc = State::<XMODEM>::calculate(&v);
    v.extend_from_slice(&crc.to_le_bytes());
    v
}

#[test]
fn byte_read_gives_up_after_retries() {
    let mut r = ByteRead::new(1, 3);
    assert_eq!(r.on_read(&[]), ReadStatus::Pending);
    assert_eq!(r.on_read(&[]), ReadStatus::Pending);
    assert_eq!(r.on_read(&[]), ReadStatus::Pending);
    assert_eq!(r.on_read(&[]), ReadStatus::TimedOut);
}

#[test]
fn byte_read_gathers_partial_reads() {
    let mut r = ByteRead::new(5, 3);
    assert_eq!(r.remaining(), 5);
    assert_eq!(r.on_read(&[1, 2]), ReadStatus::Pending);
    assert_eq!(r.on_read(&[]), ReadStatus::Pending);
    assert_eq!(r.remaining(), 3);
    assert_eq!(r.on_read(&[3, 4, 5]), ReadStatus::Complete);
    assert_eq!(r.into_bytes(), vec![1, 2, 3, 4, 5]);
}

#[test]
fn byte_read_budget_is_never_refilled() {
    let mut r = ByteRead::new(3, 1);
    assert_eq!(r.on_read(&[]), ReadStatus::Pending);
    assert_eq!(r.on_read(&[1]), ReadStatus::Pending);
    assert_eq!(r.retries_left, 0);
    assert_eq!(r.on_read(&[]), ReadStatus::TimedOut);
}

#[test]
fn short_field_read_without_retries_times_out() {
    let mut r = ByteRead::new(2, 0);
    assert_eq!(r.on_read(&[7]), ReadStatus::TimedOut);
}

#[test]
fn short_field_reads_spend_retries() {
    let mut r = ByteRead::new(2, 1);
    assert_eq!(r.on_read(&[]), ReadStatus::Pending);
    assert_eq!(r.on_read(&[7]), ReadStatus::TimedOut);
    let mut r = ByteRead::new(2, 1);
    assert_eq!(r.on_read(&[7]), ReadStatus::Pending);
    assert_eq!(r.on_read(&[8]), ReadStatus::Complete);
    assert_eq!(r.into_bytes(), vec![7, 8]);
}

#[test]
fn block_read_split_over_chunks_succeeds() {
    let mut r = ByteRead::new(6, 2);
    assert_eq!(r.on_read(&[1]), ReadStatus::Pending);
    assert_eq!(r.on_read(&[]), ReadStatus::Pending);
    assert_eq!(r.on_read(&[2, 3]), ReadStatus::Pending);
    assert_eq!(r.on_read(&[]), ReadStatus::Pending);
    assert_eq!(r.on_read(&[4, 5, 6]), ReadStatus::Complete);
    assert_eq!(r.into_bytes(), vec![1, 2, 3, 4, 5, 6]);
}

#[test]
fn empty_read_is_complete_at_once() {
    let r = ByteRead::new(0, 3);
    assert!(r.is_complete());
}

#[test]
fn exchange_read_error_ends_request() {
    let (mut x, _) = Exchange::start(0x40, &[]).unwrap();
    match x.on_read(Err(ExchangeError::Checksum)) {
        ExchangeStep::Failed(e) => assert_eq!(e, ExchangeError::Checksum),
        other => panic!("unexpected {:?}", other),
    }
    assert!(matches!(x.on_read(Ok(frame(0x40, 0, &[]))), ExchangeStep::Matched(_)));
}

#[test]
fn header_deadline() {
    assert!(!header_wait_expired(0));
    assert!(!header_wait_expired(500));
    assert!(header_wait_expired(501));
}

fn decode_all(bytes: &[u8]) -> (usize, Result<InboundFrame, FrameError>) {
    let mut d = FrameDecoder::new();
    let mut pos = 0;
    let mut skipped = 0;
    loop {
        let n = d.needed();
        match d.feed(&bytes[pos..pos + n]) {
            DecodeStep::Skipped => skipped += 1,
            DecodeStep::Partial => {}
            DecodeStep::Complete(r) => return (skipped, r),
        }
        pos += n;
    }
}

#[test]
fn decoder_reads_fields_after_noise() {
    let mut bytes = vec![0x00, 0x55];
    bytes.extend(inbound(0x41, 0x00, &[1, 2, 3, 4]));
    let (skipped, r) = decode_all(&bytes);
    assert_eq!(skipped, 2);
    let f = r.unwrap();
    assert_eq!(f.fn_code, 0x41);
    assert_eq!(f.data, vec![1, 2, 3, 4]);
}

#[test]
fn decoder_field_sizes() {
    let bytes = inbound(0x40, 0x0C, &[9, 9, 9]);
    let mut d = FrameDecoder::new();
    let mut sizes = vec![];
    let mut pos = 0;
    loop {
        let n = d.needed();
        sizes.push(n);
        let step = d.feed(&bytes[pos..pos + n]);
        pos += n;
        if let DecodeStep::Complete(r) = step {
            assert_eq!(r.unwrap().st_code, 0x0C);
            break;
        }
    }
    assert_eq!(sizes, vec![1, 2, 1, 1, 2, 3, 2]);
}

#[test]
fn decoder_empty_data_and_bad_crc() {
    let (_, r) = decode_all(&inbound(0x05, 0x00, &[]));
    assert!(r.unwrap().data.is_empty());
    let mut bytes = inbound(0x05, 0x00, &[1]);
    bytes[7] = 2;
    let (_, r) = decode_all(&bytes);
    assert_eq!(r.unwrap_err(), FrameError::Checksum);
}

#[test]
fn exchange_start_encodes_request() {
    let (x, bytes) = Exchange::start(0x41, &[4]).unwrap();
    assert_eq!(x.fn_code, 0x41);
    assert_eq!(x.mismatches, 0);
    assert_eq!(&bytes[..7], &[0x24, 0x06, 0x00, 0x41, 0x01, 0x00, 0x04]);
    let too_long = vec![0u8; 70000];
    assert_eq!(Exchange::start(0x41, &too_long).err(), Some(ExchangeError::PayloadTooLong));
}

#[test]
fn exchange_returns_matching_frame_whatever_status() {
    let (mut x, _) = Exchange::start(0x40, &[]).unwrap();
    assert!(matches!(x.on_frame(frame(0x20, 0, &[])), ExchangeStep::Discarded));
    match x.on_frame(frame(0x40, 0x0B, &[1])) {
        ExchangeStep::Matched(f) => {
            assert_eq!(f.st_code, 0x0B);
            assert_eq!(f.data, vec![1]);
        }
        other => panic!("unexpected {:?}", other),
    }
}

#[test]
fn mismatch_exhaustion_after_four_frames() {
    let (mut x, _) = Exchange::start(0x40, &[]).unwrap();
    for _ in 0..3 {
        assert!(matches!(x.on_frame(frame(0x41, 0, &[])), ExchangeStep::Discarded));
    }
    assert!(matches!(x.on_frame(frame(0x41, 0, &[])), ExchangeStep::Exhausted));
}

#[test]
fn frame_errors_map_to_exchange_errors() {
    assert_eq!(ExchangeError::from_frame_error(FrameError::Checksum), ExchangeError::Checksum);
    assert_eq!(ExchangeError::from_frame_error(FrameError::PayloadTooLong), ExchangeError::PayloadTooLong);
    assert_eq!(ExchangeError::from_frame_error(FrameError::Malformed), ExchangeError::Io);
}
