use crc16::{State, XMODEM};
use ntag_reader::card::CardType;
use ntag_reader::codec::{encode_outbound, parse_inbound, wrap_data, FrameError, MAX_PAYLOAD_LEN};

fn xmodem(bytes: &[u8]) -> u16 {
    State::<XMODEM>::calculate(bytes)
}

/// The bytes a reader would send back for `fn_code`, `status` and `data`.
fn inbound(fn_code: u8, status: u8, data: &[u8]) -> Vec<u8> {
    let len = (data.len() + 6) as u16;
    let mut v = vec![0x24, (len & 0xff) as u8, (len >> 8) as u8, fn_code, status];
    v.push((data.len() & 0xff) as u8);
    v.push((data.len() >> 8) as u8);
    v.extend_from_slice(data);
    let crc = xmodem(&v);
    v.push((crc & 0xff) as u8);
    v.push((crc >> 8) as u8);
    v
}

#[test]
fn wrap_data_appends_known_checksum() {
    let r = wrap_data(b"123456789".to_vec());
    assert_eq!(r.len(), 11);
    assert_eq!(&r[..9], b"123456789");
    assert_eq!(r[9], 0xC3);
    assert_eq!(r[10], 0x31);
}

#[test]
fn wrap_data_matches_independent_crc() {
    for data in [vec![], vec![0u8], vec![0x24, 0x05, 0x00, 0x40, 0x00, 0x00], (0..=255u8).collect()] {
        let r = wrap_data(data.clone());
        let crc = xmodem(&data);
        assert_eq!(r.len(), data.len() + 2);
        assert_eq!(u16::from_le_bytes([r[data.len()], r[data.len() + 1]]), crc);
    }
}

#[test]
fn encode_outbound_layout() {
    let r = encode_outbound(0x41, &[4]).unwrap();
    assert_eq!(&r[..7], &[0x24, 0x06, 0x00, 0x41, 0x01, 0x00, 0x04]);
    let crc = xmodem(&r[..7]);
    assert_eq!(&r[7..], &crc.to_le_bytes());
}

#[test]
fn encode_outbound_empty_payload() {
    let r = encode_outbound(0x40, &[]).unwrap();
    assert_eq!(&r[..6], &[0x24, 0x05, 0x00, 0x40, 0x00, 0x00]);
    assert_eq!(r.len(), 8);
}

#[test]
fn encode_outbound_largest_and_too_long() {
    let ok = vec![7u8; MAX_PAYLOAD_LEN];
    let r = encode_outbound(0x05, &ok).unwrap();
    assert_eq!(r.len(), MAX_PAYLOAD_LEN + 8);
    assert_eq!(&r[1..3], &[0xff, 0xff]);
    let too_long = vec![7u8; MAX_PAYLOAD_LEN + 1];
    assert_eq!(encode_outbound(0x05, &too_long).unwrap_err(), FrameError::PayloadTooLong);
}

#[test]
fn frame_round_trip_with_status() {
    let payload = [9u8, 8, 7, 6, 5];
    let out = encode_outbound(0x42, &payload).unwrap();
    let mut body: Vec<u8> = out[..4].to_vec();
    body.push(0x0B);
    body.extend_from_slice(&out[4..out.len() - 2]);
    let crc = xmodem(&body);
    body.extend_from_slice(&crc.to_le_bytes());
    let f = parse_inbound(&body).unwrap();
    assert_eq!(f.fn_code, 0x42);
    assert_eq!(f.st_code, 0x0B);
    assert_eq!(f.data, payload.to_vec());
    assert_eq!(f.crc, crc);
}

#[test]
fn parse_inbound_fields() {
    let bytes = inbound(0x40, 0x00, &[0xDE, 0xAD, 0xBE, 0xEF]);
    let f = parse_inbound(&bytes).unwrap();
    assert_eq!(f.length, 10);
    assert_eq!(f.fn_code, 0x40);
    assert_eq!(f.st_code, 0x00);
    assert!(f.is_success());
    assert_eq!(f.data, vec![0xDE, 0xAD, 0xBE, 0xEF]);
}

#[test]
fn parse_inbound_checksum_error() {
    let mut bytes = inbound(0x40, 0x00, &[1, 2]);
    let last = bytes.len() - 1;
    bytes[last] ^= 0xff;
    assert_eq!(parse_inbound(&bytes).unwrap_err(), FrameError::Checksum);
}

#[test]
fn parse_inbound_malformed() {
    assert_eq!(parse_inbound(&[]).unwrap_err(), FrameError::Malformed);
    let mut bytes = inbound(0x40, 0x00, &[1, 2]);
    bytes[0] = 0x25;
    assert_eq!(parse_inbound(&bytes).unwrap_err(), FrameError::Malformed);
    let bytes = inbound(0x40, 0x00, &[1, 2]);
    assert_eq!(parse_inbound(&bytes[..bytes.len() - 1]).unwrap_err(), FrameError::Malformed);
}

#[test]
fn card_type_names_and_tags() {
    assert_eq!(CardType::from_str("Mifare"), CardType::Mifare);
    assert_eq!(CardType::from_str("UltraLight"), CardType::UltraLight);
    assert_eq!(CardType::from_str("CPU"), CardType::CPU);
    assert_eq!(CardType::from_str("ISO14443B"), CardType::ISO14443B);
    assert_eq!(CardType::from_str("ISO15693"), CardType::ISO15693);
    assert_eq!(CardType::from_str("ultralight"), CardType::Other);
    assert_eq!(CardType::from_i32(2), CardType::Mifare);
    assert_eq!(CardType::from_i32(4), CardType::UltraLight);
    assert_eq!(CardType::from_i32(8), CardType::CPU);
    assert_eq!(CardType::from_i32(9), CardType::ISO14443B);
    assert_eq!(CardType::from_i32(6), CardType::ISO15693);
    assert_eq!(CardType::from_i32(0), CardType::Other);
}

#[test]
fn card_type_function_codes() {
    let table = [
        (CardType::UltraLight, 0x40, 0x41, 0x42),
        (CardType::Mifare, 0x20, 0x21, 0x22),
        (CardType::CPU, 0x80, 0x81, 0x81),
        (CardType::ISO14443B, 0x90, 0x91, 0x92),
        (CardType::ISO15693, 0x60, 0x61, 0x62),
        (CardType::Other, 0x00, 0x01, 0x02),
    ];
    for (c, uid, rd, wr) in table {
        assert_eq!(c.fn_code_read_uid(), uid);
        assert_eq!(c.fn_code_read_data(), rd);
        assert_eq!(c.fn_code_write_data(), wr);
    }
}
