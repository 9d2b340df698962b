use steam_vent_net::encode_frame;
use steam_vent_net::parse_header;
use steam_vent_net::NetworkError;

fn le_u32(bytes: &[u8]) -> u32 {
    u32::from_le_bytes([bytes[0], bytes[1], bytes[2], bytes[3]])
}

#[test]
fn frame_round_trip() {
    let payload: Vec<u8> = vec![9, 8, 7, 6, 5, 4, 3];
    let frame = encode_frame(&payload);
    assert_eq!(frame.len(), 8 + payload.len());
    let header = parse_header(&frame[0..8]);
    assert_eq!(header.length as usize, payload.len());
    assert!(header.validate().is_ok());
    assert_eq!(&frame[8..], &payload[..]);
}

#[test]
fn frame_round_trip_empty_payload() {
    let payload: Vec<u8> = Vec::new();
    let frame = encode_frame(&payload);
    assert_eq!(frame.len(), 8);
    let header = parse_header(&frame[0..8]);
    assert_eq!(header.length, 0);
    assert!(header.validate().is_ok());
}

#[test]
fn frame_header_layout() {
    let payload: Vec<u8> = vec![0xAB; 300];
    let frame = encode_frame(&payload);
    assert_eq!(le_u32(&frame[0..4]), 300);
    assert_eq!(&frame[4..8], b"VT01");
}

#[test]
fn bad_magic_rejected() {
    let mut raw = Vec::new();
    raw.extend_from_slice(&5u32.to_le_bytes());
    raw.extend_from_slice(b"VT02");
    let header = parse_header(&raw);
    assert_eq!(header.length, 5);
    assert_eq!(header.validate(), Err(NetworkError::InvalidHeader));
}

#[test]
fn bad_magic_rejected_whatever_the_length() {
    for length in [0u32, 1, 40, u32::MAX] {
        let mut raw = Vec::new();
        raw.extend_from_slice(&length.to_le_bytes());
        raw.extend_from_slice(&[0, 0, 0, 0]);
        let header = parse_header(&raw);
        assert_eq!(header.validate(), Err(NetworkError::InvalidHeader));
    }
}

#[test]
fn good_magic_accepted() {
    let mut raw = Vec::new();
    raw.extend_from_slice(&17u32.to_le_bytes());
    raw.extend_from_slice(b"VT01");
    let header = parse_header(&raw);
    assert_eq!(header.length, 17);
    assert!(header.validate().is_ok());
}
