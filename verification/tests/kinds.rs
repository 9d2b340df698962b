use steam_vent_net::NetworkError;
use steam_vent_net::RawNetMessage;

fn payload_with_code(code: i32, body: &[u8]) -> Vec<u8> {
    let mut payload = Vec::new();
    payload.extend_from_slice(&code.to_le_bytes());
    payload.extend_from_slice(body);
    payload
}

#[test]
fn handshake_codes_are_mapped_by_the_table() {
    for code in [1303i32, 1304, 1305] {
        let payload = payload_with_code(code, &[]);
        let message = RawNetMessage::try_from(&payload).unwrap();
        assert_eq!(message.kind, code);
        assert!(!message.is_protobuf);
    }
}

#[test]
fn positive_code_resolves_as_fixed_layout() {
    let payload = payload_with_code(1303, &[1, 2, 3]);
    let message = RawNetMessage::try_from(&payload).unwrap();
    assert_eq!(message.kind, 1303);
    assert!(!message.is_protobuf);
    assert_eq!(message.data, vec![1, 2, 3]);
}

#[test]
fn negative_code_resolves_as_protobuf() {
    let payload = payload_with_code(-1303, &[]);
    let message = RawNetMessage::try_from(&payload).unwrap();
    assert_eq!(message.kind, 1303);
    assert!(message.is_protobuf);
    assert!(message.data.is_empty());
}

#[test]
fn unknown_code_reports_the_signed_code() {
    // 3 sits between the mapped codes 2 and 100 of the table.
    let payload = payload_with_code(3, &[]);
    assert_eq!(
        RawNetMessage::try_from(&payload),
        Err(NetworkError::InvalidMessageKind(3))
    );
    let payload = payload_with_code(-3, &[0xFF]);
    assert_eq!(
        RawNetMessage::try_from(&payload),
        Err(NetworkError::InvalidMessageKind(-3))
    );
}

#[test]
fn short_payload_is_a_malformed_kind() {
    let payload = vec![1, 2, 3];
    assert_eq!(
        RawNetMessage::try_from(&payload),
        Err(NetworkError::InvalidMessageKind(0))
    );
}

#[test]
fn minimum_code_is_unknown() {
    let payload = payload_with_code(i32::MIN, &[]);
    assert_eq!(
        RawNetMessage::try_from(&payload),
        Err(NetworkError::InvalidMessageKind(i32::MIN))
    );
}
