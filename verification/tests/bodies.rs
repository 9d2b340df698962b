use steam_vent_net::ChannelEncryptRequestBody;
use steam_vent_net::ChannelEncryptResultBody;
use steam_vent_net::ClientEncryptResponse;
use steam_vent_net::NetworkError;

fn le_u32(bytes: &[u8]) -> u32 {
    u32::from_le_bytes([bytes[0], bytes[1], bytes[2], bytes[3]])
}

fn le_u64(bytes: &[u8]) -> u64 {
    let mut raw = [0u8; 8];
    raw.copy_from_slice(&bytes[0..8]);
    u64::from_le_bytes(raw)
}

#[test]
fn request_body_decodes_field_by_field() {
    let mut raw = Vec::new();
    raw.extend_from_slice(&0x1122334455667788u64.to_le_bytes());
    raw.extend_from_slice(&0x99AABBCCDDEEFF00u64.to_le_bytes());
    raw.extend_from_slice(&7u32.to_le_bytes());
    raw.extend_from_slice(&1u32.to_le_bytes());
    raw.extend_from_slice(&[0xA5; 16]);
    let body = ChannelEncryptRequestBody::decode(&raw).unwrap();
    assert_eq!(body.target_job_id, 0x1122334455667788);
    assert_eq!(body.source_job_id, 0x99AABBCCDDEEFF00);
    assert_eq!(body.protocol, 7);
    assert_eq!(body.universe, 1);
    assert_eq!(body.nonce, vec![0xA5; 16]);
}

#[test]
fn request_body_rejects_any_other_size() {
    for len in [0usize, 1, 39, 41, 80] {
        let raw = vec![0u8; len];
        assert_eq!(
            ChannelEncryptRequestBody::decode(&raw),
            Err(NetworkError::UnexpectedHandshake("Invalid encrypt request body"))
        );
    }
}

#[test]
fn result_body_decodes_field_by_field() {
    let mut raw = Vec::new();
    raw.extend_from_slice(&3u64.to_le_bytes());
    raw.extend_from_slice(&4u64.to_le_bytes());
    raw.extend_from_slice(&1u32.to_le_bytes());
    let body = ChannelEncryptResultBody::decode(&raw).unwrap();
    assert_eq!(body.target_job_id, 3);
    assert_eq!(body.source_job_id, 4);
    assert_eq!(body.result, 1);
}

#[test]
fn result_body_rejects_any_other_size() {
    for len in [0usize, 19, 21, 40] {
        let raw = vec![0u8; len];
        assert_eq!(
            ChannelEncryptResultBody::decode(&raw),
            Err(NetworkError::UnexpectedHandshake("Invalid encrypt result body"))
        );
    }
}

#[test]
fn response_encoding_is_bit_for_bit() {
    // CRC-32/IEEE of b"123456789" is the classic check value 0xCBF43926.
    let key: Vec<u8> = b"123456789".to_vec();
    let response = ClientEncryptResponse {
        target_job_id: u64::MAX,
        source_job_id: u64::MAX,
        protocol: 1,
        encrypted_key: key.clone(),
    };
    let mut raw = Vec::new();
    response.encode(&mut raw);
    assert_eq!(raw.len(), 36 + key.len());
    assert_eq!(&raw[0..4], &(-1304i32).to_le_bytes());
    assert_eq!(le_u64(&raw[4..12]), u64::MAX);
    assert_eq!(le_u64(&raw[12..20]), u64::MAX);
    assert_eq!(le_u32(&raw[20..24]), 1);
    assert_eq!(le_u32(&raw[24..28]) as usize, key.len());
    assert_eq!(&raw[28..37], &key[..]);
    assert_eq!(le_u32(&raw[37..41]), 0xCBF43926);
    assert_eq!(le_u32(&raw[41..45]), 0);
}

#[test]
fn response_checksum_covers_the_key_alone() {
    let key: Vec<u8> = vec![1, 2, 3, 4, 5];
    let response = ClientEncryptResponse {
        target_job_id: u64::MAX,
        source_job_id: u64::MAX,
        protocol: 1,
        encrypted_key: key.clone(),
    };
    let mut raw = Vec::new();
    response.encode(&mut raw);
    let n = key.len();
    let stored = le_u32(&raw[28 + n..32 + n]);
    assert_eq!(stored, crc::crc32::checksum_ieee(&key));
    assert_ne!(stored, crc::crc32::checksum_ieee(&raw[0..28 + n]));
}
