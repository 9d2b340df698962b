use vstd::prelude::*;

use crate::error::NetworkError;
use crate::wire::copy_range;
use crate::wire::push_bytes;
use crate::wire::push_i32_le;
use crate::wire::push_u32_le;
use crate::wire::push_u64_le;
use crate::wire::read_u32_at;
use crate::wire::read_u64_at;
use crate::wire::spec_i32_to_le_bytes;
use crate::kind::channel_encrypt_response_code;
use crate::kind::CHANNEL_ENCRYPT_RESPONSE;

verus! {

/// The exact encoded size of a "channel encrypt request" body.
pub const ENCRYPT_REQUEST_BODY_LEN: usize = 40;

/// The exact encoded size of a "channel encrypt result" body.
pub const ENCRYPT_RESULT_BODY_LEN: usize = 20;

/// The IEEE CRC-32 of a byte sequence. This names what
/// `crc::crc32::checksum_ieee` returns, a function of the bytes alone.
pub uninterp spec fn spec_crc32_ieee(data: Seq<u8>) -> u32;

/// Relies on `crc::crc32::checksum_ieee`: the IEEE CRC-32 checksum of `data`.
#[verifier::external_body]
fn crc32_ieee(data: &[u8]) -> (r: u32)
    ensures
        r == spec_crc32_ieee(data@),
{
    crc::crc32::checksum_ieee(data)
}

/// The server-to-client payload that opens the handshake. Fixed 40-byte
/// little-endian layout; `nonce` always holds 16 bytes of opaque material.
#[derive(Debug, PartialEq, Eq)]
pub struct ChannelEncryptRequestBody {
    pub target_job_id: u64,
    pub source_job_id: u64,
    pub protocol: u32,
    pub universe: u32,
    pub nonce: Vec<u8>,
}

impl ChannelEncryptRequestBody {
    /// Whether this value is the exact decoding of the 40 bytes of `s`.
    pub open spec fn is_decoding_of(self, s: Seq<u8>) -> bool {
        &&& s.len() == ENCRYPT_REQUEST_BODY_LEN
        &&& self.target_job_id == vstd::bytes::spec_u64_from_le_bytes(s.subrange(0, 8))
        &&& self.source_job_id == vstd::bytes::spec_u64_from_le_bytes(s.subrange(8, 16))
        &&& self.protocol == vstd::bytes::spec_u32_from_le_bytes(s.subrange(16, 20))
        &&& self.universe == vstd::bytes::spec_u32_from_le_bytes(s.subrange(20, 24))
        &&& self.nonce@ == s.subrange(24, 40)
    }

    /// Decodes the fixed layout; any input that is not exactly 40 bytes is a
    /// protocol error, never a partial decode.
    pub fn decode(data: &[u8]) -> (r: Result<ChannelEncryptRequestBody, NetworkError>)
        ensures
            data@.len() == ENCRYPT_REQUEST_BODY_LEN ==> (r matches Ok(b) && b.is_decoding_of(
                data@,
            )),
            data@.len() != ENCRYPT_REQUEST_BODY_LEN ==> r == Err::<
                ChannelEncryptRequestBody,
                NetworkError,
            >(NetworkError::UnexpectedHandshake("Invalid encrypt request body")),
    {
        if data.len() != ENCRYPT_REQUEST_BODY_LEN {
            return Err(NetworkError::UnexpectedHandshake("Invalid encrypt request body"));
        }
        let target_job_id = read_u64_at(data, 0);
        let source_job_id = read_u64_at(data, 8);
        let protocol = read_u32_at(data, 16);
        let universe = read_u32_at(data, 20);
        let nonce = copy_range(data, 24, 40);
        Ok(ChannelEncryptRequestBody { target_job_id, source_job_id, protocol, universe, nonce })
    }
}

/// The server-to-client payload that closes the handshake. Fixed 20-byte
/// little-endian layout.
#[derive(Debug, PartialEq, Eq, Structural, Clone, Copy)]
pub struct ChannelEncryptResultBody {
    pub target_job_id: u64,
    pub source_job_id: u64,
    pub result: u32,
}

impl ChannelEncryptResultBody {
    /// Whether this value is the exact decoding of the 20 bytes of `s`.
    pub open spec fn is_decoding_of(self, s: Seq<u8>) -> bool {
        &&& s.len() == ENCRYPT_RESULT_BODY_LEN
        &&& self.target_job_id == vstd::bytes::spec_u64_from_le_bytes(s.subrange(0, 8))
        &&& self.source_job_id == vstd::bytes::spec_u64_from_le_bytes(s.subrange(8, 16))
        &&& self.result == vstd::bytes::spec_u32_from_le_bytes(s.subrange(16, 20))
    }

    /// Decodes the fixed layout; any input that is not exactly 20 bytes is a
    /// protocol error, never a partial decode.
    pub fn decode(data: &[u8]) -> (r: Result<ChannelEncryptResultBody, NetworkError>)
        ensures
            data@.len() == ENCRYPT_RESULT_BODY_LEN ==> (r matches Ok(b) && b.is_decoding_of(
                data@,
            )),
            data@.len() != ENCRYPT_RESULT_BODY_LEN ==> r == Err::<
                ChannelEncryptResultBody,
                NetworkError,
            >(NetworkError::UnexpectedHandshake("Invalid encrypt result body")),
    {
        if data.len() != ENCRYPT_RESULT_BODY_LEN {
            return Err(NetworkError::UnexpectedHandshake("Invalid encrypt result body"));
        }
        let target_job_id = read_u64_at(data, 0);
        let source_job_id = read_u64_at(data, 8);
        let result = read_u32_at(data, 16);
        Ok(ChannelEncryptResultBody { target_job_id, source_job_id, result })
    }
}

/// The client-to-server reply carrying the encrypted session key.
#[derive(Debug, PartialEq, Eq)]
pub struct ClientEncryptResponse {
    pub target_job_id: u64,
    pub source_job_id: u64,
    pub protocol: u32,
    pub encrypted_key: Vec<u8>,
}

/// The exact wire encoding of the client's encrypt response: the signed kind
/// code (the negative of the "channel encrypt response" code), both job ids,
/// the protocol, a length prefix for the encrypted key, the key bytes, the
/// IEEE CRC-32 of those key bytes alone, and a reserved zero word.
pub open spec fn spec_response_bytes(
    target_job_id: u64,
    source_job_id: u64,
    protocol: u32,
    encrypted_key: Seq<u8>,
) -> Seq<u8>
    recommends
        encrypted_key.len() <= u32::MAX,
{
    spec_i32_to_le_bytes((0 - CHANNEL_ENCRYPT_RESPONSE as int) as i32)
        + vstd::bytes::spec_u64_to_le_bytes(target_job_id)
        + vstd::bytes::spec_u64_to_le_bytes(source_job_id)
        + vstd::bytes::spec_u32_to_le_bytes(protocol)
        + vstd::bytes::spec_u32_to_le_bytes(encrypted_key.len() as u32)
        + encrypted_key
        + vstd::bytes::spec_u32_to_le_bytes(spec_crc32_ieee(encrypted_key))
        + vstd::bytes::spec_u32_to_le_bytes(0)
}

/// Law: the encoded response is exactly the kind code, two job ids, the
/// protocol, the key's length prefix, the key itself, its checksum and the
/// reserved word — so a frame carrying it declares this length in its header.
pub proof fn lemma_response_bytes_len(
    target_job_id: u64,
    source_job_id: u64,
    protocol: u32,
    encrypted_key: Seq<u8>,
)
    ensures
        spec_response_bytes(target_job_id, source_job_id, protocol, encrypted_key).len() == 4 + 8
            + 8 + 4 + 4 + encrypted_key.len() + 4 + 4,
{
    vstd::bytes::lemma_auto_spec_u32_to_from_le_bytes();
    vstd::bytes::lemma_auto_spec_u64_to_from_le_bytes();
}

impl ClientEncryptResponse {
    /// The encoding of this response, over its fields.
    pub open spec fn spec_encoding(self) -> Seq<u8> {
        spec_response_bytes(
            self.target_job_id,
            self.source_job_id,
            self.protocol,
            self.encrypted_key@,
        )
    }

    /// Appends the wire encoding of this response to `out`, bit-for-bit in
    /// the order the protocol fixes.
    pub fn encode(&self, out: &mut Vec<u8>)
        requires
            self.encrypted_key@.len() <= u32::MAX,
        ensures
            final(out)@ == old(out)@ + self.spec_encoding(),
            final(out)@.len() == old(out)@.len() + 36 + self.encrypted_key@.len(),
    {
        let neg_code = 0 - channel_encrypt_response_code();
        push_i32_le(out, neg_code);
        push_u64_le(out, self.target_job_id);
        push_u64_le(out, self.source_job_id);
        push_u32_le(out, self.protocol);
        push_u32_le(out, self.encrypted_key.len() as u32);
        push_bytes(out, self.encrypted_key.as_slice());
        let checksum = crc32_ieee(self.encrypted_key.as_slice());
        push_u32_le(out, checksum);
        push_u32_le(out, 0);
        proof {
            vstd::bytes::lemma_auto_spec_u32_to_from_le_bytes();
            vstd::bytes::lemma_auto_spec_u64_to_from_le_bytes();
            assert(out@ =~= old(out)@ + self.spec_encoding());
        }
    }
}

} // verus!
