use vstd::prelude::*;

use crate::error::NetworkError;
use crate::wire::copy_range;
use crate::wire::read_i32_at;
use crate::wire::spec_i32_from_le_bytes;
use steam_vent_proto::enums_clientserver::EMsg;
use steam_vent_proto::protobuf::Enum;

verus! {

/// The message-kind code of "channel encrypt request" in the external table.
pub const CHANNEL_ENCRYPT_REQUEST: i32 = 1303;

/// The message-kind code of "channel encrypt response" in the external table.
pub const CHANNEL_ENCRYPT_RESPONSE: i32 = 1304;

/// The message-kind code of "channel encrypt result" in the external table.
pub const CHANNEL_ENCRYPT_RESULT: i32 = 1305;

/// Whether the externally supplied kind table maps `code` to a symbolic
/// message kind. This names the outcome of the generated table lookup, a
/// function of the code alone.
pub uninterp spec fn emsg_known(code: i32) -> bool;

/// Relies on `protobuf::Enum::from_i32` for `steam_vent_proto`'s `EMsg`: the
/// generated lookup returns `Some` exactly for the codes its table lists.
#[verifier::external_body]
fn emsg_table_has(code: i32) -> (r: bool)
    ensures
        r == emsg_known(code),
{
    match EMsg::from_i32(code) {
        Some(_) => true,
        None => false,
    }
}

/// Relies on `protobuf::Enum::value` of `EMsg::k_EMsgChannelEncryptRequest`:
/// the generated table gives it code 1303, and maps that code back to it.
#[verifier::external_body]
pub(crate) fn channel_encrypt_request_code() -> (r: i32)
    ensures
        r == CHANNEL_ENCRYPT_REQUEST,
        emsg_known(r),
{
    EMsg::k_EMsgChannelEncryptRequest.value()
}

/// Relies on `protobuf::Enum::value` of `EMsg::k_EMsgChannelEncryptResponse`:
/// the generated table gives it code 1304, and maps that code back to it.
#[verifier::external_body]
pub(crate) fn channel_encrypt_response_code() -> (r: i32)
    ensures
        r == CHANNEL_ENCRYPT_RESPONSE,
        emsg_known(r),
{
    EMsg::k_EMsgChannelEncryptResponse.value()
}

/// Relies on `protobuf::Enum::value` of `EMsg::k_EMsgChannelEncryptResult`:
/// the generated table gives it code 1305, and maps that code back to it.
#[verifier::external_body]
pub(crate) fn channel_encrypt_result_code() -> (r: i32)
    ensures
        r == CHANNEL_ENCRYPT_RESULT,
        emsg_known(r),
{
    EMsg::k_EMsgChannelEncryptResult.value()
}

/// The signed multiplexing code carried by the first 4 bytes of a payload.
pub open spec fn spec_payload_code(payload: Seq<u8>) -> i32
    recommends
        payload.len() >= 4,
{
    spec_i32_from_le_bytes(payload.subrange(0, 4))
}

/// The magnitude of a code, as a mathematical integer, so that the magnitude
/// of `i32::MIN` needs no widened machine type.
pub open spec fn spec_abs_code(code: i32) -> int {
    if code < 0 {
        -(code as int)
    } else {
        code as int
    }
}

/// Whether a payload resolves to a known message kind: it is long enough to
/// carry a code, and the code's magnitude is mapped by the external table.
pub open spec fn spec_resolves(payload: Seq<u8>) -> bool {
    &&& payload.len() >= 4
    &&& spec_abs_code(spec_payload_code(payload)) <= i32::MAX
    &&& emsg_known(spec_abs_code(spec_payload_code(payload)) as i32)
}

/// A decoded view over a frame's payload: the resolved message kind (as the
/// magnitude of the multiplexing code, validated against the external kind
/// table), whether the body uses the schema-based encoding (the code was
/// negative), and the body bytes that follow the 4-byte code.
#[derive(Debug, PartialEq, Eq)]
pub struct RawNetMessage {
    pub kind: i32,
    pub is_protobuf: bool,
    pub data: Vec<u8>,
}

impl RawNetMessage {
    /// Whether this message is the exact decoding of `payload`.
    pub open spec fn is_resolution_of(self, payload: Seq<u8>) -> bool {
        &&& payload.len() >= 4
        &&& self.kind == spec_abs_code(spec_payload_code(payload))
        &&& self.is_protobuf == (spec_payload_code(payload) < 0)
        &&& self.data@ == payload.skip(4)
    }

    /// Interprets the leading 4 bytes of a payload as a little-endian signed
    /// code, splits it into magnitude and sign, and validates the magnitude
    /// against the external kind table. The remaining bytes become the body.
    pub fn try_from(payload: &[u8]) -> (r: Result<RawNetMessage, NetworkError>)
        ensures
            payload@.len() < 4 ==> r == Err::<RawNetMessage, NetworkError>(
                NetworkError::InvalidMessageKind(0),
            ),
            payload@.len() >= 4 && !spec_resolves(payload@) ==> r == Err::<
                RawNetMessage,
                NetworkError,
            >(NetworkError::InvalidMessageKind(spec_payload_code(payload@))),
            spec_resolves(payload@) ==> (r matches Ok(m) && m.is_resolution_of(payload@)),
    {
        if payload.len() < 4 {
            return Err(NetworkError::InvalidMessageKind(0));
        }
        let code = read_i32_at(payload, 0);
        let is_protobuf = code < 0;
        if code == i32::MIN {
            return Err(NetworkError::InvalidMessageKind(code));
        }
        let magnitude = if code < 0 {
            -code
        } else {
            code
        };
        if !emsg_table_has(magnitude) {
            return Err(NetworkError::InvalidMessageKind(code));
        }
        let data = copy_range(payload, 4, payload.len());
        proof {
            assert(payload@.subrange(4, payload@.len() as int) =~= payload@.skip(4));
        }
        Ok(RawNetMessage { kind: magnitude, is_protobuf, data })
    }
}

} // verus!
