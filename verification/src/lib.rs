use vstd::prelude::*;

mod body;
mod codec;
mod error;
mod handshake;
mod kind;
mod wire;

pub use handshake::Handshake;
pub use handshake::HandshakeAction;
pub use handshake::HandshakeState;
pub use handshake::spec_is_kind;
pub use handshake::spec_resolve_error;
pub use handshake::ENCRYPT_RESULT_OK;

pub use body::lemma_response_bytes_len;
pub use body::spec_crc32_ieee;
pub use body::spec_response_bytes;
pub use body::ChannelEncryptRequestBody;
pub use body::ChannelEncryptResultBody;
pub use body::ClientEncryptResponse;
pub use body::ENCRYPT_REQUEST_BODY_LEN;
pub use body::ENCRYPT_RESULT_BODY_LEN;

pub use codec::encode_frame;
pub use codec::lemma_frame_round_trip;
pub use codec::parse_header;
pub use codec::spec_frame_bytes;
pub use codec::spec_magic;
pub use codec::Header;
pub use codec::FRAME_HEADER_LEN;
pub use error::NetworkError;
pub use kind::emsg_known;
pub use kind::spec_abs_code;
pub use kind::spec_payload_code;
pub use kind::spec_resolves;
pub use kind::RawNetMessage;
pub use kind::CHANNEL_ENCRYPT_REQUEST;
pub use kind::CHANNEL_ENCRYPT_RESPONSE;
pub use kind::CHANNEL_ENCRYPT_RESULT;
pub use wire::spec_i32_from_le_bytes;
pub use wire::spec_i32_to_le_bytes;
