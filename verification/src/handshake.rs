use vstd::prelude::*;

use crate::body::spec_response_bytes;
use crate::body::ChannelEncryptRequestBody;
use crate::body::ChannelEncryptResultBody;
use crate::body::ClientEncryptResponse;
use crate::body::ENCRYPT_REQUEST_BODY_LEN;
use crate::body::ENCRYPT_RESULT_BODY_LEN;
use crate::error::NetworkError;
use crate::kind::spec_abs_code;
use crate::kind::spec_payload_code;
use crate::kind::spec_resolves;
use crate::kind::RawNetMessage;
use crate::kind::CHANNEL_ENCRYPT_REQUEST;
use crate::kind::CHANNEL_ENCRYPT_RESULT;

verus! {

/// The result code with which the peer confirms a successful negotiation.
pub const ENCRYPT_RESULT_OK: u32 = 1;

/// Relies on `steam_vent_crypto::generate_session_key`: derives a session key
/// from a 16-byte nonce. Its source fixes the plaintext half at 32 random
/// bytes (`[u8; 32]`); the encrypted half is a randomized RSA ciphertext, so
/// nothing is promised about its contents or length.
#[verifier::external_body]
fn derive_session_key(nonce: &[u8]) -> (r: (Vec<u8>, Vec<u8>))
    requires
        nonce@.len() == 16,
    ensures
        r.0@.len() == 32,
{
    let fixed: &[u8; 16] = nonce.try_into().unwrap();
    let keys = steam_vent_crypto::generate_session_key(Some(fixed));
    (keys.plain.to_vec(), keys.encrypted)
}

/// Where the channel-establishment negotiation stands.
#[derive(Debug, Clone, Copy, PartialEq, Eq, Structural)]
pub enum HandshakeState {
    /// Waiting for the peer's "channel encrypt request".
    AwaitEncryptRequest,
    /// The response frame was produced; waiting for "channel encrypt result".
    AwaitEncryptResult,
    /// The peer confirmed the key: the channel is established.
    Established,
    /// A fatal error ended the negotiation.
    Failed,
}

/// What the driver must do after feeding one frame to the state machine.
#[derive(Debug, PartialEq, Eq)]
pub enum HandshakeAction {
    /// Write this payload as one frame, then wait for the next frame.
    Send(Vec<u8>),
    /// The negotiation is complete; the session key is available.
    Established,
}

/// The two-round channel-establishment state machine. The driver owns the
/// transport: it reads one frame at a time, hands each payload to
/// `on_frame`, and performs the returned action. The machine itself never
/// touches the stream, so every step is verified for every frame the peer
/// could send.
pub struct Handshake {
    /// The current negotiation step.
    pub state: HandshakeState,
    /// The plaintext session key, once derived; 32 bytes, retained for the
    /// established connection.
    pub session_key: Option<Vec<u8>>,
}

/// Whether a payload resolves to the message kind of magnitude `code`.
pub open spec fn spec_is_kind(payload: Seq<u8>, code: i32) -> bool {
    &&& spec_resolves(payload)
    &&& spec_abs_code(spec_payload_code(payload)) == code
}

/// The error with which resolution of `payload` fails, when it does.
pub open spec fn spec_resolve_error(payload: Seq<u8>) -> NetworkError {
    if payload.len() < 4 {
        NetworkError::InvalidMessageKind(0)
    } else {
        NetworkError::InvalidMessageKind(spec_payload_code(payload))
    }
}

impl Handshake {
    /// A session key, when present, holds exactly 32 bytes, and one is
    /// always present once the response has been sent.
    pub open spec fn wf(self) -> bool {
        &&& (self.session_key matches Some(k) ==> k@.len() == 32)
        &&& (self.state is AwaitEncryptResult ==> self.session_key is Some)
        &&& (self.state is Established ==> self.session_key is Some)
    }

    /// A fresh negotiation: waiting for the peer's encrypt request, no key.
    pub fn new() -> (h: Handshake)
        ensures
            h.state is AwaitEncryptRequest,
            h.session_key is None,
            h.wf(),
    {
        Handshake { state: HandshakeState::AwaitEncryptRequest, session_key: None }
    }

    /// Feeds the payload of one received frame to the negotiation.
    ///
    /// From `AwaitEncryptRequest`, only a well-formed "channel encrypt
    /// request" is accepted: a session key is derived from its nonce and the
    /// encoded "channel encrypt response" comes back as the payload to send.
    /// From `AwaitEncryptResult`, only a well-formed "channel encrypt result"
    /// is accepted, and only a success code establishes the channel. Every
    /// other frame is fatal: the machine moves to `Failed` and returns the
    /// typed error, and no payload is handed out to be written.
    pub fn on_frame(&mut self, payload: &[u8]) -> (r: Result<HandshakeAction, NetworkError>)
        requires
            old(self).wf(),
        ensures
            final(self).wf(),
            // A finished negotiation accepts no further frame.
            (old(self).state is Established || old(self).state is Failed) ==> *final(self) == *old(self) && r == Err::<HandshakeAction, NetworkError>(
                NetworkError::UnexpectedHandshake("Handshake already finished"),
            ),
            // First round: anything but a resolvable frame fails resolution's way.
            old(self).state is AwaitEncryptRequest && !spec_resolves(payload@) ==> final(self).state is Failed && r == Err::<HandshakeAction, NetworkError>(
                spec_resolve_error(payload@),
            ) && final(self).session_key == old(self).session_key,
            // First round: a frame of any other kind is rejected before any write.
            old(self).state is AwaitEncryptRequest && spec_resolves(payload@) && !spec_is_kind(
                payload@,
                CHANNEL_ENCRYPT_REQUEST,
            ) ==> final(self).state is Failed && r == Err::<HandshakeAction, NetworkError>(
                NetworkError::UnexpectedHandshake("Expected encrypt request"),
            ) && final(self).session_key == old(self).session_key,
            // First round: a request body of the wrong size is rejected.
            old(self).state is AwaitEncryptRequest && spec_is_kind(
                payload@,
                CHANNEL_ENCRYPT_REQUEST,
            ) && payload@.len() != 4 + ENCRYPT_REQUEST_BODY_LEN ==> final(self).state is Failed && r == Err::<HandshakeAction, NetworkError>(
                NetworkError::UnexpectedHandshake("Malformed encrypt request"),
            ) && final(self).session_key == old(self).session_key,
            // First round, accepted: some derived key is echoed back encoded,
            // with the request's protocol and all-ones job ids.
            old(self).state is AwaitEncryptRequest && spec_is_kind(
                payload@,
                CHANNEL_ENCRYPT_REQUEST,
            ) && payload@.len() == 4 + ENCRYPT_REQUEST_BODY_LEN ==> match r {
                Ok(action) => {
                    &&& final(self).state is AwaitEncryptResult
                    &&& (final(self).session_key matches Some(k) && k@.len() == 32)
                    &&& (action matches HandshakeAction::Send(buf) && exists|ek: Seq<u8>|
                        ek.len() <= u32::MAX && buf@ == spec_response_bytes(
                            u64::MAX,
                            u64::MAX,
                            vstd::bytes::spec_u32_from_le_bytes(payload@.subrange(20, 24)),
                            ek,
                        ))
                },
                Err(e) => {
                    // Only a derived ciphertext too large for the length
                    // prefix is refused, whatever the primitive returned.
                    &&& final(self).state is Failed
                    &&& e == NetworkError::UnexpectedHandshake("Oversized encrypted key")
                },
            },
            // Second round: anything but a resolvable frame fails resolution's way.
            old(self).state is AwaitEncryptResult && !spec_resolves(payload@) ==> final(self).state is Failed && r == Err::<HandshakeAction, NetworkError>(
                spec_resolve_error(payload@),
            ) && final(self).session_key == old(self).session_key,
            // Second round: a frame of any other kind is rejected.
            old(self).state is AwaitEncryptResult && spec_resolves(payload@) && !spec_is_kind(
                payload@,
                CHANNEL_ENCRYPT_RESULT,
            ) ==> final(self).state is Failed && r == Err::<HandshakeAction, NetworkError>(
                NetworkError::UnexpectedHandshake("Expected encrypt result"),
            ) && final(self).session_key == old(self).session_key,
            // Second round: a result body of the wrong size is rejected.
            old(self).state is AwaitEncryptResult && spec_is_kind(
                payload@,
                CHANNEL_ENCRYPT_RESULT,
            ) && payload@.len() != 4 + ENCRYPT_RESULT_BODY_LEN ==> final(self).state is Failed && r == Err::<HandshakeAction, NetworkError>(
                NetworkError::UnexpectedHandshake("Invalid encrypt result body"),
            ) && final(self).session_key == old(self).session_key,
            // Second round, well-formed: the channel is established exactly
            // when the peer reports success.
            old(self).state is AwaitEncryptResult && spec_is_kind(
                payload@,
                CHANNEL_ENCRYPT_RESULT,
            ) && payload@.len() == 4 + ENCRYPT_RESULT_BODY_LEN ==> {
                let result_code = vstd::bytes::spec_u32_from_le_bytes(payload@.subrange(20, 24));
                if result_code == ENCRYPT_RESULT_OK {
                    &&& r == Ok::<HandshakeAction, NetworkError>(HandshakeAction::Established)
                    &&& final(self).state is Established
                    &&& final(self).session_key == old(self).session_key
                } else {
                    &&& r == Err::<HandshakeAction, NetworkError>(
                        NetworkError::UnexpectedHandshake("Encryption handshake failed"),
                    )
                    &&& final(self).state is Failed
                }
            },
    {
        match self.state {
            HandshakeState::AwaitEncryptRequest => self.handle_request(payload),
            HandshakeState::AwaitEncryptResult => self.handle_result(payload),
            _ => Err(NetworkError::UnexpectedHandshake("Handshake already finished")),
        }
    }

    /// First round: accept only a "channel encrypt request", derive the
    /// session key from its nonce, and encode the response to send.
    fn handle_request(&mut self, payload: &[u8]) -> (r: Result<HandshakeAction, NetworkError>)
        requires
            old(self).wf(),
            old(self).state is AwaitEncryptRequest,
        ensures
            final(self).wf(),
            !spec_resolves(payload@) ==> final(self).state is Failed && r == Err::<
                HandshakeAction,
                NetworkError,
            >(spec_resolve_error(payload@)) && final(self).session_key == old(self).session_key,
            spec_resolves(payload@) && !spec_is_kind(payload@, CHANNEL_ENCRYPT_REQUEST) ==> final(self).state is Failed && r == Err::<HandshakeAction, NetworkError>(
                NetworkError::UnexpectedHandshake("Expected encrypt request"),
            ) && final(self).session_key == old(self).session_key,
            spec_is_kind(payload@, CHANNEL_ENCRYPT_REQUEST) && payload@.len() != 4
                + ENCRYPT_REQUEST_BODY_LEN ==> final(self).state is Failed && r == Err::<
                HandshakeAction,
                NetworkError,
            >(NetworkError::UnexpectedHandshake("Malformed encrypt request")) && final(self).session_key == old(self).session_key,
            spec_is_kind(payload@, CHANNEL_ENCRYPT_REQUEST) && payload@.len() == 4
                + ENCRYPT_REQUEST_BODY_LEN ==> match r {
                Ok(action) => {
                    &&& final(self).state is AwaitEncryptResult
                    &&& (final(self).session_key matches Some(k) && k@.len() == 32)
                    &&& (action matches HandshakeAction::Send(buf) && exists|ek: Seq<u8>|
                        ek.len() <= u32::MAX && buf@ == spec_response_bytes(
                            u64::MAX,
                            u64::MAX,
                            vstd::bytes::spec_u32_from_le_bytes(payload@.subrange(20, 24)),
                            ek,
                        ))
                },
                Err(e) => {
                    &&& final(self).state is Failed
                    &&& e == NetworkError::UnexpectedHandshake("Oversized encrypted key")
                },
            },
    {
        let message = match RawNetMessage::try_from(payload) {
            Ok(m) => m,
            Err(e) => {
                self.state = HandshakeState::Failed;
                return Err(e);
            },
        };
        let request_code = crate::kind::channel_encrypt_request_code();
        if message.kind != request_code {
            self.state = HandshakeState::Failed;
            return Err(NetworkError::UnexpectedHandshake("Expected encrypt request"));
        }
        if message.data.len() != ENCRYPT_REQUEST_BODY_LEN {
            self.state = HandshakeState::Failed;
            proof {
                assert(payload@.skip(4).len() == payload@.len() - 4);
            }
            return Err(NetworkError::UnexpectedHandshake("Malformed encrypt request"));
        }
        let request = match ChannelEncryptRequestBody::decode(message.data.as_slice()) {
            Ok(b) => b,
            Err(_) => {
                self.state = HandshakeState::Failed;
                return Err(NetworkError::UnexpectedHandshake("Invalid encrypt request body"));
            },
        };
        let (plain, encrypted) = derive_session_key(request.nonce.as_slice());
        if encrypted.len() > u32::MAX as usize {
            self.state = HandshakeState::Failed;
            return Err(NetworkError::UnexpectedHandshake("Oversized encrypted key"));
        }
        let response = ClientEncryptResponse {
            target_job_id: u64::MAX,
            source_job_id: u64::MAX,
            protocol: request.protocol,
            encrypted_key: encrypted,
        };
        let mut buf: Vec<u8> = Vec::new();
        response.encode(&mut buf);
        self.session_key = Some(plain);
        self.state = HandshakeState::AwaitEncryptResult;
        proof {
            assert(payload@.skip(4).subrange(16, 20) =~= payload@.subrange(20, 24));
            assert(buf@ == spec_response_bytes(
                u64::MAX,
                u64::MAX,
                vstd::bytes::spec_u32_from_le_bytes(payload@.subrange(20, 24)),
                response.encrypted_key@,
            ));
        }
        Ok(HandshakeAction::Send(buf))
    }

    /// Second round: accept only a well-formed "channel encrypt result" and
    /// establish the channel exactly on a success code.
    fn handle_result(&mut self, payload: &[u8]) -> (r: Result<HandshakeAction, NetworkError>)
        requires
            old(self).wf(),
            old(self).state is AwaitEncryptResult,
        ensures
            final(self).wf(),
            !spec_resolves(payload@) ==> final(self).state is Failed && r == Err::<
                HandshakeAction,
                NetworkError,
            >(spec_resolve_error(payload@)) && final(self).session_key == old(self).session_key,
            spec_resolves(payload@) && !spec_is_kind(payload@, CHANNEL_ENCRYPT_RESULT) ==> final(self).state is Failed && r == Err::<HandshakeAction, NetworkError>(
                NetworkError::UnexpectedHandshake("Expected encrypt result"),
            ) && final(self).session_key == old(self).session_key,
            spec_is_kind(payload@, CHANNEL_ENCRYPT_RESULT) && payload@.len() != 4
                + ENCRYPT_RESULT_BODY_LEN ==> final(self).state is Failed && r == Err::<
                HandshakeAction,
                NetworkError,
            >(NetworkError::UnexpectedHandshake("Invalid encrypt result body")) && final(self).session_key == old(self).session_key,
            spec_is_kind(payload@, CHANNEL_ENCRYPT_RESULT) && payload@.len() == 4
                + ENCRYPT_RESULT_BODY_LEN ==> {
                let result_code = vstd::bytes::spec_u32_from_le_bytes(payload@.subrange(20, 24));
                if result_code == ENCRYPT_RESULT_OK {
                    &&& r == Ok::<HandshakeAction, NetworkError>(HandshakeAction::Established)
                    &&& final(self).state is Established
                    &&& final(self).session_key == old(self).session_key
                } else {
                    &&& r == Err::<HandshakeAction, NetworkError>(
                        NetworkError::UnexpectedHandshake("Encryption handshake failed"),
                    )
                    &&& final(self).state is Failed
                }
            },
    {
        let message = match RawNetMessage::try_from(payload) {
            Ok(m) => m,
            Err(e) => {
                self.state = HandshakeState::Failed;
                return Err(e);
            },
        };
        let result_code = crate::kind::channel_encrypt_result_code();
        if message.kind != result_code {
            self.state = HandshakeState::Failed;
            return Err(NetworkError::UnexpectedHandshake("Expected encrypt result"));
        }
        proof {
            assert(payload@.skip(4).len() == payload@.len() - 4);
        }
        let result = match ChannelEncryptResultBody::decode(message.data.as_slice()) {
            Ok(b) => b,
            Err(e) => {
                self.state = HandshakeState::Failed;
                return Err(e);
            },
        };
        proof {
            assert(payload@.skip(4).subrange(16, 20) =~= payload@.subrange(20, 24));
        }
        if result.result == ENCRYPT_RESULT_OK {
            self.state = HandshakeState::Established;
            Ok(HandshakeAction::Established)
        } else {
            self.state = HandshakeState::Failed;
            Err(NetworkError::UnexpectedHandshake("Encryption handshake failed"))
        }
    }

    /// The negotiated 32-byte session key, once the channel is established.
    pub fn session_key(&self) -> (r: &Option<Vec<u8>>)
        ensures
            r == self.session_key,
    {
        &self.session_key
    }
}

} // verus!
