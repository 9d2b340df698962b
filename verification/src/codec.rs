use vstd::prelude::*;

use crate::error::NetworkError;
use crate::wire::push_bytes;
use crate::wire::push_u32_le;
use crate::wire::read_u32_at;

verus! {

broadcast use vstd::array::group_array_axioms;

/// The number of bytes in a frame header: a 4-byte little-endian payload
/// length followed by the 4-byte magic.
pub const FRAME_HEADER_LEN: usize = 8;

/// The fixed magic that identifies the protocol family: the ASCII bytes of
/// `VT01`.
pub open spec fn spec_magic() -> Seq<u8> {
    seq![0x56u8, 0x54u8, 0x30u8, 0x31u8]
}

/// The bytes of one whole frame carrying `payload`: the little-endian payload
/// length, then the magic, then the payload itself.
pub open spec fn spec_frame_bytes(payload: Seq<u8>) -> Seq<u8>
    recommends
        payload.len() <= u32::MAX,
{
    vstd::bytes::spec_u32_to_le_bytes(payload.len() as u32) + spec_magic() + payload
}

/// A frame header as read off the wire: the payload byte count and the raw
/// magic that followed it. A header is only trusted after `validate` accepts
/// its magic; `length` then bounds the payload read that follows.
pub struct Header {
    pub length: u32,
    pub magic: [u8; 4],
}

impl Header {
    /// Whether this header carries the fixed magic.
    pub open spec fn magic_ok(self) -> bool {
        self.magic@ == spec_magic()
    }

    /// Accepts the header exactly when its magic equals the fixed constant.
    pub fn validate(&self) -> (r: Result<(), NetworkError>)
        ensures
            r is Ok <==> self.magic_ok(),
            !self.magic_ok() ==> r == Err::<(), NetworkError>(NetworkError::InvalidHeader),
    {
        let m0 = *vstd::array::array_index_get(&self.magic, 0);
        let m1 = *vstd::array::array_index_get(&self.magic, 1);
        let m2 = *vstd::array::array_index_get(&self.magic, 2);
        let m3 = *vstd::array::array_index_get(&self.magic, 3);
        if m0 == 0x56 && m1 == 0x54 && m2 == 0x30 && m3 == 0x31 {
            proof {
                assert(self.magic@ =~= spec_magic());
            }
            Ok(())
        } else {
            proof {
                assert(self.magic@ != spec_magic()) by {
                    if self.magic@ == spec_magic() {
                        assert(self.magic@[0] == 0x56u8);
                        assert(self.magic@[1] == 0x54u8);
                        assert(self.magic@[2] == 0x30u8);
                        assert(self.magic@[3] == 0x31u8);
                    }
                }
            }
            Err(NetworkError::InvalidHeader)
        }
    }
}

/// Decodes the fixed 8-byte frame header: the little-endian length first,
/// then the 4 magic bytes, in that order.
pub fn parse_header(bytes: &[u8]) -> (h: Header)
    requires
        bytes@.len() == FRAME_HEADER_LEN,
    ensures
        h.length == vstd::bytes::spec_u32_from_le_bytes(bytes@.subrange(0, 4)),
        h.magic@ == bytes@.subrange(4, 8),
{
    let length = read_u32_at(bytes, 0);
    let magic: [u8; 4] = [
        *vstd::slice::slice_index_get(bytes, 4),
        *vstd::slice::slice_index_get(bytes, 5),
        *vstd::slice::slice_index_get(bytes, 6),
        *vstd::slice::slice_index_get(bytes, 7),
    ];
    let h = Header { length, magic };
    proof {
        assert(h.magic@ =~= bytes@.subrange(4, 8));
    }
    h
}

/// Builds the single contiguous byte sequence that carries `payload` as one
/// frame, ready for one write followed by a flush.
pub fn encode_frame(payload: &[u8]) -> (frame: Vec<u8>)
    requires
        payload@.len() <= u32::MAX,
    ensures
        frame@ == spec_frame_bytes(payload@),
        frame@.len() == FRAME_HEADER_LEN + payload@.len(),
{
    let mut frame: Vec<u8> = Vec::new();
    push_u32_le(&mut frame, payload.len() as u32);
    let magic: [u8; 4] = [0x56, 0x54, 0x30, 0x31];
    push_bytes(&mut frame, vstd::array::array_as_slice(&magic));
    push_bytes(&mut frame, payload);
    proof {
        vstd::bytes::lemma_auto_spec_u32_to_from_le_bytes();
        assert(magic@ =~= spec_magic());
        assert(frame@ =~= spec_frame_bytes(payload@));
    }
    frame
}

/// Law: a frame built for any payload parses back to that same payload.
/// The header's length field decodes to the payload's byte count, its magic
/// is the accepted constant, and the bytes after the header are the payload.
pub proof fn lemma_frame_round_trip(payload: Seq<u8>)
    requires
        payload.len() <= u32::MAX,
    ensures
        spec_frame_bytes(payload).len() == FRAME_HEADER_LEN + payload.len(),
        vstd::bytes::spec_u32_from_le_bytes(spec_frame_bytes(payload).subrange(0, 4))
            == payload.len(),
        spec_frame_bytes(payload).subrange(4, 8) == spec_magic(),
        spec_frame_bytes(payload).skip(8) == payload,
{
    vstd::bytes::lemma_auto_spec_u32_to_from_le_bytes();
    let frame = spec_frame_bytes(payload);
    assert(frame.subrange(0, 4) =~= vstd::bytes::spec_u32_to_le_bytes(payload.len() as u32));
    assert(frame.subrange(4, 8) =~= spec_magic());
    assert(frame.skip(8) =~= payload);
}

} // verus!
