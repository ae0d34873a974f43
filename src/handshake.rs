//! The handshake that opens a peer connection, ahead of the framed messages.
use vstd::prelude::*;
use vstd::string::{is_ascii_spec_bytes, StringSliceAdditionalSpecFns};
use bytebuffer::ByteBuffer;
use crate::bytes::{buffer_data, push_all};

verus! {

/// The length of the protocol string, the handshake's first byte.
pub const PROTOCOL_NAME_LEN: u8 = 19;

/// The bytes of the protocol string.
pub open spec fn protocol_name() -> Seq<u8> {
    "BitTorrent protocol".spec_bytes()
}

/// The protocol string is the ASCII text `BitTorrent protocol`, 19 bytes.
pub proof fn lemma_protocol_name()
    ensures
        protocol_name() == seq![
            66u8, 105, 116, 84, 111, 114, 114, 101, 110, 116, 32, 112, 114, 111, 116, 111, 99, 111, 108,
        ],
        protocol_name().len() == PROTOCOL_NAME_LEN,
{
    reveal_strlit("BitTorrent protocol");
    is_ascii_spec_bytes("BitTorrent protocol");
    assert(protocol_name() =~= seq![
        66u8, 105, 116, 84, 111, 114, 114, 101, 110, 116, 32, 112, 114, 111, 116, 111, 99, 111, 108,
    ]);
}

/// The handshake for the file of `info_hash`, sent as the peer `peer_id`:
/// the protocol string's length and the string, eight zero reserved bytes,
/// the info hash and the peer id.
pub open spec fn handshake(info_hash: Seq<u8>, peer_id: Seq<u8>) -> Seq<u8> {
    seq![PROTOCOL_NAME_LEN] + protocol_name() + Seq::new(8, |i: int| 0u8) + info_hash + peer_id
}

/// Builds the handshake: `<pstrlen><pstr><reserved><info_hash><peer_id>`.
/// The peer id is written as it is given; a well-formed one has 20 bytes.
pub fn build_peer_handshake(info_hash: &[u8; 20], peer_id: &ByteBuffer) -> (r: ByteBuffer)
    ensures
        buffer_data(r) == handshake(info_hash@, buffer_data(*peer_id)),
{
    let mut v: Vec<u8> = Vec::new();
    v.push(PROTOCOL_NAME_LEN);
    push_all(&mut v, "BitTorrent protocol".as_bytes());
    let mut i: usize = 0;
    while i < 8
        invariant
            0 <= i <= 8,
            v@ == seq![PROTOCOL_NAME_LEN] + protocol_name() + Seq::new(i as nat, |k: int| 0u8),
        decreases 8 - i,
    {
        v.push(0);
        i = i + 1;
        assert(v@ =~= seq![PROTOCOL_NAME_LEN] + protocol_name() + Seq::new(i as nat, |k: int| 0u8));
    }
    push_all(&mut v, info_hash.as_slice());
    push_all(&mut v, peer_id.as_bytes());
    ByteBuffer::from_vec(v)
}

} // verus!
