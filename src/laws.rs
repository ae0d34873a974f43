//! What holds across the builders and the decoder.
use vstd::prelude::*;
use crate::bytes::{
    be_u16, be_u32, be_u64, lemma_be_u32_zero, lemma_u16_round_trip, lemma_u32_round_trip, lemma_u64_round_trip, u16_from_be,
    u64_from_be,
};
use crate::handshake::{handshake, lemma_protocol_name, protocol_name};
use crate::messages::{
    block_ref_payload, frame, parse_frame, piece_payload, CodecError, MsgView, PayloadView,
};
use crate::tracker::{announce_request, connect_request, PROTOCOL_ID};

verus! {

/// The frame of a choke, unchoke, interested or not-interested message
/// decodes to its id with no payload.
pub proof fn lemma_no_payload_round_trip(id: u8)
    requires
        id <= 3,
    ensures
        parse_frame(frame(id, seq![])) == Ok::<MsgView, CodecError>(
            MsgView { size: 1, id, payload: PayloadView::NoPayload },
        ),
{
    let s = frame(id, seq![]);
    assert(s.subrange(0, 4) =~= be_u32(1));
    lemma_u32_round_trip(1);
}

/// The frame of a have message decodes to the same piece index.
pub proof fn lemma_have_round_trip(piece_index: u32)
    ensures
        parse_frame(frame(4, be_u32(piece_index))) == Ok::<MsgView, CodecError>(
            MsgView { size: 5, id: 4, payload: PayloadView::Have { piece_index } },
        ),
{
    let s = frame(4, be_u32(piece_index));
    lemma_u32_round_trip(5);
    lemma_u32_round_trip(piece_index);
    assert(s.subrange(5, 9) =~= be_u32(piece_index));
}

/// The frame of a bitfield message decodes to the same bits, where there is
/// at least one byte of them: an empty bitfield decodes as one zero byte.
pub proof fn lemma_bitfield_round_trip(bits: Seq<u8>)
    requires
        bits.len() > 0,
        bits.len() + 1 <= u32::MAX,
    ensures
        parse_frame(frame(5, bits)) == Ok::<MsgView, CodecError>(
            MsgView {
                size: (bits.len() + 1) as u32,
                id: 5,
                payload: PayloadView::Bitfield { bits },
            },
        ),
{
    let s = frame(5, bits);
    lemma_u32_round_trip((bits.len() + 1) as u32);
    assert(s.subrange(5, s.len() as int) =~= bits);
}

/// The frame of a request decodes to the same index, begin and length.
pub proof fn lemma_request_round_trip(index: u32, begin: u32, length: u32)
    ensures
        parse_frame(frame(6, block_ref_payload(index, begin, length))) == Ok::<
            MsgView,
            CodecError,
        >(MsgView { size: 13, id: 6, payload: PayloadView::Request { index, begin, length } }),
{
    let p = block_ref_payload(index, begin, length);
    let s = frame(6, p);
    lemma_u32_round_trip(13);
    lemma_u32_round_trip(index);
    lemma_u32_round_trip(begin);
    lemma_u32_round_trip(length);
    assert(s.subrange(5, s.len() as int) =~= p);
    assert(p.subrange(4, 8) =~= be_u32(begin));
    assert(p.subrange(8, 12) =~= be_u32(length));
}

/// The frame of a piece decodes to the same index, begin and block.
pub proof fn lemma_piece_round_trip(index: u32, begin: u32, block: Seq<u8>)
    requires
        block.len() + 9 <= u32::MAX,
    ensures
        parse_frame(frame(7, piece_payload(index, begin, block))) == Ok::<MsgView, CodecError>(
            MsgView {
                size: (block.len() + 9) as u32,
                id: 7,
                payload: PayloadView::Piece { index, begin, block },
            },
        ),
{
    let p = piece_payload(index, begin, block);
    let s = frame(7, p);
    lemma_u32_round_trip((block.len() + 9) as u32);
    lemma_u32_round_trip(index);
    lemma_u32_round_trip(begin);
    assert(s.subrange(5, s.len() as int) =~= p);
    assert(p.subrange(4, 8) =~= be_u32(begin));
    assert(p.subrange(8, p.len() as int) =~= block);
}

/// The frame of a cancel decodes to the same index, begin and length.
pub proof fn lemma_cancel_round_trip(index: u32, begin: u32, length: u32)
    ensures
        parse_frame(frame(8, block_ref_payload(index, begin, length))) == Ok::<
            MsgView,
            CodecError,
        >(MsgView { size: 13, id: 8, payload: PayloadView::Cancel { index, begin, length } }),
{
    let p = block_ref_payload(index, begin, length);
    let s = frame(8, p);
    lemma_u32_round_trip(13);
    lemma_u32_round_trip(index);
    lemma_u32_round_trip(begin);
    lemma_u32_round_trip(length);
    assert(s.subrange(5, s.len() as int) =~= p);
    assert(p.subrange(4, 8) =~= be_u32(begin));
    assert(p.subrange(8, 12) =~= be_u32(length));
}

/// The frame of a port message decodes to the same port.
pub proof fn lemma_port_round_trip(port: u16)
    ensures
        parse_frame(frame(9, be_u16(port))) == Ok::<MsgView, CodecError>(
            MsgView { size: 3, id: 9, payload: PayloadView::Port { port } },
        ),
{
    let s = frame(9, be_u16(port));
    lemma_u32_round_trip(3);
    lemma_u16_round_trip(port);
    assert(s.subrange(5, 7) =~= be_u16(port));
}

/// A keep-alive decodes without error, as id 0 with no payload.
pub proof fn lemma_keep_alive_parses()
    ensures
        parse_frame(seq![0u8, 0, 0, 0]) == Ok::<MsgView, CodecError>(
            MsgView { size: 0, id: 0, payload: PayloadView::NoPayload },
        ),
{
    lemma_u32_round_trip(0);
    lemma_be_u32_zero();
}

/// A handshake with a 20-byte info hash and a 20-byte peer id has 68 bytes:
/// 19, then the protocol string, then eight zero bytes, the info hash and the
/// peer id.
pub proof fn lemma_handshake_layout(info_hash: Seq<u8>, peer_id: Seq<u8>)
    requires
        info_hash.len() == 20,
        peer_id.len() == 20,
    ensures
        handshake(info_hash, peer_id).len() == 68,
        handshake(info_hash, peer_id)[0] == 19,
        handshake(info_hash, peer_id).subrange(1, 20) == protocol_name(),
        forall|i: int| 20 <= i < 28 ==> handshake(info_hash, peer_id)[i] == 0,
        handshake(info_hash, peer_id).subrange(28, 48) == info_hash,
        handshake(info_hash, peer_id).subrange(48, 68) == peer_id,
{
    lemma_protocol_name();
    let h = handshake(info_hash, peer_id);
    assert(h.subrange(1, 20) =~= protocol_name());
    assert(h.subrange(28, 48) =~= info_hash);
    assert(h.subrange(48, 68) =~= peer_id);
}

/// Every connect request has 16 bytes, opens with the protocol id as a
/// big-endian 64-bit number, and carries action 0.
pub proof fn lemma_connect_request_header(transaction_id: i32)
    ensures
        connect_request(transaction_id).len() == 16,
        u64_from_be(connect_request(transaction_id).subrange(0, 8)) == PROTOCOL_ID,
        connect_request(transaction_id).subrange(8, 12) == seq![0u8, 0, 0, 0],
{
    let c = connect_request(transaction_id);
    lemma_u64_round_trip(PROTOCOL_ID);
    assert(c.subrange(0, 8) =~= be_u64(PROTOCOL_ID));
    lemma_be_u32_zero();
    assert(c.subrange(8, 12) =~= be_u32(0));
}

/// An announce request with a 20-byte info hash and a 20-byte peer id has 98
/// bytes, with the bytes left at offsets 64 to 71 and the port at 96 and 97.
pub proof fn lemma_announce_fields(
    connection_id: i64,
    transaction_id: i32,
    info_hash: Seq<u8>,
    peer_id: Seq<u8>,
    left: u64,
    port: i16,
)
    requires
        info_hash.len() == 20,
        peer_id.len() == 20,
    ensures
        announce_request(connection_id, transaction_id, info_hash, peer_id, left, port).len() == 98,
        u64_from_be(
            announce_request(connection_id, transaction_id, info_hash, peer_id, left, port).subrange(
                64,
                72,
            ),
        ) == left,
        u16_from_be(
            announce_request(connection_id, transaction_id, info_hash, peer_id, left, port).subrange(
                96,
                98,
            ),
        ) == port as u16,
{
    let a = announce_request(connection_id, transaction_id, info_hash, peer_id, left, port);
    lemma_u64_round_trip(left);
    lemma_u16_round_trip(port as u16);
    assert(a.subrange(64, 72) =~= be_u64(left));
    assert(a.subrange(96, 98) =~= be_u16(port as u16));
}

} // verus!
