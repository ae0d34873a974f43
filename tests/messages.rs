use bytebuffer::ByteBuffer;
use torrent_wire::messages::{
    build_bitfield, build_cancel, build_choke, build_have, build_interested, build_keep_alive,
    build_not_interested, build_piece, build_port, build_request, build_unchoke, get_msg_id, parse,
    CodecError, GenericPayload, Msg, PieceBlock,
};

fn bytes_of(b: &ByteBuffer) -> Vec<u8> {
    b.as_bytes().to_vec()
}

fn parse_bytes(v: Vec<u8>) -> Result<Msg, CodecError> {
    parse(ByteBuffer::from_vec(v))
}

#[test]
fn keep_alive_is_four_zero_bytes() {
    assert_eq!(bytes_of(&build_keep_alive()), vec![0, 0, 0, 0]);
}

#[test]
fn keep_alive_parses_as_id_zero_without_payload() {
    let m = parse(build_keep_alive()).unwrap();
    assert_eq!(m.size, 0);
    assert_eq!(m.id, 0);
    assert_eq!(m.payload, GenericPayload::NoPayload);
}

#[test]
fn choke_family_frames() {
    assert_eq!(bytes_of(&build_choke()), vec![0, 0, 0, 1, 0]);
    assert_eq!(bytes_of(&build_unchoke()), vec![0, 0, 0, 1, 1]);
    assert_eq!(bytes_of(&build_interested()), vec![0, 0, 0, 1, 2]);
    assert_eq!(bytes_of(&build_not_interested()), vec![0, 0, 0, 1, 3]);
}

#[test]
fn choke_family_round_trip() {
    let built = vec![build_choke(), build_unchoke(), build_interested(), build_not_interested()];
    for (id, b) in built.into_iter().enumerate() {
        let m = parse(b).unwrap();
        assert_eq!(m, Msg { size: 1, id: id as u8, payload: GenericPayload::NoPayload });
    }
}

#[test]
fn have_frame_and_round_trip() {
    let b = build_have(5);
    assert_eq!(bytes_of(&b), vec![0, 0, 0, 5, 4, 0, 0, 0, 5]);
    let m = parse(b).unwrap();
    assert_eq!(m.id, 4);
    assert_eq!(m.size, 5);
    assert_eq!(m.payload, GenericPayload::Have { piece_index: 5 });
}

#[test]
fn have_of_large_index_is_big_endian() {
    let b = build_have(0x0102_0304);
    assert_eq!(bytes_of(&b), vec![0, 0, 0, 5, 4, 1, 2, 3, 4]);
    assert_eq!(parse(b).unwrap().payload, GenericPayload::Have { piece_index: 0x0102_0304 });
}

#[test]
fn bitfield_frame_and_round_trip() {
    let bits = ByteBuffer::from_vec(vec![0b1010_0000, 0xff]);
    let b = build_bitfield(&bits);
    assert_eq!(bytes_of(&b), vec![0, 0, 0, 3, 5, 0b1010_0000, 0xff]);
    let m = parse(b).unwrap();
    assert_eq!(m, Msg { size: 3, id: 5, payload: GenericPayload::Bitfield { bits: vec![0b1010_0000, 0xff] } });
}

#[test]
fn empty_bitfield_decodes_as_one_zero_byte() {
    let b = build_bitfield(&ByteBuffer::new());
    assert_eq!(bytes_of(&b), vec![0, 0, 0, 1, 5]);
    assert_eq!(parse(b).unwrap().payload, GenericPayload::Bitfield { bits: vec![0] });
}

#[test]
fn request_frame_and_round_trip() {
    let b = build_request(PieceBlock { index: 0, begin: 0, length: Some(16384) }).unwrap();
    let v = bytes_of(&b);
    assert_eq!(v.len(), 17);
    assert_eq!(v, vec![0, 0, 0, 13, 6, 0, 0, 0, 0, 0, 0, 0, 0, 0, 0, 0x40, 0]);
    let m = parse(b).unwrap();
    assert_eq!(m.size, 13);
    assert_eq!(m.id, 6);
    assert_eq!(m.payload, GenericPayload::Request { index: 0, begin: 0, length: 16384 });
}

#[test]
fn request_without_length_is_refused() {
    let r = build_request(PieceBlock { index: 1, begin: 2, length: None });
    assert_eq!(r.err(), Some(CodecError::MissingRequiredField));
}

#[test]
fn piece_frame_and_round_trip() {
    let p = GenericPayload::Piece { index: 7, begin: 0x4000, block: vec![9, 8, 7] };
    let b = build_piece(&p).unwrap();
    assert_eq!(bytes_of(&b), vec![0, 0, 0, 12, 7, 0, 0, 0, 7, 0, 0, 0x40, 0, 9, 8, 7]);
    assert_eq!(parse(b).unwrap(), Msg { size: 12, id: 7, payload: p });
}

#[test]
fn piece_with_empty_block_round_trips() {
    let p = GenericPayload::Piece { index: 1, begin: 2, block: vec![] };
    let b = build_piece(&p).unwrap();
    assert_eq!(bytes_of(&b).len(), 13);
    assert_eq!(parse(b).unwrap(), Msg { size: 9, id: 7, payload: p });
}

#[test]
fn piece_without_block_is_refused() {
    let r = build_piece(&GenericPayload::Have { piece_index: 3 });
    assert_eq!(r.err(), Some(CodecError::MissingRequiredField));
}

#[test]
fn cancel_frame_and_round_trip() {
    let b = build_cancel(GenericPayload::Cancel { index: 2, begin: 16384, length: 16384 });
    assert_eq!(bytes_of(&b), vec![0, 0, 0, 13, 8, 0, 0, 0, 2, 0, 0, 0x40, 0, 0, 0, 0x40, 0]);
    let m = parse(b).unwrap();
    assert_eq!(m, Msg { size: 13, id: 8, payload: GenericPayload::Cancel { index: 2, begin: 16384, length: 16384 } });
}

#[test]
fn cancel_of_request_keeps_its_fields() {
    let b = build_cancel(GenericPayload::Request { index: 1, begin: 2, length: 3 });
    assert_eq!(bytes_of(&b), vec![0, 0, 0, 13, 8, 0, 0, 0, 1, 0, 0, 0, 2, 0, 0, 0, 3]);
}

#[test]
fn cancel_without_length_sends_zero() {
    let b = build_cancel(GenericPayload::Piece { index: 1, begin: 2, block: vec![5] });
    assert_eq!(bytes_of(&b), vec![0, 0, 0, 13, 8, 0, 0, 0, 1, 0, 0, 0, 2, 0, 0, 0, 0]);
    let z = build_cancel(GenericPayload::Unknown);
    assert_eq!(bytes_of(&z), vec![0, 0, 0, 13, 8, 0, 0, 0, 0, 0, 0, 0, 0, 0, 0, 0, 0]);
}

#[test]
fn port_frame_and_round_trip() {
    let b = build_port(6881);
    assert_eq!(bytes_of(&b), vec![0, 0, 0, 3, 9, 0x1a, 0xe1]);
    assert_eq!(parse(b).unwrap(), Msg { size: 3, id: 9, payload: GenericPayload::Port { port: 6881 } });
}

#[test]
fn frame_shorter_than_prefix_is_truncated() {
    assert_eq!(parse_bytes(vec![]).err(), Some(CodecError::TruncatedFrame));
    assert_eq!(parse_bytes(vec![0, 0, 1]).err(), Some(CodecError::TruncatedFrame));
}

#[test]
fn short_payloads_are_truncated() {
    assert_eq!(parse_bytes(vec![0, 0, 0, 3, 4, 0, 1]).err(), Some(CodecError::TruncatedFrame));
    assert_eq!(parse_bytes(vec![0, 0, 0, 1, 4]).err(), Some(CodecError::TruncatedFrame));
    assert_eq!(parse_bytes(vec![0, 0, 0, 9, 6, 0, 0, 0, 1, 0, 0, 0, 2]).err(), Some(CodecError::TruncatedFrame));
    assert_eq!(parse_bytes(vec![0, 0, 0, 5, 7, 0, 0, 0, 1]).err(), Some(CodecError::TruncatedFrame));
    assert_eq!(parse_bytes(vec![0, 0, 0, 2, 9, 1]).err(), Some(CodecError::TruncatedFrame));
}

#[test]
fn size_is_carried_not_checked() {
    let m = parse_bytes(vec![0, 0, 0, 99, 4, 0, 0, 0, 5]).unwrap();
    assert_eq!(m.size, 99);
    assert_eq!(m.payload, GenericPayload::Have { piece_index: 5 });
}

#[test]
fn unknown_id_decodes_as_unknown() {
    let m = parse_bytes(vec![0, 0, 0, 2, 20, 1]).unwrap();
    assert_eq!(m, Msg { size: 2, id: 20, payload: GenericPayload::Unknown });
}

#[test]
fn msg_id_of_frame() {
    let mut b = build_have(5);
    assert_eq!(get_msg_id(&mut b), 4);
    let mut k = build_keep_alive();
    assert_eq!(get_msg_id(&mut k), 0);
    assert_eq!(bytes_of(&b), vec![0, 0, 0, 5, 4, 0, 0, 0, 5]);
}
