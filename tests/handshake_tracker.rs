use bytebuffer::ByteBuffer;
use torrent_wire::handshake::build_peer_handshake;
use torrent_wire::messages::CodecError;
use torrent_wire::tracker::{build_announce_req, build_announce_req_with, build_conn_req, build_conn_req_with, Torrent};

fn be64(b: &[u8]) -> u64 {
    let mut a = [0u8; 8];
    a.copy_from_slice(b);
    u64::from_be_bytes(a)
}

#[test]
fn handshake_layout() {
    let info_hash = [0xabu8; 20];
    let peer_id = ByteBuffer::from_vec((1..=20).collect());
    let v = build_peer_handshake(&info_hash, &peer_id).as_bytes().to_vec();
    assert_eq!(v.len(), 68);
    assert_eq!(v[0], 19);
    assert_eq!(&v[1..20], "BitTorrent protocol".as_bytes());
    assert!(v[20..28].iter().all(|b| *b == 0));
    assert_eq!(&v[28..48], &info_hash[..]);
    assert_eq!(v[48..68].to_vec(), (1..=20).collect::<Vec<u8>>());
}

#[test]
fn handshake_writes_peer_id_as_given() {
    let v = build_peer_handshake(&[0u8; 20], &ByteBuffer::from_vec(vec![7, 7])).as_bytes().to_vec();
    assert_eq!(v.len(), 50);
    assert_eq!(&v[48..], &[7, 7]);
}

#[test]
fn connect_request_header() {
    let v = build_conn_req().as_bytes().to_vec();
    assert_eq!(v.len(), 16);
    assert_eq!(be64(&v[0..8]), 0x41727101980);
    assert_eq!(&v[8..12], &[0, 0, 0, 0]);
}

#[test]
fn connect_request_with_transaction_id() {
    let v = build_conn_req_with(-2).as_bytes().to_vec();
    assert_eq!(v, vec![0, 0, 4, 0x17, 0x27, 0x10, 0x19, 0x80, 0, 0, 0, 0, 0xff, 0xff, 0xff, 0xfe]);
}

fn torrent_with_size_1000() -> Torrent {
    Torrent { info_hash: Some([0x11; 20]), size: Some(1000) }
}

#[test]
fn announce_request_fields() {
    let peer_id = ByteBuffer::from_vec(vec![0x22; 20]);
    let v = build_announce_req(&torrent_with_size_1000(), 42, &peer_id, 6881).unwrap().as_bytes().to_vec();
    assert_eq!(v.len(), 98);
    assert_eq!(be64(&v[0..8]), 42);
    assert_eq!(&v[8..12], &[0, 0, 0, 1]);
    assert_eq!(be64(&v[64..72]), 1000);
    assert_eq!(u16::from_be_bytes([v[96], v[97]]), 6881);
}

#[test]
fn announce_request_exact_bytes() {
    let peer_id = ByteBuffer::from_vec(vec![0x22; 20]);
    let v = build_announce_req_with(&torrent_with_size_1000(), 42, &peer_id, 6881, 7).unwrap().as_bytes().to_vec();
    let mut want: Vec<u8> = vec![0, 0, 0, 0, 0, 0, 0, 42, 0, 0, 0, 1, 0, 0, 0, 7];
    want.extend_from_slice(&[0x11; 20]);
    want.extend_from_slice(&[0x22; 20]);
    want.extend_from_slice(&[0; 8]);
    want.extend_from_slice(&[0, 0, 0, 0, 0, 0, 0x03, 0xe8]);
    want.extend_from_slice(&[0; 8]);
    want.extend_from_slice(&[0; 12]);
    want.extend_from_slice(&[0xff, 0xff, 0xff, 0xff]);
    want.extend_from_slice(&[0x1a, 0xe1]);
    assert_eq!(v, want);
}

#[test]
fn announce_without_size_is_refused() {
    let t = Torrent { info_hash: Some([0; 20]), size: None };
    let r = build_announce_req(&t, 1, &ByteBuffer::from_vec(vec![0; 20]), 1);
    assert_eq!(r.err(), Some(CodecError::MissingRequiredField));
}

#[test]
fn announce_without_info_hash_is_refused() {
    let t = Torrent { info_hash: None, size: Some(5) };
    let r = build_announce_req_with(&t, 1, &ByteBuffer::from_vec(vec![0; 20]), 1, 0);
    assert_eq!(r.err(), Some(CodecError::MissingRequiredField));
}
