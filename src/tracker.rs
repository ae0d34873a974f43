//! The UDP tracker protocol's connect and announce requests.
use vstd::prelude::*;
use bytebuffer::ByteBuffer;
use crate::bytes::{be_u16, be_u32, be_u64, buffer_data, push_all, push_u16, push_u32, push_u64};
use crate::messages::CodecError;

verus! {

/// The magic constant that opens every connect request.
pub const PROTOCOL_ID: u64 = 0x41727101980;

/// The action code of a connect request.
pub const ACTION_CONNECT: u32 = 0;

/// The action code of an announce request.
pub const ACTION_ANNOUNCE: u32 = 1;

/// What the tracker requests need to know of a torrent.
#[derive(Debug, Clone, Copy, PartialEq, Eq)]
pub struct Torrent {
    /// The info hash that names the shared file.
    pub info_hash: Option<[u8; 20]>,
    /// The file's declared total size in bytes.
    pub size: Option<u64>,
}

/// Relies on `rand::random`: a transaction id drawn from the thread-local
/// generator. Nothing is known of its value.
#[verifier::external_body]
fn random_transaction_id() -> (r: i32) {
    rand::random::<i32>()
}

/// The 16-byte connect request: protocol id, action 0, transaction id.
pub open spec fn connect_request(transaction_id: i32) -> Seq<u8> {
    be_u64(PROTOCOL_ID) + be_u32(ACTION_CONNECT) + be_u32(transaction_id as u32)
}

/// The announce request: connection id, action 1, transaction id, info hash,
/// peer id, downloaded 0, left, uploaded 0, event 0 (none), IP address 0 (the
/// sender's), key 0, num_want -1 (no preference), port.
pub open spec fn announce_request(
    connection_id: i64,
    transaction_id: i32,
    info_hash: Seq<u8>,
    peer_id: Seq<u8>,
    left: u64,
    port: i16,
) -> Seq<u8> {
    be_u64(connection_id as u64) + be_u32(ACTION_ANNOUNCE) + be_u32(transaction_id as u32)
        + info_hash + peer_id + be_u64(0) + be_u64(left) + be_u64(0) + be_u32(0) + be_u32(0)
        + be_u32(0) + be_u32((-1i32) as u32) + be_u16(port as u16)
}

/// Builds the connect request with the given transaction id.
pub fn build_conn_req_with(transaction_id: i32) -> (r: ByteBuffer)
    ensures
        buffer_data(r) == connect_request(transaction_id),
{
    let mut v: Vec<u8> = Vec::new();
    push_u64(&mut v, PROTOCOL_ID);
    push_u32(&mut v, ACTION_CONNECT);
    push_u32(&mut v, transaction_id as u32);
    ByteBuffer::from_vec(v)
}

/// Builds the connect request with a random transaction id.
pub fn build_conn_req() -> (r: ByteBuffer)
    ensures
        exists|t: i32| buffer_data(r) == connect_request(t),
{
    let t = random_transaction_id();
    build_conn_req_with(t)
}

/// Builds the announce request for `torrent` with the given transaction id;
/// a torrent without an info hash or without a size is refused.
pub fn build_announce_req_with(
    torrent: &Torrent,
    connection_id: i64,
    peer_id: &ByteBuffer,
    port: i16,
    transaction_id: i32,
) -> (r: Result<ByteBuffer, CodecError>)
    ensures
        match (torrent.info_hash, torrent.size) {
            (Some(info_hash), Some(size)) => r matches Ok(b) && buffer_data(b) == announce_request(
                connection_id,
                transaction_id,
                info_hash@,
                buffer_data(*peer_id),
                size,
                port,
            ),
            _ => r matches Err(e) && e == CodecError::MissingRequiredField,
        },
{
    let (info_hash, size) = match (torrent.info_hash, torrent.size) {
        (Some(h), Some(s)) => (h, s),
        _ => {
            return Err(CodecError::MissingRequiredField);
        },
    };
    let mut v: Vec<u8> = Vec::new();
    push_u64(&mut v, connection_id as u64);
    push_u32(&mut v, ACTION_ANNOUNCE);
    push_u32(&mut v, transaction_id as u32);
    push_all(&mut v, info_hash.as_slice());
    push_all(&mut v, peer_id.as_bytes());
    push_u64(&mut v, 0);
    push_u64(&mut v, size);
    push_u64(&mut v, 0);
    push_u32(&mut v, 0);
    push_u32(&mut v, 0);
    push_u32(&mut v, 0);
    push_u32(&mut v, (-1i32) as u32);
    push_u16(&mut v, port as u16);
    Ok(ByteBuffer::from_vec(v))
}

/// Builds the announce request for `torrent` with a random transaction id;
/// a torrent without an info hash or without a size is refused.
pub fn build_announce_req(
    torrent: &Torrent,
    connection_id: i64,
    peer_id: &ByteBuffer,
    port: i16,
) -> (r: Result<ByteBuffer, CodecError>)
    ensures
        match (torrent.info_hash, torrent.size) {
            (Some(info_hash), Some(size)) => r matches Ok(b) && exists|t: i32|
                buffer_data(b) == announce_request(
                    connection_id,
                    t,
                    info_hash@,
                    buffer_data(*peer_id),
                    size,
                    port,
                ),
            _ => r matches Err(e) && e == CodecError::MissingRequiredField,
        },
{
    let t = random_transaction_id();
    build_announce_req_with(torrent, connection_id, peer_id, port, t)
}

} // verus!
