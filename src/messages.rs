//! Peer wire protocol messages: decoding one length-prefixed frame into a
//! typed message, and building the frame of each kind of message.
//!
//! A frame is `<4-byte big-endian length><1-byte id><payload>`, where the
//! length counts the id and the payload; a frame of length 0 is a keep-alive.
use vstd::prelude::*;
use vstd::slice::{slice_subrange, slice_to_vec};
use bytebuffer::ByteBuffer;
use crate::bytes::{
    be_u16, be_u32, buffer_data, lemma_be_u32_zero, push_all, push_u16, push_u32, read_u16, read_u32, u16_from_be,
    u32_from_be,
};

verus! {

/// Why a frame could not be decoded or built.
#[derive(Debug, Clone, Copy, PartialEq, Eq, Structural)]
pub enum CodecError {
    /// The frame is shorter than its length prefix, or than the payload that
    /// its message id requires.
    TruncatedFrame,
    /// A builder was handed a message intent without a field that its kind
    /// requires.
    MissingRequiredField,
}

/// The payload of a decoded message: exactly the fields of its kind.
#[derive(Debug, PartialEq, Eq)]
pub enum GenericPayload {
    /// Choke, unchoke, interested, not interested, and the keep-alive.
    NoPayload,
    Have { piece_index: u32 },
    Bitfield { bits: Vec<u8> },
    Request { index: u32, begin: u32, length: u32 },
    Piece { index: u32, begin: u32, block: Vec<u8> },
    Cancel { index: u32, begin: u32, length: u32 },
    Port { port: u16 },
    /// A message id outside the protocol's set; the caller decides what to do.
    Unknown,
}

/// The mathematical form of a payload: byte vectors become sequences.
pub enum PayloadView {
    NoPayload,
    Have { piece_index: u32 },
    Bitfield { bits: Seq<u8> },
    Request { index: u32, begin: u32, length: u32 },
    Piece { index: u32, begin: u32, block: Seq<u8> },
    Cancel { index: u32, begin: u32, length: u32 },
    Port { port: u16 },
    Unknown,
}

impl View for GenericPayload {
    type V = PayloadView;

    open spec fn view(&self) -> PayloadView {
        match self {
            GenericPayload::NoPayload => PayloadView::NoPayload,
            GenericPayload::Have { piece_index } => PayloadView::Have { piece_index: *piece_index },
            GenericPayload::Bitfield { bits } => PayloadView::Bitfield { bits: bits@ },
            GenericPayload::Request { index, begin, length } => PayloadView::Request {
                index: *index,
                begin: *begin,
                length: *length,
            },
            GenericPayload::Piece { index, begin, block } => PayloadView::Piece {
                index: *index,
                begin: *begin,
                block: block@,
            },
            GenericPayload::Cancel { index, begin, length } => PayloadView::Cancel {
                index: *index,
                begin: *begin,
                length: *length,
            },
            GenericPayload::Port { port } => PayloadView::Port { port: *port },
            GenericPayload::Unknown => PayloadView::Unknown,
        }
    }
}

/// One decoded peer wire message.
#[derive(Debug, PartialEq, Eq)]
pub struct Msg {
    /// The frame's length prefix, kept for diagnostics; decoding does not rely on it.
    pub size: u32,
    pub id: u8,
    pub payload: GenericPayload,
}

/// The mathematical form of a decoded message.
pub struct MsgView {
    pub size: u32,
    pub id: u8,
    pub payload: PayloadView,
}

impl View for Msg {
    type V = MsgView;

    open spec fn view(&self) -> MsgView {
        MsgView { size: self.size, id: self.id, payload: self.payload@ }
    }
}

/// The message id of a frame: the byte after the length prefix, or 0 where
/// the frame ends before it.
pub open spec fn frame_id(s: Seq<u8>) -> u8 {
    if s.len() > 4 {
        s[4]
    } else {
        0
    }
}

/// Every byte after the id, or a single zero byte where there is none.
pub open spec fn payload_region(s: Seq<u8>) -> Seq<u8> {
    if s.len() > 5 {
        s.subrange(5, s.len() as int)
    } else {
        seq![0u8]
    }
}

/// The fewest payload bytes that a message of kind `id` can be decoded from.
pub open spec fn required_payload_len(id: u8) -> nat {
    if id == 4 {
        4
    } else if id == 6 || id == 8 {
        12
    } else if id == 7 {
        8
    } else if id == 9 {
        2
    } else {
        0
    }
}

/// The payload of kind `id` read from the payload region `p`.
pub open spec fn decode_payload(id: u8, p: Seq<u8>) -> PayloadView {
    if id <= 3 {
        PayloadView::NoPayload
    } else if id == 4 {
        PayloadView::Have { piece_index: u32_from_be(p) }
    } else if id == 5 {
        PayloadView::Bitfield { bits: p }
    } else if id == 6 {
        PayloadView::Request {
            index: u32_from_be(p),
            begin: u32_from_be(p.subrange(4, 8)),
            length: u32_from_be(p.subrange(8, 12)),
        }
    } else if id == 7 {
        PayloadView::Piece {
            index: u32_from_be(p),
            begin: u32_from_be(p.subrange(4, 8)),
            block: p.subrange(8, p.len() as int),
        }
    } else if id == 8 {
        PayloadView::Cancel {
            index: u32_from_be(p),
            begin: u32_from_be(p.subrange(4, 8)),
            length: u32_from_be(p.subrange(8, 12)),
        }
    } else if id == 9 {
        PayloadView::Port { port: u16_from_be(p) }
    } else {
        PayloadView::Unknown
    }
}

/// What decoding the frame `s` gives: an error where it is shorter than its
/// length prefix or than the payload its id requires, else the message.
pub open spec fn parse_frame(s: Seq<u8>) -> Result<MsgView, CodecError> {
    if s.len() < 4 {
        Err(CodecError::TruncatedFrame)
    } else if payload_region(s).len() < required_payload_len(frame_id(s)) {
        Err(CodecError::TruncatedFrame)
    } else {
        Ok(
            MsgView {
                size: u32_from_be(s),
                id: frame_id(s),
                payload: decode_payload(frame_id(s), payload_region(s)),
            },
        )
    }
}

/// The frame of a message of kind `id` with the given payload.
pub open spec fn frame(id: u8, payload: Seq<u8>) -> Seq<u8> {
    be_u32((payload.len() + 1) as u32) + seq![id] + payload
}

/// The payload of a request or a cancel.
pub open spec fn block_ref_payload(index: u32, begin: u32, length: u32) -> Seq<u8> {
    be_u32(index) + be_u32(begin) + be_u32(length)
}

/// The payload of a piece.
pub open spec fn piece_payload(index: u32, begin: u32, block: Seq<u8>) -> Seq<u8> {
    be_u32(index) + be_u32(begin) + block
}

/// Returns the message id of a frame: the byte after the length prefix, or 0
/// where the frame ends before it.
pub fn get_msg_id(msg: &mut ByteBuffer) -> (r: u8)
    ensures
        r == frame_id(buffer_data(*old(msg))),
        *final(msg) == *old(msg),
{
    let data = msg.as_bytes();
    if data.len() > 4 {
        data[4]
    } else {
        0
    }
}

fn payload_len_needed(id: u8) -> (r: usize)
    ensures
        r == required_payload_len(id),
{
    if id == 4 {
        4
    } else if id == 6 || id == 8 {
        12
    } else if id == 7 {
        8
    } else if id == 9 {
        2
    } else {
        0
    }
}

/// Decodes one frame: its 4-byte length prefix, then its id and payload.
///
/// A frame that holds only the length prefix decodes as id 0 with no payload,
/// which is also what a choke decodes to. A frame too short for its id's
/// payload is refused; an id outside the protocol's set decodes as `Unknown`.
pub fn parse(msg: ByteBuffer) -> (r: Result<Msg, CodecError>)
    ensures
        match r {
            Ok(m) => parse_frame(buffer_data(msg)) == Ok::<MsgView, CodecError>(m@),
            Err(e) => parse_frame(buffer_data(msg)) == Err::<MsgView, CodecError>(e),
        },
{
    let mut msg = msg;
    let id = get_msg_id(&mut msg);
    let bytes = msg.into_vec();
    let n = bytes.len();
    if n < 4 {
        return Err(CodecError::TruncatedFrame);
    }
    let size = read_u32(bytes.as_slice(), 0);
    let p: Vec<u8> = if n > 5 {
        slice_to_vec(slice_subrange(bytes.as_slice(), 5, n))
    } else {
        vec![0u8]
    };
    assert(p@ =~= payload_region(bytes@));
    if p.len() < payload_len_needed(id) {
        return Err(CodecError::TruncatedFrame);
    }
    let ps = p.as_slice();
    let payload = if id <= 3 {
        GenericPayload::NoPayload
    } else if id == 4 {
        GenericPayload::Have { piece_index: read_u32(ps, 0) }
    } else if id == 5 {
        GenericPayload::Bitfield { bits: p }
    } else if id == 6 || id == 8 {
        let index = read_u32(ps, 0);
        let begin = read_u32(ps, 4);
        let length = read_u32(ps, 8);
        if id == 6 {
            GenericPayload::Request { index, begin, length }
        } else {
            GenericPayload::Cancel { index, begin, length }
        }
    } else if id == 7 {
        let index = read_u32(ps, 0);
        let begin = read_u32(ps, 4);
        let block = slice_to_vec(slice_subrange(ps, 8, ps.len()));
        GenericPayload::Piece { index, begin, block }
    } else if id == 9 {
        GenericPayload::Port { port: read_u16(ps, 0) }
    } else {
        GenericPayload::Unknown
    };
    Ok(Msg { size, id, payload })
}

/// A block of a piece, as the piece scheduler hands it out for requesting.
#[derive(Debug, Clone, Copy, PartialEq, Eq)]
pub struct PieceBlock {
    pub index: u32,
    pub begin: u32,
    pub length: Option<u32>,
}

/// Wraps `payload` in a frame of kind `id`.
fn framed(id: u8, payload: &[u8]) -> (r: ByteBuffer)
    requires
        payload@.len() + 1 <= u32::MAX,
    ensures
        buffer_data(r) == frame(id, payload@),
{
    let mut v: Vec<u8> = Vec::new();
    push_u32(&mut v, (payload.len() + 1) as u32);
    v.push(id);
    push_all(&mut v, payload);
    assert(v@ =~= frame(id, payload@));
    ByteBuffer::from_vec(v)
}

/// keep-alive: `<len=0000>`.
pub fn build_keep_alive() -> (r: ByteBuffer)
    ensures
        buffer_data(r) == seq![0u8, 0, 0, 0],
{
    let mut v: Vec<u8> = Vec::new();
    push_u32(&mut v, 0);
    proof {
        lemma_be_u32_zero();
    }
    ByteBuffer::from_vec(v)
}

/// choke: `<len=0001><id=0>`.
pub fn build_choke() -> (r: ByteBuffer)
    ensures
        buffer_data(r) == frame(0, seq![]),
{
    let v: Vec<u8> = Vec::new();
    framed(0, v.as_slice())
}

/// unchoke: `<len=0001><id=1>`.
pub fn build_unchoke() -> (r: ByteBuffer)
    ensures
        buffer_data(r) == frame(1, seq![]),
{
    let v: Vec<u8> = Vec::new();
    framed(1, v.as_slice())
}

/// interested: `<len=0001><id=2>`.
pub fn build_interested() -> (r: ByteBuffer)
    ensures
        buffer_data(r) == frame(2, seq![]),
{
    let v: Vec<u8> = Vec::new();
    framed(2, v.as_slice())
}

/// not interested: `<len=0001><id=3>`.
pub fn build_not_interested() -> (r: ByteBuffer)
    ensures
        buffer_data(r) == frame(3, seq![]),
{
    let v: Vec<u8> = Vec::new();
    framed(3, v.as_slice())
}

/// have: `<len=0005><id=4><piece index>`.
pub fn build_have(piece_index: u32) -> (r: ByteBuffer)
    ensures
        buffer_data(r) == frame(4, be_u32(piece_index)),
{
    let mut v: Vec<u8> = Vec::new();
    push_u32(&mut v, piece_index);
    framed(4, v.as_slice())
}

/// bitfield: `<len=0001+X><id=5><bitfield>`, one bit per piece, set where
/// the piece is had.
pub fn build_bitfield(bitfield: &ByteBuffer) -> (r: ByteBuffer)
    requires
        buffer_data(*bitfield).len() + 1 <= u32::MAX,
    ensures
        buffer_data(r) == frame(5, buffer_data(*bitfield)),
{
    framed(5, bitfield.as_bytes())
}

/// request: `<len=0013><id=6><index><begin><length>`. A block without a
/// length cannot be requested.
pub fn build_request(payload: PieceBlock) -> (r: Result<ByteBuffer, CodecError>)
    ensures
        match payload.length {
            Some(length) => r matches Ok(b) && buffer_data(b) == frame(
                6,
                block_ref_payload(payload.index, payload.begin, length),
            ),
            None => r matches Err(e) && e == CodecError::MissingRequiredField,
        },
{
    match payload.length {
        Some(length) => {
            let mut v: Vec<u8> = Vec::new();
            push_u32(&mut v, payload.index);
            push_u32(&mut v, payload.begin);
            push_u32(&mut v, length);
            Ok(framed(6, v.as_slice()))
        },
        None => Err(CodecError::MissingRequiredField),
    }
}

/// piece: `<len=0009+X><id=7><index><begin><block>`. Only a `Piece` payload
/// carries a block; any other is refused.
pub fn build_piece(payload: &GenericPayload) -> (r: Result<ByteBuffer, CodecError>)
    requires
        payload matches GenericPayload::Piece { block, .. } ==> block@.len() + 9 <= u32::MAX,
    ensures
        match payload@ {
            PayloadView::Piece { index, begin, block } => r matches Ok(b) && buffer_data(b)
                == frame(7, piece_payload(index, begin, block)),
            _ => r matches Err(e) && e == CodecError::MissingRequiredField,
        },
{
    match payload {
        GenericPayload::Piece { index, begin, block } => {
            let mut v: Vec<u8> = Vec::new();
            push_u32(&mut v, *index);
            push_u32(&mut v, *begin);
            push_all(&mut v, block.as_slice());
            Ok(framed(7, v.as_slice()))
        },
        _ => Err(CodecError::MissingRequiredField),
    }
}

/// The index, begin and length that a cancel built from `p` carries: those of
/// `p` where it has them, 0 for each it lacks.
pub open spec fn cancel_fields(p: PayloadView) -> (u32, u32, u32) {
    match p {
        PayloadView::Request { index, begin, length } => (index, begin, length),
        PayloadView::Cancel { index, begin, length } => (index, begin, length),
        PayloadView::Piece { index, begin, .. } => (index, begin, 0),
        _ => (0, 0, 0),
    }
}

/// cancel: `<len=0013><id=8><index><begin><length>`, the payload of a
/// request. Unlike a request, a missing length is sent as 0, and so are a
/// missing index and begin.
pub fn build_cancel(payload: GenericPayload) -> (r: ByteBuffer)
    ensures
        buffer_data(r) == frame(
            8,
            block_ref_payload(cancel_fields(payload@).0, cancel_fields(payload@).1, cancel_fields(payload@).2),
        ),
{
    let (index, begin, length) = match payload {
        GenericPayload::Request { index, begin, length } => (index, begin, length),
        GenericPayload::Cancel { index, begin, length } => (index, begin, length),
        GenericPayload::Piece { index, begin, .. } => (index, begin, 0),
        _ => (0, 0, 0),
    };
    let mut v: Vec<u8> = Vec::new();
    push_u32(&mut v, index);
    push_u32(&mut v, begin);
    push_u32(&mut v, length);
    framed(8, v.as_slice())
}

/// port: `<len=0003><id=9><listen-port>`, the port of this peer's DHT node.
pub fn build_port(port: u16) -> (r: ByteBuffer)
    ensures
        buffer_data(r) == frame(9, be_u16(port)),
{
    let mut v: Vec<u8> = Vec::new();
    push_u16(&mut v, port);
    framed(9, v.as_slice())
}

} // verus!
