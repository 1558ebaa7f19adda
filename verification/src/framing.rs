//! The framing of messages on a byte stream: each message's bytes are
//! preceded by their length as a 2 byte little endian number.
use vstd::prelude::*;
use vstd::string::StringSliceAdditionalSpecFns;

verus! {

/// The 2 byte little endian form of `v`.
pub open spec fn le_bytes(v: u16) -> Seq<u8> {
    seq![(v % 256) as u8, (v / 256) as u8]
}

/// The number whose little endian form is `b0 b1`.
pub open spec fn le_value(b0: u8, b1: u8) -> int {
    b0 + 256 * b1
}

/// The frame of a message: its length, then its bytes.
pub open spec fn frame_of(msg: Seq<u8>) -> Seq<u8> {
    le_bytes(msg.len() as u16) + msg
}

/// The message of the frame at the start of `stream`, and the number of
/// bytes the frame takes; `None` while the stream holds no whole frame.
pub open spec fn first_frame(stream: Seq<u8>) -> Option<(Seq<u8>, int)> {
    if stream.len() < 2 {
        None
    } else {
        let len = le_value(stream[0], stream[1]);
        if stream.len() < 2 + len {
            None
        } else {
            Some((stream.subrange(2, 2 + len), 2 + len))
        }
    }
}

/// The number held in the little endian bytes `buf`.
pub fn buf_u8_le_to_u16(buf: &[u8; 2]) -> (v: u16)
    ensures
        v == le_value(buf@[0], buf@[1]),
{
    let b0 = buf[0];
    let b1 = buf[1];
    (b0 as u16) + 256 * (b1 as u16)
}

/// The little endian bytes of `v`.
pub fn u16_to_buf_u8_le(v: u16) -> (buf: [u8; 2])
    ensures
        buf@ == le_bytes(v),
        le_value(buf@[0], buf@[1]) == v,
{
    let buf: [u8; 2] = [(v % 256) as u8, (v / 256) as u8];
    assert(buf@ =~= le_bytes(v));
    buf
}

/// Reading back the little endian bytes of a number gives the number, and
/// writing the number that two bytes hold gives those bytes.
pub proof fn lemma_le_round_trip(v: u16, b0: u8, b1: u8)
    ensures
        le_value(le_bytes(v)[0], le_bytes(v)[1]) == v,
        0 <= le_value(b0, b1) <= u16::MAX,
        le_bytes(le_value(b0, b1) as u16) == seq![b0, b1],
{
    let w = le_value(b0, b1) as u16;
    assert(le_bytes(w) =~= seq![b0, b1]);
}

/// Why a message could not be framed.
#[derive(Clone, Copy, PartialEq, Eq, Debug, Structural)]
pub enum FrameError {
    /// The message is longer than a 2 byte length can say.
    MsgTooLong,
}

/// The frame of `msg_buf`: its length as 2 little endian bytes, then the
/// bytes themselves. Fails when the message has more than `u16::MAX` bytes.
pub fn frame_msg_buf(msg_buf: &[u8]) -> (r: Result<Vec<u8>, FrameError>)
    ensures
        msg_buf@.len() > u16::MAX ==> r == Err::<Vec<u8>, FrameError>(FrameError::MsgTooLong),
        msg_buf@.len() <= u16::MAX ==> r is Ok && r->Ok_0@ == frame_of(msg_buf@),
{
    let n = msg_buf.len();
    if n > 65535 {
        return Err(FrameError::MsgTooLong);
    }
    let len_buf = u16_to_buf_u8_le(n as u16);
    let mut frame: Vec<u8> = Vec::new();
    frame.push(len_buf[0]);
    frame.push(len_buf[1]);
    let mut i: usize = 0;
    while i < n
        invariant
            n == msg_buf@.len(),
            n <= u16::MAX,
            0 <= i <= n,
            frame@ == le_bytes(n as u16) + msg_buf@.subrange(0, i as int),
        decreases n - i,
    {
        frame.push(msg_buf[i]);
        i = i + 1;
        assert(frame@ =~= le_bytes(n as u16) + msg_buf@.subrange(0, i as int));
    }
    assert(msg_buf@.subrange(0, n as int) =~= msg_buf@);
    Ok(frame)
}

/// Splits off the frame at the start of `stream`: its message and the
/// number of bytes it takes; `None` while the stream holds no whole frame.
pub fn split_first_frame(stream: &[u8]) -> (r: Option<(Vec<u8>, usize)>)
    ensures
        match r {
            Some((msg, used)) => first_frame(stream@) == Some((msg@, used as int)),
            None => first_frame(stream@) is None,
        },
{
    if stream.len() < 2 {
        return None;
    }
    let len_buf: [u8; 2] = [stream[0], stream[1]];
    let len = buf_u8_le_to_u16(&len_buf) as usize;
    if stream.len() - 2 < len {
        return None;
    }
    let mut msg: Vec<u8> = Vec::new();
    let mut i: usize = 0;
    let slen = stream.len();
    while i < len
        invariant
            2 + len <= stream@.len(),
            slen == stream@.len(),
            0 <= i <= len,
            msg@ == stream@.subrange(2, 2 + i),
        decreases len - i,
    {
        msg.push(stream[2 + i]);
        i = i + 1;
        assert(msg@ =~= stream@.subrange(2, 2 + i));
    }
    Some((msg, 2 + len))
}

/// Reading the first frame of what a frame starts gives back the framed
/// message, whatever bytes follow it.
pub proof fn lemma_frame_round_trip(msg: Seq<u8>, rest: Seq<u8>)
    requires
        msg.len() <= u16::MAX,
    ensures
        first_frame(frame_of(msg) + rest) == Some((msg, 2 + msg.len() as int)),
{
    let s = frame_of(msg) + rest;
    let n = msg.len() as u16;
    assert(le_value((n % 256) as u8, (n / 256) as u8) == n);
    assert(s[0] == (n % 256) as u8);
    assert(s[1] == (n / 256) as u8);
    assert(s.subrange(2, 2 + msg.len() as int) =~= msg);
}

/// The bytes a message's serde JSON text starts with, up to its message
/// id: `{"header":{"msg_id":"`.
pub open spec fn msg_id_prefix() -> Seq<u8> {
    seq![123u8, 34, 104, 101, 97, 100, 101, 114, 34, 58, 123, 34, 109, 115, 103, 95, 105, 100, 34, 58, 34]
}

/// The bytes of the message id in the serde JSON text `buf`, where `buf`
/// starts with the prefix and holds 36 bytes after it.
pub open spec fn msg_id_bytes(buf: Seq<u8>) -> Option<Seq<u8>> {
    let p = msg_id_prefix();
    if buf.len() >= p.len() + 36 && buf.subrange(0, p.len() as int) == p {
        Some(buf.subrange(p.len() as int, p.len() as int + 36))
    } else {
        None
    }
}

/// `std::str::from_utf8`, with its `Err` mapped to `None`: `Some` exactly
/// when the bytes are valid UTF-8, and then the text has those bytes.
#[verifier::external_body]
fn str_from_utf8(v: &[u8]) -> (r: Option<&str>)
    ensures
        r is Some <==> vstd::utf8::valid_utf8(v@),
        r matches Some(s) ==> s.spec_bytes() == v@,
{
    std::str::from_utf8(v).ok()
}

/// The text of the message id at the start of the serde JSON text `buf`;
/// `None` where `buf` does not start with `{"header":{"msg_id":"` followed
/// by 36 bytes of valid UTF-8.
pub fn get_msg_id_str_from_buf(buf: &[u8]) -> (r: Option<&str>)
    ensures
        match r {
            Some(s) => msg_id_bytes(buf@) == Some(s.spec_bytes()),
            None => msg_id_bytes(buf@) matches Some(b) ==> !vstd::utf8::valid_utf8(b),
        },
{
    let p: Vec<u8> = vec![123u8, 34, 104, 101, 97, 100, 101, 114, 34, 58, 123, 34, 109, 115, 103, 95, 105, 100, 34, 58, 34];
    assert(p@ =~= msg_id_prefix());
    let plen = p.len();
    if buf.len() < plen + 36 {
        return None;
    }
    let mut i: usize = 0;
    while i < plen
        invariant
            p@ == msg_id_prefix(),
            plen == p@.len(),
            plen <= buf@.len(),
            0 <= i <= plen,
            forall|k: int| 0 <= k < i ==> buf@[k] == p@[k],
        decreases plen - i,
    {
        if buf[i] != p[i] {
            assert(buf@.subrange(0, plen as int)[i as int] != p@[i as int]);
            return None;
        }
        i = i + 1;
    }
    assert(buf@.subrange(0, plen as int) =~= p@);
    let id = &buf[plen..plen + 36];
    str_from_utf8(id)
}

/// True when `a` and `b` hold the same bytes.
pub fn bytes_eq(a: &[u8], b: &[u8]) -> (r: bool)
    ensures
        r == (a@ == b@),
{
    if a.len() != b.len() {
        return false;
    }
    let n = a.len();
    let mut i: usize = 0;
    while i < n
        invariant
            n == a@.len(),
            n == b@.len(),
            0 <= i <= n,
            forall|k: int| 0 <= k < i ==> a@[k] == b@[k],
        decreases n - i,
    {
        if a[i] != b[i] {
            return false;
        }
        i = i + 1;
    }
    assert(a@ =~= b@);
    true
}

/// The serde JSON text `buf` as text, when the message id at its start is
/// `msg_id_str` and the whole of it is valid UTF-8; `None` otherwise. This
/// is the check made of a buffer before it is parsed as one kind of message.
pub fn serde_json_text_with_msg_id<'a>(buf: &'a [u8], msg_id_str: &str) -> (r: Option<&'a str>)
    ensures
        r is Some <==> (msg_id_bytes(buf@) == Some(msg_id_str.spec_bytes())
            && vstd::utf8::valid_utf8(buf@)),
        r matches Some(s) ==> s.spec_bytes() == buf@,
{
    match get_msg_id_str_from_buf(buf) {
        Some(id) => {
            if bytes_eq(id.as_bytes(), msg_id_str.as_bytes()) {
                str_from_utf8(buf)
            } else {
                None
            }
        },
        None => {
            proof {
                vstd::utf8::encode_utf8_valid_utf8(msg_id_str@);
            }
            None
        },
    }
}

} // verus!
