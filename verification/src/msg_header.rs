//! The header that starts every message.
use vstd::prelude::*;
use crate::an_id::{uuid_str, AnId};

verus! {

/// The length of the text form of a message id.
pub const MSG_ID_STR_LEN: usize = 36;

/// Message header: the message's kind, its destination and its source.
#[derive(Clone, Copy, PartialEq, Eq, Debug, Structural)]
pub struct MsgHeader {
    /// Message id: which kind of message this is.
    pub msg_id: AnId,
    /// The instance id of the actor the message is for.
    pub dst_id: AnId,
    /// The instance id of the actor that sent the message.
    pub src_id: AnId,
}

/// The first 8 characters of the text form of an id.
pub open spec fn short_id(id: AnId) -> Seq<char> {
    uuid_str(id.0).subrange(0, 8)
}

/// The short form of a header:
/// `mh { msg_id: <8> dst_id: <8> src_id: <8> }`.
pub open spec fn header_simple_display(h: MsgHeader) -> Seq<char> {
    "mh { msg_id: "@ + short_id(h.msg_id) + " dst_id: "@ + short_id(h.dst_id) + " src_id: "@
        + short_id(h.src_id) + " }"@
}

impl MsgHeader {
    /// The header with the given message, destination and source ids.
    pub open spec fn spec_new(msg_id: AnId, dst_id: AnId, src_id: AnId) -> MsgHeader {
        MsgHeader { msg_id, dst_id, src_id }
    }

    /// The header that names only the kind of message.
    pub open spec fn spec_new_msg_id_only(msg_id: AnId) -> MsgHeader {
        MsgHeader { msg_id, dst_id: AnId(0), src_id: AnId(0) }
    }

    /// A header with the given message, destination and source ids.
    pub fn new(msg_id: AnId, dst_id: AnId, src_id: AnId) -> (h: MsgHeader)
        ensures
            h == MsgHeader::spec_new(msg_id, dst_id, src_id),
    {
        MsgHeader { msg_id, dst_id, src_id }
    }

    /// A header that only names the kind of message; destination and source
    /// are the nil id.
    pub fn new_msg_id_only(msg_id: AnId) -> (h: MsgHeader)
        ensures
            h == MsgHeader::spec_new_msg_id_only(msg_id),
    {
        MsgHeader { msg_id, dst_id: AnId::nil(), src_id: AnId::nil() }
    }

    /// The short text form of the header.
    pub fn simple_display(&self) -> (s: String)
        ensures
            s@ == header_simple_display(*self),
    {
        let mut s = String::from_str("mh { msg_id: ");
        s.append(self.msg_id.to_short_string().as_str());
        s.append(" dst_id: ");
        s.append(self.dst_id.to_short_string().as_str());
        s.append(" src_id: ");
        s.append(self.src_id.to_short_string().as_str());
        s.append(" }");
        s
    }
}

/// A message: a value that starts with a `MsgHeader`.
pub trait HasHeader {
    spec fn spec_header(&self) -> MsgHeader;

    fn header(&self) -> (r: &MsgHeader)
        ensures
            *r == self.spec_header(),
    ;

    /// The kind of the message.
    fn msg_id(&self) -> (r: &AnId)
        ensures
            *r == self.spec_header().msg_id,
    {
        &self.header().msg_id
    }

    /// The instance id of the actor the message is for.
    fn dst_id(&self) -> (r: &AnId)
        ensures
            *r == self.spec_header().dst_id,
    {
        &self.header().dst_id
    }

    /// The instance id of the actor that sent the message.
    fn src_id(&self) -> (r: &AnId)
        ensures
            *r == self.spec_header().src_id,
    {
        &self.header().src_id
    }
}

} // verus!
