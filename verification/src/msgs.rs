//! The messages that the actors exchange. Each kind of message has an id,
//! given as its 128 bit value (`*_ID`) and as text (`*_ID_STR`), and starts
//! with a `MsgHeader`.
use vstd::prelude::*;
use crate::an_id::AnId;
use crate::msg_header::{HasHeader, MsgHeader};
use crate::protocol::ProtocolSet;
use crate::actor_executor::{REQ_ADD_ACTOR_ID, RSP_ADD_ACTOR_ID};
use crate::actor_thread::{ADD_ACTOR_ID, REMOVE_ACTOR_ID, REPLY_ACTOR_BI_DIR_CHANNEL_ID};
use crate::con_mgr::{CON_MGR_REGISTER_ACTOR_REQ_ID, CON_MGR_REGISTER_ACTOR_RSP_ID};

verus! {

/// The wall clock in nanoseconds since the UNIX epoch, through
/// `chrono::Utc::now().timestamp_nanos_opt()`: `None` where the time does
/// not fit an `i64` (after 2262). `Utc::now` panics where the system clock
/// reads before 1970, which the operating system does not allow.
///
/// Since `Utc::now` returns only times from 1970 on, a value it returns is
/// not negative; nothing else is claimed of the value, which depends on the
/// clock.
#[verifier::external_body]
fn utc_now_timestamp_nanos() -> (t: Option<i64>)
    ensures
        t matches Some(v) ==> v >= 0,
{
    chrono::Utc::now().timestamp_nanos_opt()
}

/// The current time in nanoseconds since the UNIX epoch, `i64::MAX` where
/// it does not fit an `i64`.
fn now_timestamp_ns() -> (t: i64)
    ensures
        t >= 0,
{
    match utc_now_timestamp_nanos() {
        Some(t) => t,
        None => i64::MAX,
    }
}

// ---------------------------------------------------------------------------
// Echo messages

pub const ECHO_REQ_ID_STR: &'static str = "ada0f9a9-b556-46ba-b3d5-d19c87ec216c";
pub const ECHO_REQ_ID: u128 = 0xada0f9a9_b556_46ba_b3d5_d19c87ec216c;

/// A request to echo `counter` back, stamped with the time it was made.
#[derive(Clone, Copy, PartialEq, Eq, Debug, Structural)]
pub struct EchoReq {
    pub header: MsgHeader,
    pub req_timestamp_ns: i64,
    pub counter: u64,
}

impl EchoReq {
    /// An `EchoReq` from `src_id` to `dst_id`, stamped with the current time.
    pub fn new(dst_id: &AnId, src_id: &AnId, counter: u64) -> (m: EchoReq)
        ensures
            m.header == MsgHeader::spec_new(AnId(ECHO_REQ_ID), *dst_id, *src_id),
            m.counter == counter,
            m.req_timestamp_ns >= 0,
    {
        EchoReq::new_with_timestamp(dst_id, src_id, counter, now_timestamp_ns())
    }

    /// An `EchoReq` from `src_id` to `dst_id` stamped `req_timestamp_ns`.
    pub fn new_with_timestamp(dst_id: &AnId, src_id: &AnId, counter: u64, req_timestamp_ns: i64) -> (m:
        EchoReq)
        ensures
            m == (EchoReq {
                header: MsgHeader::spec_new(AnId(ECHO_REQ_ID), *dst_id, *src_id),
                req_timestamp_ns,
                counter,
            }),
    {
        EchoReq { header: MsgHeader::new(AnId(ECHO_REQ_ID), *dst_id, *src_id), req_timestamp_ns, counter }
    }
}

pub const ECHO_RSP_ID_STR: &'static str = "8206e26f-a69d-4875-8a85-0cfb636ca7c2";
pub const ECHO_RSP_ID: u128 = 0x8206e26f_a69d_4875_8a85_0cfb636ca7c2;

/// The answer to an `EchoReq`: its time stamp and counter, and the time
/// the answer was made.
#[derive(Clone, Copy, PartialEq, Eq, Debug, Structural)]
pub struct EchoRsp {
    pub header: MsgHeader,
    pub req_timestamp_ns: i64,
    pub counter: u64,
    pub rsp_timestamp_ns: i64,
}

impl EchoRsp {
    /// An `EchoRsp` from `src_id` to `dst_id` answering a request stamped
    /// `req_timestamp` with `counter`, stamped with the current time.
    pub fn new(dst_id: &AnId, src_id: &AnId, req_timestamp: i64, counter: u64) -> (m: EchoRsp)
        ensures
            m.header == MsgHeader::spec_new(AnId(ECHO_RSP_ID), *dst_id, *src_id),
            m.req_timestamp_ns == req_timestamp,
            m.counter == counter,
            m.rsp_timestamp_ns >= 0,
    {
        EchoRsp::new_with_timestamp(dst_id, src_id, req_timestamp, counter, now_timestamp_ns())
    }

    /// An `EchoRsp` from `src_id` to `dst_id` answering a request stamped
    /// `req_timestamp` with `counter`, stamped `rsp_timestamp_ns`.
    pub fn new_with_timestamp(
        dst_id: &AnId,
        src_id: &AnId,
        req_timestamp: i64,
        counter: u64,
        rsp_timestamp_ns: i64,
    ) -> (m: EchoRsp)
        ensures
            m == (EchoRsp {
                header: MsgHeader::spec_new(AnId(ECHO_RSP_ID), *dst_id, *src_id),
                req_timestamp_ns: req_timestamp,
                counter,
                rsp_timestamp_ns,
            }),
    {
        EchoRsp {
            header: MsgHeader::new(AnId(ECHO_RSP_ID), *dst_id, *src_id),
            req_timestamp_ns: req_timestamp,
            counter,
            rsp_timestamp_ns,
        }
    }
}

/// `EchoReply` is the earlier form of the answer to an `EchoReq` and shares
/// its id with `EchoRsp`: the echo protocols name this one id for the answer.
pub const ECHO_REPLY_ID_STR: &'static str = "8206e26f-a69d-4875-8a85-0cfb636ca7c2";
pub const ECHO_REPLY_ID: u128 = 0x8206e26f_a69d_4875_8a85_0cfb636ca7c2;

/// The answer to an `EchoReq` when no destination is known.
#[derive(Clone, Copy, PartialEq, Eq, Debug, Structural)]
pub struct EchoReply {
    pub header: MsgHeader,
    pub req_timestamp_ns: i64,
    pub counter: u64,
    pub reply_timestamp_ns: i64,
}

impl EchoReply {
    /// An `EchoReply` answering a request stamped `req_timestamp` with
    /// `counter`, stamped with the current time.
    pub fn new(req_timestamp: i64, counter: u64) -> (m: EchoReply)
        ensures
            m.header == MsgHeader::spec_new_msg_id_only(AnId(ECHO_REPLY_ID)),
            m.req_timestamp_ns == req_timestamp,
            m.counter == counter,
            m.reply_timestamp_ns >= 0,
    {
        EchoReply::new_with_timestamp(req_timestamp, counter, now_timestamp_ns())
    }

    /// An `EchoReply` answering a request stamped `req_timestamp` with
    /// `counter`, stamped `reply_timestamp_ns`.
    pub fn new_with_timestamp(req_timestamp: i64, counter: u64, reply_timestamp_ns: i64) -> (m: EchoReply)
        ensures
            m == (EchoReply {
                header: MsgHeader::spec_new_msg_id_only(AnId(ECHO_REPLY_ID)),
                req_timestamp_ns: req_timestamp,
                counter,
                reply_timestamp_ns,
            }),
    {
        EchoReply {
            header: MsgHeader::new_msg_id_only(AnId(ECHO_REPLY_ID)),
            req_timestamp_ns: req_timestamp,
            counter,
            reply_timestamp_ns,
        }
    }
}

pub const ECHO_START_ID_STR: &'static str = "f13f7f26-40eb-4c94-a408-c455677f6730";
pub const ECHO_START_ID: u128 = 0xf13f7f26_40eb_4c94_a408_c455677f6730;

/// Tells an actor to echo `ping_count` times with `partner_instance_id`.
#[derive(Clone, Copy, PartialEq, Eq, Debug, Structural)]
pub struct EchoStart {
    pub header: MsgHeader,
    pub partner_instance_id: AnId,
    pub ping_count: u64,
}

impl EchoStart {
    pub fn new(dst_id: &AnId, src_id: &AnId, partner_instance_id: &AnId, ping_count: u64) -> (m: EchoStart)
        ensures
            m.header == MsgHeader::spec_new(AnId(ECHO_START_ID), *dst_id, *src_id),
            m.partner_instance_id == *partner_instance_id,
            m.ping_count == ping_count,
    {
        EchoStart {
            header: MsgHeader::new(AnId(ECHO_START_ID), *dst_id, *src_id),
            partner_instance_id: *partner_instance_id,
            ping_count,
        }
    }
}

pub const ECHO_COMPLETE_ID_STR: &'static str = "d8c84131-901c-4900-b506-e4bac6665a58";
pub const ECHO_COMPLETE_ID: u128 = 0xd8c84131_901c_4900_b506_e4bac6665a58;

/// Tells the controller that an echo sequence is done.
#[derive(Clone, Copy, PartialEq, Eq, Debug, Structural)]
pub struct EchoComplete {
    pub header: MsgHeader,
}

impl EchoComplete {
    pub fn new(dst_id: &AnId, src_id: &AnId) -> (m: EchoComplete)
        ensures
            m.header == MsgHeader::spec_new(AnId(ECHO_COMPLETE_ID), *dst_id, *src_id),
    {
        EchoComplete { header: MsgHeader::new(AnId(ECHO_COMPLETE_ID), *dst_id, *src_id) }
    }
}

// ---------------------------------------------------------------------------
// Commands

pub const CMD_INIT_ID_STR: &'static str = "16119f69-17e9-4b3b-9b5c-eeac60af6056";
pub const CMD_INIT_ID: u128 = 0x16119f69_17e9_4b3b_9b5c_eeac60af6056;

/// The first message an actor gets once it runs.
#[derive(Clone, Copy, PartialEq, Eq, Debug, Structural)]
pub struct CmdInit {
    pub header: MsgHeader,
}

impl CmdInit {
    pub fn new(dst_id: &AnId, src_id: &AnId) -> (m: CmdInit)
        ensures
            m.header == MsgHeader::spec_new(AnId(CMD_INIT_ID), *dst_id, *src_id),
    {
        CmdInit { header: MsgHeader::new(AnId(CMD_INIT_ID), *dst_id, *src_id) }
    }
}

pub const CMD_DONE_ID_STR: &'static str = "92a8798e-e2c9-493e-b863-edae4d302f14";
pub const CMD_DONE_ID: u128 = 0x92a8798e_e2c9_493e_b863_edae4d302f14;

/// Tells an actor executor to stop.
#[derive(Clone, Copy, PartialEq, Eq, Debug, Structural)]
pub struct CmdDone {
    pub header: MsgHeader,
}

impl CmdDone {
    pub fn new(dst_id: &AnId, src_id: &AnId) -> (m: CmdDone)
        ensures
            m.header == MsgHeader::spec_new(AnId(CMD_DONE_ID), *dst_id, *src_id),
    {
        CmdDone { header: MsgHeader::new(AnId(CMD_DONE_ID), *dst_id, *src_id) }
    }
}

// ---------------------------------------------------------------------------
// Test messages

pub const MSG1_ID_STR: &'static str = "a88ba7e7-0930-4df6-bb24-240338bf8eb5";
pub const MSG1_ID: u128 = 0xa88ba7e7_0930_4df6_bb24_240338bf8eb5;
pub const MSG1_NAME: &'static str = "Msg1";

/// A message carrying one number.
#[derive(Clone, Copy, PartialEq, Eq, Debug, Structural)]
pub struct Msg1 {
    pub header: MsgHeader,
    pub v: u64,
}

impl Msg1 {
    pub fn new(dst_id: &AnId, src_id: &AnId, v: u64) -> (m: Msg1)
        ensures
            m.header == MsgHeader::spec_new(AnId(MSG1_ID), *dst_id, *src_id),
            m.v == v,
    {
        Msg1 { header: MsgHeader::new(AnId(MSG1_ID), *dst_id, *src_id), v }
    }
}

pub const MSG2_ID_STR: &'static str = "4029b3c4-f380-488a-8560-8320cc8fb76e";
pub const MSG2_ID: u128 = 0x4029b3c4_f380_488a_8560_8320cc8fb76e;

/// A message with nothing but a header.
#[derive(Clone, Copy, PartialEq, Eq, Debug, Structural)]
pub struct Msg2 {
    pub header: MsgHeader,
}

impl Msg2 {
    pub fn new(dst_id: &AnId, src_id: &AnId) -> (m: Msg2)
        ensures
            m.header == MsgHeader::spec_new(AnId(MSG2_ID), *dst_id, *src_id),
    {
        Msg2 { header: MsgHeader::new(AnId(MSG2_ID), *dst_id, *src_id) }
    }
}

impl HasHeader for EchoReq {
    open spec fn spec_header(&self) -> MsgHeader {
        self.header
    }

    fn header(&self) -> (r: &MsgHeader) {
        &self.header
    }
}

impl HasHeader for EchoRsp {
    open spec fn spec_header(&self) -> MsgHeader {
        self.header
    }

    fn header(&self) -> (r: &MsgHeader) {
        &self.header
    }
}

impl HasHeader for EchoReply {
    open spec fn spec_header(&self) -> MsgHeader {
        self.header
    }

    fn header(&self) -> (r: &MsgHeader) {
        &self.header
    }
}

impl HasHeader for EchoStart {
    open spec fn spec_header(&self) -> MsgHeader {
        self.header
    }

    fn header(&self) -> (r: &MsgHeader) {
        &self.header
    }
}

impl HasHeader for EchoComplete {
    open spec fn spec_header(&self) -> MsgHeader {
        self.header
    }

    fn header(&self) -> (r: &MsgHeader) {
        &self.header
    }
}

impl HasHeader for CmdInit {
    open spec fn spec_header(&self) -> MsgHeader {
        self.header
    }

    fn header(&self) -> (r: &MsgHeader) {
        &self.header
    }
}

impl HasHeader for CmdDone {
    open spec fn spec_header(&self) -> MsgHeader {
        self.header
    }

    fn header(&self) -> (r: &MsgHeader) {
        &self.header
    }
}

impl HasHeader for Msg1 {
    open spec fn spec_header(&self) -> MsgHeader {
        self.header
    }

    fn header(&self) -> (r: &MsgHeader) {
        &self.header
    }
}

impl HasHeader for Msg2 {
    open spec fn spec_header(&self) -> MsgHeader {
        self.header
    }

    fn header(&self) -> (r: &MsgHeader) {
        &self.header
    }
}


// ---------------------------------------------------------------------------
// Routing table messages

/// The outcome of a request to add an entry to a deserializer table.
#[derive(Clone, Copy, PartialEq, Eq, Debug, Structural)]
pub enum InsertKeyMsgIdValueFromSerdeJsonBufRspStatus {
    Success,
    AlreadyInserted,
}

pub const INSERT_KEY_MSG_ID_VALUE_FROM_SERDE_JSON_BUF_REQ_ID_STR: &'static str =
    "5b1f4e0a-2c47-4d6e-9a38-7e0c1d2b3f45";
pub const INSERT_KEY_MSG_ID_VALUE_FROM_SERDE_JSON_BUF_REQ_ID: u128 =
    0x5b1f4e0a_2c47_4d6e_9a38_7e0c1d2b3f45;

/// Asks a dispatcher to deserialize messages with id `msg_id` with
/// `from_serde_json_buf`.
#[derive(Debug)]
pub struct InsertKeyMsgIdValueFromSerdeJsonBufReq<F> {
    pub header: MsgHeader,
    pub msg_id: AnId,
    pub from_serde_json_buf: F,
}

impl<F> InsertKeyMsgIdValueFromSerdeJsonBufReq<F> {
    pub fn new(dst_id: &AnId, src_id: &AnId, msg_id: &AnId, from_serde_json_buf: F) -> (m: Self)
        ensures
            m.header == MsgHeader::spec_new(
                AnId(INSERT_KEY_MSG_ID_VALUE_FROM_SERDE_JSON_BUF_REQ_ID),
                *dst_id,
                *src_id,
            ),
            m.msg_id == *msg_id,
            m.from_serde_json_buf == from_serde_json_buf,
    {
        InsertKeyMsgIdValueFromSerdeJsonBufReq {
            header: MsgHeader::new(
                AnId(INSERT_KEY_MSG_ID_VALUE_FROM_SERDE_JSON_BUF_REQ_ID),
                *dst_id,
                *src_id,
            ),
            msg_id: *msg_id,
            from_serde_json_buf,
        }
    }
}

pub const INSERT_KEY_MSG_ID_VALUE_FROM_SERDE_JSON_BUF_RSP_ID_STR: &'static str =
    "6b0076ec-d404-43fd-a974-96320a6a093c";
pub const INSERT_KEY_MSG_ID_VALUE_FROM_SERDE_JSON_BUF_RSP_ID: u128 =
    0x6b0076ec_d404_43fd_a974_96320a6a093c;

/// The answer to an `InsertKeyMsgIdValueFromSerdeJsonBufReq`.
#[derive(Clone, Copy, PartialEq, Eq, Debug, Structural)]
pub struct InsertKeyMsgIdValueFromSerdeJsonBufRsp {
    pub header: MsgHeader,
    pub msg_id: AnId,
    pub status: InsertKeyMsgIdValueFromSerdeJsonBufRspStatus,
}

impl InsertKeyMsgIdValueFromSerdeJsonBufRsp {
    pub fn new(
        dst_id: &AnId,
        src_id: &AnId,
        msg_id: &AnId,
        status: InsertKeyMsgIdValueFromSerdeJsonBufRspStatus,
    ) -> (m: Self)
        ensures
            m == (InsertKeyMsgIdValueFromSerdeJsonBufRsp {
                header: MsgHeader::spec_new(
                    AnId(INSERT_KEY_MSG_ID_VALUE_FROM_SERDE_JSON_BUF_RSP_ID),
                    *dst_id,
                    *src_id,
                ),
                msg_id: *msg_id,
                status,
            }),
    {
        InsertKeyMsgIdValueFromSerdeJsonBufRsp {
            header: MsgHeader::new(
                AnId(INSERT_KEY_MSG_ID_VALUE_FROM_SERDE_JSON_BUF_RSP_ID),
                *dst_id,
                *src_id,
            ),
            msg_id: *msg_id,
            status,
        }
    }
}

/// The outcome of a request to add an entry to a serializer table.
#[derive(Clone, Copy, PartialEq, Eq, Debug, Structural)]
pub enum InsertKeyMsgIdValueToSerdeJsonBufRspStatus {
    Success,
    AlreadyInserted,
}

pub const INSERT_KEY_MSG_ID_VALUE_TO_SERDE_JSON_BUF_REQ_ID_STR: &'static str =
    "3610bfb2-9636-4129-bc9f-67ff0c88c3c8";
pub const INSERT_KEY_MSG_ID_VALUE_TO_SERDE_JSON_BUF_REQ_ID: u128 =
    0x3610bfb2_9636_4129_bc9f_67ff0c88c3c8;

/// Asks a forwarder to serialize messages with id `msg_id` with
/// `to_serde_json_buf`.
#[derive(Debug)]
pub struct InsertKeyMsgIdValueToSerdeJsonBufReq<F> {
    pub header: MsgHeader,
    pub msg_id: AnId,
    pub to_serde_json_buf: F,
}

impl<F> InsertKeyMsgIdValueToSerdeJsonBufReq<F> {
    pub fn new(dst_id: &AnId, src_id: &AnId, msg_id: &AnId, to_serde_json_buf: F) -> (m: Self)
        ensures
            m.header == MsgHeader::spec_new(
                AnId(INSERT_KEY_MSG_ID_VALUE_TO_SERDE_JSON_BUF_REQ_ID),
                *dst_id,
                *src_id,
            ),
            m.msg_id == *msg_id,
            m.to_serde_json_buf == to_serde_json_buf,
    {
        InsertKeyMsgIdValueToSerdeJsonBufReq {
            header: MsgHeader::new(
                AnId(INSERT_KEY_MSG_ID_VALUE_TO_SERDE_JSON_BUF_REQ_ID),
                *dst_id,
                *src_id,
            ),
            msg_id: *msg_id,
            to_serde_json_buf,
        }
    }
}

pub const INSERT_KEY_MSG_ID_VALUE_TO_SERDE_JSON_BUF_RSP_ID_STR: &'static str =
    "cf59aa4f-ff67-49ec-a48f-55bada1c4667";
pub const INSERT_KEY_MSG_ID_VALUE_TO_SERDE_JSON_BUF_RSP_ID: u128 =
    0xcf59aa4f_ff67_49ec_a48f_55bada1c4667;

/// The answer to an `InsertKeyMsgIdValueToSerdeJsonBufReq`.
#[derive(Clone, Copy, PartialEq, Eq, Debug, Structural)]
pub struct InsertKeyMsgIdValueToSerdeJsonBufRsp {
    pub header: MsgHeader,
    pub msg_id: AnId,
    pub status: InsertKeyMsgIdValueToSerdeJsonBufRspStatus,
}

impl InsertKeyMsgIdValueToSerdeJsonBufRsp {
    pub fn new(
        dst_id: &AnId,
        src_id: &AnId,
        msg_id: &AnId,
        status: InsertKeyMsgIdValueToSerdeJsonBufRspStatus,
    ) -> (m: Self)
        ensures
            m == (InsertKeyMsgIdValueToSerdeJsonBufRsp {
                header: MsgHeader::spec_new(
                    AnId(INSERT_KEY_MSG_ID_VALUE_TO_SERDE_JSON_BUF_RSP_ID),
                    *dst_id,
                    *src_id,
                ),
                msg_id: *msg_id,
                status,
            }),
    {
        InsertKeyMsgIdValueToSerdeJsonBufRsp {
            header: MsgHeader::new(
                AnId(INSERT_KEY_MSG_ID_VALUE_TO_SERDE_JSON_BUF_RSP_ID),
                *dst_id,
                *src_id,
            ),
            msg_id: *msg_id,
            status,
        }
    }
}

pub const MSG_ROUTER_FORWARDER_ACTOR_SENDER_REQ_ID_STR: &'static str =
    "e5d0b7a2-3c9f-4e18-8b6a-71f2d4c09a3e";
pub const MSG_ROUTER_FORWARDER_ACTOR_SENDER_REQ_ID: u128 = 0xe5d0b7a2_3c9f_4e18_8b6a_71f2d4c09a3e;

/// Asks a forwarder for the sender of its forwarding channel.
#[derive(Clone, Copy, PartialEq, Eq, Debug, Structural)]
pub struct MsgRouterForwarderActorSenderReq {
    pub header: MsgHeader,
    /// Not used by the forwarder.
    pub instance_id: AnId,
}

impl MsgRouterForwarderActorSenderReq {
    pub fn new(dst_id: &AnId, src_id: &AnId, instance_id: &AnId) -> (m: Self)
        ensures
            m == (MsgRouterForwarderActorSenderReq {
                header: MsgHeader::spec_new(
                    AnId(MSG_ROUTER_FORWARDER_ACTOR_SENDER_REQ_ID),
                    *dst_id,
                    *src_id,
                ),
                instance_id: *instance_id,
            }),
    {
        MsgRouterForwarderActorSenderReq {
            header: MsgHeader::new(AnId(MSG_ROUTER_FORWARDER_ACTOR_SENDER_REQ_ID), *dst_id, *src_id),
            instance_id: *instance_id,
        }
    }
}

pub const MSG_ROUTER_FORWARDER_ACTOR_SENDER_RSP_ID_STR: &'static str =
    "124f9b7c-8a56-439e-b9fd-9f9ce03e8217";
pub const MSG_ROUTER_FORWARDER_ACTOR_SENDER_RSP_ID: u128 = 0x124f9b7c_8a56_439e_b9fd_9f9ce03e8217;

/// Carries the sender of a forwarder's forwarding channel.
#[derive(Debug)]
pub struct MsgRouterForwarderActorSenderRsp<S> {
    pub header: MsgHeader,
    pub sender: S,
}

impl<S> MsgRouterForwarderActorSenderRsp<S> {
    pub fn new(dst_id: &AnId, src_id: &AnId, sender: S) -> (m: Self)
        ensures
            m.header == MsgHeader::spec_new(
                AnId(MSG_ROUTER_FORWARDER_ACTOR_SENDER_RSP_ID),
                *dst_id,
                *src_id,
            ),
            m.sender == sender,
    {
        MsgRouterForwarderActorSenderRsp {
            header: MsgHeader::new(AnId(MSG_ROUTER_FORWARDER_ACTOR_SENDER_RSP_ID), *dst_id, *src_id),
            sender,
        }
    }
}


// ---------------------------------------------------------------------------
// Registration and channel messages

pub const CON_MGR_ADD_ACTOR_ID_STR: &'static str = "b0e83356-fd22-4389-9f2e-586be8ec9719";
pub const CON_MGR_ADD_ACTOR_ID: u128 = 0xb0e83356_fd22_4389_9f2e_586be8ec9719;

/// Tells a connection manager about an actor, by its ids.
#[derive(Debug)]
pub struct ConMgrAddActor {
    pub header: MsgHeader,
    pub name: String,
    pub id: AnId,
    pub instance_id: AnId,
    pub protocol_set_id: AnId,
}

impl ConMgrAddActor {
    pub fn new(name: &str, id: &AnId, instance_id: &AnId, protocol_set_id: &AnId) -> (m: Self)
        ensures
            m.header == MsgHeader::spec_new_msg_id_only(AnId(CON_MGR_ADD_ACTOR_ID)),
            m.name@ == name@,
            m.id == *id,
            m.instance_id == *instance_id,
            m.protocol_set_id == *protocol_set_id,
    {
        ConMgrAddActor {
            header: MsgHeader::new_msg_id_only(AnId(CON_MGR_ADD_ACTOR_ID)),
            name: String::from_str(name),
            id: *id,
            instance_id: *instance_id,
            protocol_set_id: *protocol_set_id,
        }
    }
}

pub const REQ_PROTOCOL_SET_ID_STR: &'static str = "a3c8423e-f6be-4005-911e-8d4e6e21d442";
pub const REQ_PROTOCOL_SET_ID: u128 = 0xa3c8423e_f6be_4005_911e_8d4e6e21d442;

/// Asks an actor for its protocol set.
#[derive(Clone, Copy, PartialEq, Eq, Debug, Structural)]
pub struct ReqProtocolSet {
    pub header: MsgHeader,
}

impl ReqProtocolSet {
    pub fn new() -> (m: Self)
        ensures
            m.header == MsgHeader::spec_new_msg_id_only(AnId(REQ_PROTOCOL_SET_ID)),
    {
        ReqProtocolSet { header: MsgHeader::new_msg_id_only(AnId(REQ_PROTOCOL_SET_ID)) }
    }
}

pub const RSP_PROTOCOL_SET_ID_STR: &'static str = "e7cced7e-5668-44ff-a2df-ad8073136f8b";
pub const RSP_PROTOCOL_SET_ID: u128 = 0xe7cced7e_5668_44ff_a2df_ad8073136f8b;

/// An actor's ids and protocol set.
#[derive(Debug)]
pub struct RspProtocolSet {
    pub header: MsgHeader,
    pub name: String,
    pub id: AnId,
    pub instance_id: AnId,
    pub protocol_set: ProtocolSet,
}

impl RspProtocolSet {
    pub fn new(name: &str, id: &AnId, instance_id: &AnId, protocol_set: &ProtocolSet) -> (m: Self)
        ensures
            m.header == MsgHeader::spec_new_msg_id_only(AnId(RSP_PROTOCOL_SET_ID)),
            m.name@ == name@,
            m.id == *id,
            m.instance_id == *instance_id,
            m.protocol_set.name@ == protocol_set.name@,
            m.protocol_set.id == protocol_set.id,
            m.protocol_set.protocols_map@ == protocol_set.protocols_map@,
    {
        RspProtocolSet {
            header: MsgHeader::new_msg_id_only(AnId(RSP_PROTOCOL_SET_ID)),
            name: String::from_str(name),
            id: *id,
            instance_id: *instance_id,
            protocol_set: protocol_set.clone(),
        }
    }
}

pub const MSG_DESER_REQ_ID_STR: &'static str = "fddef416-6314-4540-abd7-d8f6352fbb87";
pub const MSG_DESER_REQ_ID: u128 = 0xfddef416_6314_4540_abd7_d8f6352fbb87;

/// Asks for messages with id `msg_id` to be deserialized with
/// `from_serde_json_buf`.
#[derive(Debug)]
pub struct MsgDeserReq<F> {
    pub header: MsgHeader,
    pub msg_id: AnId,
    pub from_serde_json_buf: F,
}

impl<F> MsgDeserReq<F> {
    pub fn new(dst_id: &AnId, src_id: &AnId, msg_id: &AnId, from_serde_json_buf: F) -> (m: Self)
        ensures
            m.header == MsgHeader::spec_new(AnId(MSG_DESER_REQ_ID), *dst_id, *src_id),
            m.msg_id == *msg_id,
            m.from_serde_json_buf == from_serde_json_buf,
    {
        MsgDeserReq {
            header: MsgHeader::new(AnId(MSG_DESER_REQ_ID), *dst_id, *src_id),
            msg_id: *msg_id,
            from_serde_json_buf,
        }
    }
}

pub const REQ_THEIR_BI_DIR_CHANNEL_ID_STR: &'static str = "ea3145f6-078f-4085-9f86-30e27caca5e1";
pub const REQ_THEIR_BI_DIR_CHANNEL_ID: u128 = 0xea3145f6_078f_4085_9f86_30e27caca5e1;

/// Asks for the bidirectional channel `handle`; the answer goes to
/// `rsp_tx`.
#[derive(Debug)]
pub struct ReqTheirBiDirChannel<S> {
    pub header: MsgHeader,
    pub handle: usize,
    pub rsp_tx: S,
}

impl<S> ReqTheirBiDirChannel<S> {
    pub fn new(src_id: &AnId, handle: usize, rsp_tx: S) -> (m: Self)
        ensures
            m.header == MsgHeader::spec_new(AnId(REQ_THEIR_BI_DIR_CHANNEL_ID), AnId(0), *src_id),
            m.handle == handle,
            m.rsp_tx == rsp_tx,
    {
        ReqTheirBiDirChannel {
            header: MsgHeader::new(AnId(REQ_THEIR_BI_DIR_CHANNEL_ID), AnId::nil(), *src_id),
            handle,
            rsp_tx,
        }
    }
}

pub const RSP_THEIR_BI_DIR_CHANNEL_ID_STR: &'static str = "03eb8c2c-0bc4-4d87-bcef-619e647b815f";
pub const RSP_THEIR_BI_DIR_CHANNEL_ID: u128 = 0x03eb8c2c_0bc4_4d87_bcef_619e647b815f;

/// Carries a bidirectional channel.
#[derive(Debug)]
pub struct RspTheirBiDirChannel<B> {
    pub header: MsgHeader,
    pub bdlc: Box<B>,
}

impl<B> RspTheirBiDirChannel<B> {
    pub fn new(bdlc: Box<B>) -> (m: Self)
        ensures
            m.header == MsgHeader::spec_new_msg_id_only(AnId(RSP_THEIR_BI_DIR_CHANNEL_ID)),
            m.bdlc == bdlc,
    {
        RspTheirBiDirChannel { header: MsgHeader::new_msg_id_only(AnId(RSP_THEIR_BI_DIR_CHANNEL_ID)), bdlc }
    }
}

// ---------------------------------------------------------------------------
// Ids of the kinds of message

/// The ids of the kinds of message, in increasing order of their values.
/// `EchoReply` is the earlier form of `EchoRsp` and has its id.
pub open spec fn msg_kind_ids() -> Seq<u128> {
    seq![
        RSP_THEIR_BI_DIR_CHANNEL_ID,
        MSG_ROUTER_FORWARDER_ACTOR_SENDER_RSP_ID,
        CMD_INIT_ID,
        RSP_ADD_ACTOR_ID,
        REMOVE_ACTOR_ID,
        INSERT_KEY_MSG_ID_VALUE_TO_SERDE_JSON_BUF_REQ_ID,
        MSG2_ID,
        INSERT_KEY_MSG_ID_VALUE_FROM_SERDE_JSON_BUF_REQ_ID,
        CON_MGR_REGISTER_ACTOR_REQ_ID,
        INSERT_KEY_MSG_ID_VALUE_FROM_SERDE_JSON_BUF_RSP_ID,
        REPLY_ACTOR_BI_DIR_CHANNEL_ID,
        ECHO_RSP_ID,
        ADD_ACTOR_ID,
        REQ_ADD_ACTOR_ID,
        CMD_DONE_ID,
        REQ_PROTOCOL_SET_ID,
        MSG1_ID,
        ECHO_REQ_ID,
        CON_MGR_ADD_ACTOR_ID,
        INSERT_KEY_MSG_ID_VALUE_TO_SERDE_JSON_BUF_RSP_ID,
        ECHO_COMPLETE_ID,
        CON_MGR_REGISTER_ACTOR_RSP_ID,
        MSG_ROUTER_FORWARDER_ACTOR_SENDER_REQ_ID,
        RSP_PROTOCOL_SET_ID,
        REQ_THEIR_BI_DIR_CHANNEL_ID,
        ECHO_START_ID,
        MSG_DESER_REQ_ID,
    ]
}

/// Each element of `s` is below the next one.
pub open spec fn strictly_increasing(s: Seq<u128>) -> bool
    decreases s.len(),
{
    s.len() < 2 || (s[0] < s[1] && strictly_increasing(s.drop_first()))
}

/// A sequence whose each element is below the next one holds no value twice.
proof fn lemma_strictly_increasing_ordered(s: Seq<u128>)
    requires
        strictly_increasing(s),
    ensures
        forall|i: int, j: int| 0 <= i < j < s.len() ==> s[i] < s[j],
    decreases s.len(),
{
    if s.len() >= 2 {
        let t = s.drop_first();
        lemma_strictly_increasing_ordered(t);
        assert forall|i: int, j: int| 0 <= i < j < s.len() implies s[i] < s[j] by {
            if i == 0 {
                if j > 1 {
                    assert(t[0] < t[j - 1]);
                }
            } else {
                assert(t[i - 1] < t[j - 1]);
            }
        }
    }
}

/// Every kind of message has an id of its own, so a message's kind is told
/// by its id.
pub proof fn lemma_msg_kind_ids_distinct()
    ensures
        msg_kind_ids().len() == 27,
        msg_kind_ids().no_duplicates(),
{
    reveal_with_fuel(strictly_increasing, 28);
    assert(strictly_increasing(msg_kind_ids()));
    lemma_strictly_increasing_ordered(msg_kind_ids());
}

} // verus!
