use exper_inter_process_channel::actor_executor::{REQ_ADD_ACTOR_ID, REQ_ADD_ACTOR_ID_STR, RSP_ADD_ACTOR_ID, RSP_ADD_ACTOR_ID_STR};
use exper_inter_process_channel::actor_thread::{
    ADD_ACTOR_ID, ADD_ACTOR_ID_STR, REMOVE_ACTOR_ID, REMOVE_ACTOR_ID_STR,
    REPLY_ACTOR_BI_DIR_CHANNEL_ID, REPLY_ACTOR_BI_DIR_CHANNEL_ID_STR,
};
use exper_inter_process_channel::an_id::AnId;
use exper_inter_process_channel::msg_header::HasHeader;
use exper_inter_process_channel::con_mgr::{
    CON_MGR_REGISTER_ACTOR_REQ_ID, CON_MGR_REGISTER_ACTOR_REQ_ID_STR,
    CON_MGR_REGISTER_ACTOR_RSP_ID, CON_MGR_REGISTER_ACTOR_RSP_ID_STR,
};
use exper_inter_process_channel::msgs::{
    CMD_DONE_ID, CMD_DONE_ID_STR, CMD_INIT_ID, CMD_INIT_ID_STR, CON_MGR_ADD_ACTOR_ID,
    CON_MGR_ADD_ACTOR_ID_STR, CmdDone, CmdInit, ConMgrAddActor, ECHO_COMPLETE_ID,
    ECHO_COMPLETE_ID_STR, ECHO_REPLY_ID, ECHO_REPLY_ID_STR, ECHO_REQ_ID, ECHO_REQ_ID_STR,
    ECHO_RSP_ID, ECHO_RSP_ID_STR, ECHO_START_ID, ECHO_START_ID_STR, EchoComplete, EchoReply,
    EchoReq, EchoRsp, EchoStart, INSERT_KEY_MSG_ID_VALUE_FROM_SERDE_JSON_BUF_REQ_ID,
    INSERT_KEY_MSG_ID_VALUE_FROM_SERDE_JSON_BUF_REQ_ID_STR,
    INSERT_KEY_MSG_ID_VALUE_FROM_SERDE_JSON_BUF_RSP_ID,
    INSERT_KEY_MSG_ID_VALUE_FROM_SERDE_JSON_BUF_RSP_ID_STR,
    INSERT_KEY_MSG_ID_VALUE_TO_SERDE_JSON_BUF_REQ_ID,
    INSERT_KEY_MSG_ID_VALUE_TO_SERDE_JSON_BUF_REQ_ID_STR,
    INSERT_KEY_MSG_ID_VALUE_TO_SERDE_JSON_BUF_RSP_ID,
    INSERT_KEY_MSG_ID_VALUE_TO_SERDE_JSON_BUF_RSP_ID_STR,
    InsertKeyMsgIdValueFromSerdeJsonBufReq, InsertKeyMsgIdValueFromSerdeJsonBufRsp,
    InsertKeyMsgIdValueFromSerdeJsonBufRspStatus, InsertKeyMsgIdValueToSerdeJsonBufReq,
    InsertKeyMsgIdValueToSerdeJsonBufRsp, InsertKeyMsgIdValueToSerdeJsonBufRspStatus, MSG1_ID,
    MSG1_ID_STR, MSG2_ID, MSG2_ID_STR, MSG_DESER_REQ_ID, MSG_DESER_REQ_ID_STR,
    MSG_ROUTER_FORWARDER_ACTOR_SENDER_REQ_ID, MSG_ROUTER_FORWARDER_ACTOR_SENDER_REQ_ID_STR,
    MSG_ROUTER_FORWARDER_ACTOR_SENDER_RSP_ID, MSG_ROUTER_FORWARDER_ACTOR_SENDER_RSP_ID_STR,
    Msg1, Msg2, MsgDeserReq, MsgRouterForwarderActorSenderReq, MsgRouterForwarderActorSenderRsp,
    REQ_PROTOCOL_SET_ID, REQ_PROTOCOL_SET_ID_STR, REQ_THEIR_BI_DIR_CHANNEL_ID,
    REQ_THEIR_BI_DIR_CHANNEL_ID_STR, RSP_PROTOCOL_SET_ID, RSP_PROTOCOL_SET_ID_STR,
    RSP_THEIR_BI_DIR_CHANNEL_ID, RSP_THEIR_BI_DIR_CHANNEL_ID_STR, ReqProtocolSet,
    ReqTheirBiDirChannel, RspTheirBiDirChannel,
};

fn now_ns() -> i64 {
    chrono::Utc::now().timestamp_nanos_opt().unwrap()
}

#[test]
fn test_req_protocol_set_msg() {
    let msg = ReqProtocolSet::new();
    println!("test_req_protocol_set_msg: msg={msg:?}");
    assert_eq!(msg.header.msg_id.0, REQ_PROTOCOL_SET_ID);
}

#[test]
fn test_cmd_done_new() {
    let dst_id = AnId::new();
    let src_id = AnId::new();
    let msg = CmdDone::new(&dst_id, &src_id);
    println!("test_cmd_done_new msg={msg:?}");
    assert_eq!(msg.header.msg_id, AnId(CMD_DONE_ID));
    assert_eq!(msg.header.src_id, src_id);
    assert_eq!(msg.header.msg_id.to_string(), CMD_DONE_ID_STR);
}

#[test]
fn lib_test_cmd_done_new() {
    let dst_id = AnId::new();
    let src_id = AnId::new();
    let msg = CmdInit::new(&dst_id, &src_id);
    println!("test_cmd_done_new msg={msg:?}");
    assert_eq!(msg.msg_id(), &AnId(CMD_INIT_ID));
    assert_eq!(msg.dst_id(), &dst_id);
    assert_eq!(msg.src_id(), &src_id);
    assert_eq!(msg.msg_id().to_string(), CMD_INIT_ID_STR);
}

#[test]
fn test_echo_complete_new() {
    let dst_id = AnId::new();
    let src_id = AnId::new();
    let msg = EchoComplete::new(&dst_id, &src_id);
    println!("test_cmd_done_new msg={msg:?}");
    assert_eq!(msg.msg_id(), &AnId(ECHO_COMPLETE_ID));
    assert_eq!(msg.dst_id(), &dst_id);
    assert_eq!(msg.src_id(), &src_id);
    assert_eq!(msg.msg_id().to_string(), ECHO_COMPLETE_ID_STR);
}

#[test]
fn test_msg2_new() {
    let dst_id = AnId::new();
    let src_id = AnId::new();
    let msg = Msg2::new(&dst_id, &src_id);
    println!("test_cmd_done_new msg={msg:?}");
    assert_eq!(msg.header.msg_id, AnId(MSG2_ID));
    assert_eq!(msg.header.src_id, src_id);
    assert_eq!(msg.header.msg_id.to_string(), MSG2_ID_STR);
}

#[test]
fn test_msg1_new() {
    let dst_id = AnId::from(1);
    let src_id = AnId::from(2);
    let msg = Msg1::new(&dst_id, &src_id, 123);
    assert_eq!(msg.header.msg_id, AnId(MSG1_ID));
    assert_eq!(msg.header.dst_id, dst_id);
    assert_eq!(msg.header.src_id, src_id);
    assert_eq!(msg.v, 123);
    assert_eq!(msg.header.msg_id.to_string(), MSG1_ID_STR);
    assert_eq!(msg.msg_id(), &AnId(MSG1_ID));
    assert_eq!(msg.src_id(), &src_id);
    assert_eq!(msg.dst_id(), &dst_id);
}

#[test]
fn test_con_mgr_add_actor() {
    let a_id = AnId::new();
    let a_instance_id = AnId::new();
    let a_protocol_set_id = AnId::new();

    let msg = ConMgrAddActor::new("cmaa1", &a_id, &a_instance_id, &a_protocol_set_id);
    println!("test_echo_req msg={msg:#?}");

    assert_eq!(msg.header.msg_id, AnId(CON_MGR_ADD_ACTOR_ID));
    assert_eq!(msg.name, "cmaa1");
    assert_eq!(msg.id, a_id);
    assert_eq!(msg.instance_id, a_instance_id);
    assert_eq!(msg.protocol_set_id, a_protocol_set_id);
}

#[test]
fn test_echo_rsp_new() {
    let dst_id = AnId::new();
    let src_id = AnId::new();
    let now_ns = now_ns();
    let msg = EchoRsp::new(&dst_id, &src_id, now_ns, 1);
    println!("test_echo_rsp msg={msg:?}");
    assert_eq!(msg.msg_id(), &AnId(ECHO_RSP_ID));
    assert!(msg.rsp_timestamp_ns >= msg.req_timestamp_ns);
    assert_eq!(msg.req_timestamp_ns, now_ns);
    assert_eq!(msg.counter, 1);
    assert_eq!(msg.msg_id().to_string(), ECHO_RSP_ID_STR);
    assert_eq!(msg.dst_id(), &dst_id);
    assert_eq!(msg.src_id(), &src_id);
}

#[test]
fn test_echo_req_new() {
    let now_ns = now_ns();
    let msg = EchoReq::new(&AnId::nil(), &AnId::nil(), 1);
    println!("test_echo_req msg={msg:?}");
    assert_eq!(msg.header.msg_id, AnId(ECHO_REQ_ID));
    assert!(msg.req_timestamp_ns >= now_ns);
    assert_eq!(msg.counter, 1);
    assert_eq!(msg.header.msg_id.to_string(), ECHO_REQ_ID_STR);
}

#[test]
fn test_echo_reply_new() {
    let now_ns = now_ns();
    let msg = EchoReply::new(now_ns, 1);
    println!("test_echo_reply msg={msg:?}");
    assert_eq!(msg.header.msg_id, AnId(ECHO_REPLY_ID));
    assert!(msg.reply_timestamp_ns >= msg.req_timestamp_ns);
    assert_eq!(msg.counter, 1);
    assert_eq!(msg.header.msg_id.to_string(), ECHO_REPLY_ID_STR);
}

#[test]
fn test_echo_start_new() {
    let msg = EchoStart::new(&AnId::from(1), &AnId::from(2), &AnId::from(3), 5);
    assert_eq!(msg.header.msg_id, AnId(ECHO_START_ID));
    assert_eq!(msg.header.dst_id, AnId::from(1));
    assert_eq!(msg.header.src_id, AnId::from(2));
    assert_eq!(msg.partner_instance_id, AnId::from(3));
    assert_eq!(msg.ping_count, 5);
}

#[test]
fn test_id_strings_match_ids() {
    let pairs: Vec<(u128, &str)> = vec![
        (ECHO_REQ_ID, ECHO_REQ_ID_STR),
        (ECHO_RSP_ID, ECHO_RSP_ID_STR),
        (ECHO_REPLY_ID, ECHO_REPLY_ID_STR),
        (ECHO_START_ID, ECHO_START_ID_STR),
        (ECHO_COMPLETE_ID, ECHO_COMPLETE_ID_STR),
        (CMD_INIT_ID, CMD_INIT_ID_STR),
        (CMD_DONE_ID, CMD_DONE_ID_STR),
        (MSG1_ID, MSG1_ID_STR),
        (MSG2_ID, MSG2_ID_STR),
        (INSERT_KEY_MSG_ID_VALUE_FROM_SERDE_JSON_BUF_REQ_ID, INSERT_KEY_MSG_ID_VALUE_FROM_SERDE_JSON_BUF_REQ_ID_STR),
        (INSERT_KEY_MSG_ID_VALUE_FROM_SERDE_JSON_BUF_RSP_ID, INSERT_KEY_MSG_ID_VALUE_FROM_SERDE_JSON_BUF_RSP_ID_STR),
        (INSERT_KEY_MSG_ID_VALUE_TO_SERDE_JSON_BUF_REQ_ID, INSERT_KEY_MSG_ID_VALUE_TO_SERDE_JSON_BUF_REQ_ID_STR),
        (INSERT_KEY_MSG_ID_VALUE_TO_SERDE_JSON_BUF_RSP_ID, INSERT_KEY_MSG_ID_VALUE_TO_SERDE_JSON_BUF_RSP_ID_STR),
        (MSG_ROUTER_FORWARDER_ACTOR_SENDER_REQ_ID, MSG_ROUTER_FORWARDER_ACTOR_SENDER_REQ_ID_STR),
        (MSG_ROUTER_FORWARDER_ACTOR_SENDER_RSP_ID, MSG_ROUTER_FORWARDER_ACTOR_SENDER_RSP_ID_STR),
        (CON_MGR_ADD_ACTOR_ID, CON_MGR_ADD_ACTOR_ID_STR),
        (REQ_PROTOCOL_SET_ID, REQ_PROTOCOL_SET_ID_STR),
        (RSP_PROTOCOL_SET_ID, RSP_PROTOCOL_SET_ID_STR),
        (MSG_DESER_REQ_ID, MSG_DESER_REQ_ID_STR),
        (REQ_THEIR_BI_DIR_CHANNEL_ID, REQ_THEIR_BI_DIR_CHANNEL_ID_STR),
        (RSP_THEIR_BI_DIR_CHANNEL_ID, RSP_THEIR_BI_DIR_CHANNEL_ID_STR),
        (CON_MGR_REGISTER_ACTOR_REQ_ID, CON_MGR_REGISTER_ACTOR_REQ_ID_STR),
        (CON_MGR_REGISTER_ACTOR_RSP_ID, CON_MGR_REGISTER_ACTOR_RSP_ID_STR),
        (REQ_ADD_ACTOR_ID, REQ_ADD_ACTOR_ID_STR),
        (RSP_ADD_ACTOR_ID, RSP_ADD_ACTOR_ID_STR),
        (ADD_ACTOR_ID, ADD_ACTOR_ID_STR),
        (REMOVE_ACTOR_ID, REMOVE_ACTOR_ID_STR),
        (REPLY_ACTOR_BI_DIR_CHANNEL_ID, REPLY_ACTOR_BI_DIR_CHANNEL_ID_STR),
    ];
    for (id, s) in pairs.iter() {
        assert_eq!(AnId(*id).to_string(), *s);
    }
    // Every kind of message has an id of its own; `EchoReply` is the earlier
    // form of `EchoRsp` and shares its id.
    for (i, (a, _)) in pairs.iter().enumerate() {
        for (b, _) in pairs[i + 1..].iter() {
            if *a == ECHO_RSP_ID && *b == ECHO_REPLY_ID {
                continue;
            }
            assert_ne!(a, b);
        }
    }
    assert_ne!(MSG_ROUTER_FORWARDER_ACTOR_SENDER_REQ_ID, REQ_PROTOCOL_SET_ID);
}

#[test]
fn test_insert_key_msgs() {
    let d = AnId::from(1);
    let s = AnId::from(2);
    let m = AnId::from(3);
    let req = InsertKeyMsgIdValueFromSerdeJsonBufReq::new(&d, &s, &m, 7u8);
    assert_eq!(req.header.msg_id, AnId(INSERT_KEY_MSG_ID_VALUE_FROM_SERDE_JSON_BUF_REQ_ID));
    assert_eq!(req.msg_id, m);
    assert_eq!(req.from_serde_json_buf, 7u8);
    let rsp = InsertKeyMsgIdValueFromSerdeJsonBufRsp::new(
        &d,
        &s,
        &m,
        InsertKeyMsgIdValueFromSerdeJsonBufRspStatus::AlreadyInserted,
    );
    assert_eq!(rsp.header.msg_id, AnId(INSERT_KEY_MSG_ID_VALUE_FROM_SERDE_JSON_BUF_RSP_ID));
    assert_eq!(rsp.status, InsertKeyMsgIdValueFromSerdeJsonBufRspStatus::AlreadyInserted);
    let req = InsertKeyMsgIdValueToSerdeJsonBufReq::new(&d, &s, &m, 8u8);
    assert_eq!(req.header.msg_id, AnId(INSERT_KEY_MSG_ID_VALUE_TO_SERDE_JSON_BUF_REQ_ID));
    assert_eq!(req.to_serde_json_buf, 8u8);
    let rsp = InsertKeyMsgIdValueToSerdeJsonBufRsp::new(
        &d,
        &s,
        &m,
        InsertKeyMsgIdValueToSerdeJsonBufRspStatus::Success,
    );
    assert_eq!(rsp.header.msg_id, AnId(INSERT_KEY_MSG_ID_VALUE_TO_SERDE_JSON_BUF_RSP_ID));
    assert_eq!(rsp.header.dst_id, d);
    assert_eq!(rsp.header.src_id, s);
}

#[test]
fn test_channel_msgs() {
    let req = ReqTheirBiDirChannel::new(&AnId::from(5), 3, "tx");
    assert_eq!(req.header.msg_id, AnId(REQ_THEIR_BI_DIR_CHANNEL_ID));
    assert_eq!(req.header.dst_id, AnId::nil());
    assert_eq!(req.header.src_id, AnId::from(5));
    assert_eq!(req.handle, 3);
    let rsp = RspTheirBiDirChannel::new(Box::new(11u32));
    assert_eq!(rsp.header.msg_id, AnId(RSP_THEIR_BI_DIR_CHANNEL_ID));
    assert_eq!(*rsp.bdlc, 11);
    let d = MsgDeserReq::new(&AnId::from(1), &AnId::from(2), &AnId::from(3), 0u8);
    assert_eq!(d.header.msg_id, AnId(MSG_DESER_REQ_ID));
    assert_eq!(d.msg_id, AnId::from(3));
    let s = MsgRouterForwarderActorSenderReq::new(&AnId::from(1), &AnId::from(2), &AnId::from(3));
    assert_eq!(s.header.msg_id, AnId(MSG_ROUTER_FORWARDER_ACTOR_SENDER_REQ_ID));
    assert_eq!(s.instance_id, AnId::from(3));
    let r = MsgRouterForwarderActorSenderRsp::new(&AnId::from(1), &AnId::from(2), 9u8);
    assert_eq!(r.header.msg_id, AnId(MSG_ROUTER_FORWARDER_ACTOR_SENDER_RSP_ID));
    assert_eq!(r.sender, 9u8);
}

#[test]
fn test_echo_msgs_with_timestamp() {
    let d = AnId::from(1);
    let s = AnId::from(2);
    let req = EchoReq::new_with_timestamp(&d, &s, 3, 1234);
    assert_eq!(req.header.msg_id, AnId(ECHO_REQ_ID));
    assert_eq!(req.req_timestamp_ns, 1234);
    assert_eq!(req.counter, 3);
    let rsp = EchoRsp::new_with_timestamp(&d, &s, 1234, 3, 5678);
    assert_eq!(rsp.header.msg_id, AnId(ECHO_RSP_ID));
    assert_eq!(rsp.req_timestamp_ns, 1234);
    assert_eq!(rsp.rsp_timestamp_ns, 5678);
    assert_eq!(rsp.counter, 3);
    let reply = EchoReply::new_with_timestamp(1234, 3, 5678);
    assert_eq!(reply.header.msg_id, AnId(ECHO_REPLY_ID));
    assert_eq!(reply.reply_timestamp_ns, 5678);
    // The clock readings that `new` stamps are not negative.
    assert!(EchoReq::new(&d, &s, 1).req_timestamp_ns >= 0);
}
