use exper_inter_process_channel::an_id::AnId;
use exper_inter_process_channel::client::{ClientAction, ClientMsg, Client};
use exper_inter_process_channel::con_mgr::{
    ConMgr, ConMgrAction, ConMgrError, ConMgrMsg, ConMgrRegisterActorReq,
    ConMgrRegisterActorStatus, CON_MGR_PROTOCOL_SET_ID, CON_MGR_REGISTER_ACTOR_REQ_ID,
    CON_MGR_REGISTER_ACTOR_RSP_ID,
};
use exper_inter_process_channel::msgs::{CmdInit, EchoReq, ECHO_RSP_ID};
use exper_inter_process_channel::protocol::{
    echo_requestee_protocol, Protocol, ProtocolSet, ProtocolSetId,
};
use std::collections::HashMap;

const CMD_INIT_PROTOCOL_ID: u128 = 0x1;
const ECHO_REQUESTER_PROTOCOL_ID: u128 = 0x2;
const ECHO_START_COMPLETE_PROTOCOL_ID: u128 = 0x3;
const SERVER_ACTOR_ID: u128 = 0x5;

fn protocol(name: &str, id: u128) -> Protocol {
    Protocol::new(name, AnId(id), vec![])
}

fn client_protocols() -> HashMap<u128, Protocol> {
    let mut m = HashMap::new();
    m.insert(CMD_INIT_PROTOCOL_ID, protocol("cmd_init_protocol", CMD_INIT_PROTOCOL_ID));
    m.insert(ECHO_REQUESTER_PROTOCOL_ID, protocol("echo_requester_protocol", ECHO_REQUESTER_PROTOCOL_ID));
    let p = echo_requestee_protocol();
    m.insert(p.id.0, p);
    m.insert(
        ECHO_START_COMPLETE_PROTOCOL_ID,
        protocol("echo_start_complete_protocol", ECHO_START_COMPLETE_PROTOCOL_ID),
    );
    m
}

fn server_protocol_set() -> ProtocolSet {
    let mut m = HashMap::new();
    m.insert(CMD_INIT_PROTOCOL_ID, protocol("cmd_init_protocol", CMD_INIT_PROTOCOL_ID));
    let p = echo_requestee_protocol();
    m.insert(p.id.0, p);
    ProtocolSet::new("server_ps", ProtocolSetId(AnId::from(0x11)), m)
}

fn con_mgr_protocols() -> HashMap<u128, Protocol> {
    HashMap::new()
}

#[test]
fn test_reg_client_server() {
    println!("\ntest_reg_client_server:+");

    // Create connection manager; a channel is stood for by its name
    let mut con_mgr: ConMgr<&str> = ConMgr::new("con_mgr", con_mgr_protocols());
    let con_mgr_instance_id = con_mgr.instance_id;

    let mut client = Client::new("client", client_protocols());

    // First message must be CmdInit
    let msg = CmdInit::new(&client.instance_id, &con_mgr_instance_id);
    let action = client.process_msg(&con_mgr_instance_id, ClientMsg::CmdInit(msg));

    // Expect the client to send ConMgrRegisterActorReq to con_mgr
    let req = match action {
        ClientAction::SendToConMgr(req) => req,
        a => panic!("unexpected {a:?}"),
    };
    assert_eq!(req.header.msg_id, AnId(CON_MGR_REGISTER_ACTOR_REQ_ID));
    println!("test_reg_client_server: msg_any is CON_MGR_REGISTER_ACTOR_REQ_ID");

    // Have ConMgr process the message
    let action = con_mgr.process_msg(&client.instance_id, ConMgrMsg::RegisterActorReq(req, "client_bdlc"));

    // Expect the ConMgr to return ConMgrRegisterActorRsp with success
    let rsp = match action {
        ConMgrAction::SendRegisterActorRsp(rsp) => rsp,
        a => panic!("unexpected {a:?}"),
    };
    assert_eq!(rsp.header.msg_id, AnId(CON_MGR_REGISTER_ACTOR_RSP_ID));
    assert_eq!(rsp.status, ConMgrRegisterActorStatus::Success);
    println!("test_reg_client_server: msg_any is CON_MGR_REGISTER_ACTOR_RSP_ID");

    // Have the client process the ConMgrRegisterActorRsp
    let action = client.process_msg(&con_mgr_instance_id, ClientMsg::ConMgrRegisterActorRsp(rsp));
    assert!(matches!(action, ClientAction::Nothing));

    // Validate con_mgr has processed the ConMgrRegisterActorReq
    assert_eq!(con_mgr.vec_of_actor_bdlc.len(), 1);
    assert_eq!(con_mgr.actors_map_by_instance_id.len(), 1);
    assert_eq!(*con_mgr.actors_map_by_instance_id.get(&client.instance_id.0).unwrap(), 0);
    assert_eq!(con_mgr.actors_map_by_name.len(), 1);
    assert_eq!(con_mgr.actors_map_by_name.get(&client.name).unwrap(), &vec![0]);
    assert_eq!(con_mgr.actors_map_by_id.len(), 1);
    assert_eq!(con_mgr.actors_map_by_id.get(&client.actor_id.0).unwrap(), &vec![0]);
    assert_eq!(con_mgr.actors_map_by_protocol_set_id.len(), 1);
    assert_eq!(
        con_mgr.actors_map_by_protocol_set_id.get(&client.protocol_set.id.0 .0).unwrap(),
        &vec![0]
    );
    assert_eq!(con_mgr.actors_map_by_protocol_id.len(), 4);
    assert_eq!(con_mgr.actors_map_by_protocol_id.get(&CMD_INIT_PROTOCOL_ID).unwrap(), &vec![0]);
    assert_eq!(con_mgr.actors_map_by_protocol_id.get(&ECHO_REQUESTER_PROTOCOL_ID).unwrap(), &vec![0]);
    assert_eq!(
        con_mgr.actors_map_by_protocol_id.get(&echo_requestee_protocol().id.0).unwrap(),
        &vec![0]
    );
    assert_eq!(
        con_mgr.actors_map_by_protocol_id.get(&ECHO_START_COMPLETE_PROTOCOL_ID).unwrap(),
        &vec![0]
    );

    // Register Server
    let server_instance_id = AnId::new();
    let server_req = ConMgrRegisterActorReq::new(
        &con_mgr_instance_id,
        &server_instance_id,
        "server",
        &AnId(SERVER_ACTOR_ID),
        &server_instance_id,
        &server_protocol_set(),
    );
    let action =
        con_mgr.process_msg(&server_instance_id, ConMgrMsg::RegisterActorReq(server_req, "server_bdlc"));
    let rsp = match action {
        ConMgrAction::SendRegisterActorRsp(rsp) => rsp,
        a => panic!("unexpected {a:?}"),
    };
    assert_eq!(rsp.header.msg_id, AnId(CON_MGR_REGISTER_ACTOR_RSP_ID));
    assert_eq!(rsp.header.dst_id, server_instance_id);
    assert_eq!(rsp.header.src_id, con_mgr_instance_id);
    assert_eq!(rsp.status, ConMgrRegisterActorStatus::Success);

    // Validate con_mgr has processed the server's ConMgrRegisterActorReq
    assert_eq!(con_mgr.vec_of_actor_bdlc.len(), 2);
    assert_eq!(con_mgr.actors_map_by_instance_id.len(), 2);
    assert_eq!(*con_mgr.actors_map_by_instance_id.get(&server_instance_id.0).unwrap(), 1);
    assert_eq!(con_mgr.actors_map_by_name.len(), 2);
    assert_eq!(con_mgr.actors_map_by_name.get("server").unwrap(), &vec![1]);
    assert_eq!(con_mgr.actors_map_by_id.len(), 2);
    assert_eq!(con_mgr.actors_map_by_id.get(&SERVER_ACTOR_ID).unwrap(), &vec![1]);
    assert_eq!(con_mgr.actors_map_by_protocol_set_id.len(), 2);
    assert_eq!(con_mgr.actors_map_by_protocol_set_id.get(&0x11).unwrap(), &vec![1]);
    assert_eq!(con_mgr.actors_map_by_protocol_id.len(), 4);
    assert_eq!(con_mgr.actors_map_by_protocol_id.get(&CMD_INIT_PROTOCOL_ID).unwrap(), &vec![0, 1]);
    assert_eq!(
        con_mgr.actors_map_by_protocol_id.get(&echo_requestee_protocol().id.0).unwrap(),
        &vec![0, 1]
    );
    assert_eq!(con_mgr.vec_of_actor_bdlc[0], "client_bdlc");
    assert_eq!(con_mgr.vec_of_actor_bdlc[1], "server_bdlc");

    println!("test_reg_client_server:-");
}

#[test]
fn test_con_mgr_refuses_a_second_registration() {
    let mut con_mgr: ConMgr<u32> = ConMgr::new("con_mgr", con_mgr_protocols());
    let iid = AnId::from(42);
    let req = ConMgrRegisterActorReq::new(&con_mgr.instance_id, &iid, "a", &AnId::from(1), &iid, &server_protocol_set());
    assert_eq!(con_mgr.add_actor(&req, 7), Ok(()));
    assert_eq!(con_mgr.add_actor(&req, 8), Err(ConMgrError::ActorAlreadyAdded { idx: 0 }));
    assert_eq!(con_mgr.vec_of_actor_bdlc, vec![7]);
    // The refused registration files the instance id under the index it
    // would have had.
    assert_eq!(con_mgr.actors_map_by_instance_id.get(&iid.0), Some(&1));
    assert_eq!(con_mgr.actors_map_by_instance_id.len(), 1);
    assert_eq!(con_mgr.actors_map_by_instance_id.get(&43), None);

    let a = con_mgr.process_msg(&iid, ConMgrMsg::RegisterActorReq(req, 9));
    match a {
        ConMgrAction::SendRegisterActorRsp(rsp) => {
            assert_eq!(rsp.status, ConMgrRegisterActorStatus::ActorAlreadyRegistered)
        }
        a => panic!("unexpected {a:?}"),
    }
    assert_eq!(con_mgr.vec_of_actor_bdlc.len(), 1);
}

#[test]
fn test_con_mgr_same_protocol_set_files_protocols_once() {
    let mut con_mgr: ConMgr<u32> = ConMgr::new("con_mgr", con_mgr_protocols());
    let a = AnId::from(1);
    let b = AnId::from(2);
    let ra = ConMgrRegisterActorReq::new(&a, &a, "x", &AnId::from(9), &a, &server_protocol_set());
    let rb = ConMgrRegisterActorReq::new(&b, &b, "x", &AnId::from(9), &b, &server_protocol_set());
    assert!(con_mgr.add_actor(&ra, 0).is_ok());
    assert!(con_mgr.add_actor(&rb, 1).is_ok());
    assert_eq!(con_mgr.actors_map_by_name.get("x").unwrap(), &vec![0, 1]);
    assert_eq!(con_mgr.actors_map_by_id.get(&9).unwrap(), &vec![0, 1]);
    assert_eq!(con_mgr.actors_map_by_protocol_set_id.get(&0x11).unwrap(), &vec![0, 1]);
    assert_eq!(con_mgr.actors_map_by_protocol_id.get(&CMD_INIT_PROTOCOL_ID).unwrap(), &vec![0]);
}

#[test]
fn test_con_mgr_answers_echo_and_query() {
    let mut con_mgr: ConMgr<u32> = ConMgr::new("con_mgr", con_mgr_protocols());
    let src = AnId::from(77);
    let req = EchoReq::new(&con_mgr.instance_id, &src, 3);
    match con_mgr.process_msg(&src, ConMgrMsg::EchoReq(req)) {
        ConMgrAction::SendEchoRsp(rsp) => {
            assert_eq!(rsp.header.msg_id, AnId(ECHO_RSP_ID));
            assert_eq!(rsp.header.dst_id, src);
            assert_eq!(rsp.header.src_id, con_mgr.instance_id);
            assert_eq!(rsp.counter, 3);
            assert_eq!(rsp.req_timestamp_ns, req.req_timestamp_ns);
        }
        a => panic!("unexpected {a:?}"),
    }
    assert!(matches!(con_mgr.process_msg(&src, ConMgrMsg::QueryReq), ConMgrAction::SendEmptyQueryRsp));
    let init = CmdInit::new(&con_mgr.instance_id, &src);
    assert!(matches!(con_mgr.process_msg(&src, ConMgrMsg::CmdInit(init)), ConMgrAction::Nothing));
    assert_eq!(con_mgr.vec_of_actor_bdlc.len(), 0);
    assert_eq!(con_mgr.state_info().name, "state0");
    assert_eq!(con_mgr.protocol_set.name, "con_mgr_ps");
    assert_eq!(con_mgr.protocol_set.id.0, AnId(CON_MGR_PROTOCOL_SET_ID));
}
