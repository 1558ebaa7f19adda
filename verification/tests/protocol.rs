use exper_inter_process_channel::an_id::AnId;
use exper_inter_process_channel::msgs::{
    RspProtocolSet, ECHO_COMPLETE_ID, ECHO_REPLY_ID, ECHO_REQ_ID, ECHO_START_ID, RSP_PROTOCOL_SET_ID,
};
use exper_inter_process_channel::protocol::{
    echo_protocol, echo_req_reply_protocol, echo_requestee_protocol, Protocol, ProtocolSet,
    ProtocolSetId, ECHO_PROTOCOL_ID, ECHO_PROTOCOL_NAME, ECHO_REQUESTEE_PROTOCOL_ID,
    ECHO_REQUESTEE_PROTOCOL_NAME, ECHO_REQ_REPLY_PROTOCOL_ID, ECHO_REQ_REPLY_PROTOCOL_NAME,
};
use std::collections::HashMap;

#[test]
fn test_protocol() {
    println!("test_protocol");

    let id = AnId::new();
    let messages = vec![AnId::new()];
    let a_protocol = Protocol::new("a_protocol", id.clone(), messages.clone());

    println!("a_protocol={a_protocol:#?}");
    assert_eq!(a_protocol.name, "a_protocol");
    assert_eq!(a_protocol.id, id);
    assert_eq!(a_protocol.messages, messages);
}

#[test]
fn lib_test_protocol() {
    println!("test_protocol");

    let protocol1_id = AnId::new();
    let protocol1_msgs = vec![AnId::new()];
    let protocol1 = Protocol::new("protocol1", protocol1_id.clone(), protocol1_msgs.clone());

    let protocol2_id = AnId::new();
    let protocol2_msgs = vec![AnId::new()];
    let protocol2 = Protocol::new("protocol2", protocol2_id.clone(), protocol2_msgs.clone());

    let protocol_set_id = ProtocolSetId(AnId::new());
    let mut protocols_map = HashMap::new();
    assert!(protocols_map.insert(protocol1_id.0, protocol1.clone()).is_none());
    assert!(protocols_map.insert(protocol2_id.0, protocol2.clone()).is_none());

    let a_protocol_set =
        ProtocolSet::new("a_protocol_set", protocol_set_id.clone(), protocols_map.clone());
    println!("a_protocol_set: {a_protocol_set:#?}");

    let protocols = Vec::from_iter(a_protocol_set.protocols_map.values());
    assert_eq!(protocols.len(), 2);

    assert_eq!(a_protocol_set.id, protocol_set_id);
    assert_eq!(a_protocol_set.name, "a_protocol_set");
    let p = a_protocol_set.protocols_map.get(&protocol1_id.0).unwrap();
    assert_eq!(p, &protocol1);
    let p = a_protocol_set.protocols_map.get(&protocol2_id.0).unwrap();
    assert_eq!(p, &protocol2);
}

#[test]
fn test_protocol_clones_are_equal() {
    let p = Protocol::new("p", AnId::from(3), vec![AnId::from(4), AnId::from(5)]);
    assert_eq!(p.clone(), p);
    let mut m = HashMap::new();
    m.insert(3u128, p.clone());
    let ps = ProtocolSet::new("ps", ProtocolSetId(AnId::from(9)), m);
    let ps2 = ps.clone();
    assert_eq!(ps2.name, "ps");
    assert_eq!(ps2.id, ProtocolSetId(AnId::from(9)));
    assert_eq!(ps2.protocols_map.get(&3).unwrap(), &p);
}

#[test]
fn test_echo_protocol() {
    let ep = echo_protocol();
    assert_eq!(ep.id(), &AnId(ECHO_PROTOCOL_ID));
    assert_eq!(ep.name(), ECHO_PROTOCOL_NAME);
    assert_eq!(ep.protocols(), &vec![AnId(ECHO_PROTOCOL_ID)]);
    let ep_id = &ep.protocols()[0];
    let ep_msgs = ep.messages(ep_id).unwrap();
    assert_eq!(
        ep_msgs,
        &vec![AnId(ECHO_START_ID), AnId(ECHO_REQ_ID), AnId(ECHO_REPLY_ID), AnId(ECHO_COMPLETE_ID)]
    );
    assert!(ep.messages(&AnId::from(1)).is_none());
}

#[test]
fn test_echo_req_reply_protocol() {
    let errp = echo_req_reply_protocol();
    assert_eq!(&errp.id, &AnId(ECHO_REQ_REPLY_PROTOCOL_ID));
    assert_eq!(errp.name, ECHO_REQ_REPLY_PROTOCOL_NAME);
    assert_eq!(&errp.messages, &vec![AnId(ECHO_REQ_ID), AnId(ECHO_REPLY_ID)]);
}

#[test]
fn test_echo_requestee_protocol() {
    let errp = echo_requestee_protocol();
    assert_eq!(errp.id, AnId(ECHO_REQUESTEE_PROTOCOL_ID));
    assert_eq!(errp.name, ECHO_REQUESTEE_PROTOCOL_NAME);
    assert_eq!(errp.messages, vec![AnId(ECHO_REQ_ID), AnId(ECHO_REPLY_ID)]);
}

#[test]
fn test_rsp_protocol_set_msg() {
    let a_id = AnId::new();
    let a_instance_id = AnId::new();

    let protocol1_id = AnId::new();
    let protocol1_msgs = vec![AnId::new()];
    let protocol1 = Protocol::new("protocol1", protocol1_id.clone(), protocol1_msgs.clone());

    let protocol_set_id = ProtocolSetId(AnId::new());
    let mut protocols_map = HashMap::new();
    assert!(protocols_map.insert(protocol1_id.0, protocol1.clone()).is_none());

    let a_protocol_set =
        ProtocolSet::new("a_protocol_set", protocol_set_id.clone(), protocols_map.clone());

    let protocols = Vec::from_iter(a_protocol_set.protocols_map.values());
    assert_eq!(protocols.len(), 1);

    let msg = RspProtocolSet::new("rps1", &a_id, &a_instance_id, &a_protocol_set);
    println!("test_echo_req msg={msg:#?}");

    assert_eq!(msg.header.msg_id, AnId(RSP_PROTOCOL_SET_ID));
    assert_eq!(msg.name, "rps1");
    assert_eq!(msg.id, a_id);
    assert_eq!(msg.instance_id, a_instance_id);

    assert_eq!(a_protocol_set.name, "a_protocol_set");
    assert_eq!(a_protocol_set.id, protocol_set_id);
    let p = a_protocol_set.protocols_map.get(&protocol1_id.0).unwrap();
    assert_eq!(p, &protocol1);
    assert_eq!(msg.protocol_set.protocols_map.get(&protocol1_id.0).unwrap(), &protocol1);
}
