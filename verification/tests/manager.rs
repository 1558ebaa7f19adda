use exper_inter_process_channel::an_id::AnId;
use exper_inter_process_channel::client::{Client, CLIENT_ACTOR_ID, CLIENT_PROTOCOL_SET_ID};
use exper_inter_process_channel::manager::{Manager, ManagerError, ManagerId};
use exper_inter_process_channel::protocol::Protocol;
use std::collections::HashMap;

fn protocols(protocol_ids: &[u128]) -> HashMap<u128, Protocol> {
    let mut m = HashMap::new();
    for p in protocol_ids {
        m.insert(*p, Protocol::new("p", AnId(*p), vec![]));
    }
    m
}

#[test]
fn test_manager() {
    println!("test_manager");
    let mut manager: Manager<Client> = Manager::new("a_manager", ManagerId(AnId::new()));

    let client = Client::new("client", protocols(&[1, 2]));
    manager.add_actor(client).unwrap();

    let server1 = Client::new("server1", protocols(&[2]));
    manager.add_actor(server1).unwrap();
    let server2 = Client::new("server2", protocols(&[2, 3]));
    manager.add_actor(server2).unwrap();

    println!("manager: {manager:#?}");

    assert_eq!(manager.name, "a_manager");
    assert_eq!(manager.actors.len(), 3);
    assert_eq!(manager.actors_map_by_instance_id.len(), 3);
    assert_eq!(manager.actors_map_by_actor_id.get(&CLIENT_ACTOR_ID).unwrap(), &vec![0, 1, 2]);
    assert_eq!(manager.actors_map_by_protocol_id.get(&1).unwrap(), &vec![0]);
    assert_eq!(manager.actors_map_by_protocol_id.get(&2).unwrap(), &vec![0, 1, 2]);
    assert_eq!(manager.actors_map_by_protocol_id.get(&3).unwrap(), &vec![2]);
    assert_eq!(manager.actors_map_by_protocol_set_id.len(), 1);
    assert_eq!(manager.actors_map_by_protocol_set_id.get(&CLIENT_PROTOCOL_SET_ID).unwrap(), &vec![0, 1, 2]);
    let iid = manager.actors[1].instance_id;
    assert_eq!(*manager.actors_map_by_instance_id.get(&iid.0).unwrap(), 1);
}

#[test]
fn test_manager_refuses_a_second_add() {
    let mut manager: Manager<Client> = Manager::new("m", ManagerId(AnId::from(1)));
    let a = Client::new("a", protocols(&[1]));
    let mut b = Client::new("b", protocols(&[2]));
    b.instance_id = a.instance_id;
    assert!(manager.add_actor(a).is_ok());
    assert_eq!(manager.add_actor(b), Err(ManagerError::ActorAlreadyAdded { idx: 0 }));
    assert_eq!(manager.actors.len(), 1);
    assert!(manager.actors_map_by_protocol_id.get(&2).is_none());
}
