//! Identifiers, message headers, message framing and the decision logic of
//! the actors of an inter-process message-passing system.
pub mod actor;
pub mod actor_executor;
pub mod actor_thread;
pub mod an_id;
pub mod msg_serde_json;
pub mod manager;
pub mod msg_header;
pub mod name_id;
pub mod msg_router;
pub mod framing;
pub mod client;
pub mod con_mgr;
pub mod connection_mgr;
pub mod msgs;
pub mod protocol;
pub mod registry;
pub mod state_info;
