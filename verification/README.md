# exper_inter_process_channel

Actors that exchange messages over local channels, and routers that carry
those messages between processes over TCP as length-framed JSON text.

## Layout

- `src/` is the verified library. It holds the identifiers (`an_id`,
  `name_id`), message headers and messages (`msg_header`, `msgs`,
  `con_mgr`, `actor_executor`, `actor_thread`), protocols (`protocol`),
  the framing of messages on a byte stream and the checks made of their JSON
  text (`framing`, `msg_serde_json`), the index maps of the registries
  (`registry`), and the decisions of each actor as a function from a
  received message to the next state and an action (`client`, `con_mgr`,
  `connection_mgr`, `msg_router`, `actor_executor`, `manager`). Each public
  function has a contract, and the properties that span several calls are
  stated and proved as proof functions (`lemma_*`).
- `app/` is the running system: crossbeam channels, the process-wide map
  from instance ids to senders, the executor's thread, the routers' sockets
  and the serde copies of the messages that cross them. It performs the
  actions that the library decides.
- `tests/` exercises the library on concrete values.
