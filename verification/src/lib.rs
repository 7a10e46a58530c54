//! The core of a decentralized-communication node: the frame codec, the
//! per-connection supervisor, the registry of client sessions, the queue of
//! message events, and the decisions of the protocol server loop and of the
//! dispatch role.

pub mod dispatch;
pub mod dispatch_laws;
pub mod frame;
pub mod frame_laws;
pub mod queue;
pub mod queue_laws;
pub mod registry;
pub mod registry_laws;
pub mod server;
pub mod server_laws;
pub mod slowloris;
pub mod wire;
