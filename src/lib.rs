//! Adapters that turn an inter-VM socket listener into a stream of
//! connections for an RPC server, carrying each connection's peer address.
pub mod addr;
pub mod connection;
pub mod greeter;
pub mod listener;

pub use addr::{PeerAddr, VsockConnectInfo};
pub use connection::VsockStreamConnectable;
pub use greeter::{HelloReply, HelloRequest, MyGreeter};
pub use listener::{accepted_item, AcceptPoll, StreamPoll, VsockListenerStream};
