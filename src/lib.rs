//! A single node of a broadcast cluster: typed messages, the node's state, the
//! handlers that answer each request, and the decoding of wire bodies.
pub mod packet;
pub mod storage;
pub mod node;
pub mod codec;
pub mod dispatch;
pub mod laws;
