//! Request dispatch and stream aggregation for a JSON-RPC gateway in front of
//! a blockchain client: the method registry, the response envelope, the
//! parameter rules of each method, the bounded window over a transaction
//! stream, and the identifier codec.

pub mod number;
pub mod codec;
pub mod aggregation;
pub mod envelope;
pub mod requests;
pub mod records;
pub mod dispatcher;
pub mod decode;
