//! The items a client or a server of the protocol works with.

pub mod v1;
