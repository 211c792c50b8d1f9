//! Request and response envelopes.

pub mod v1;
