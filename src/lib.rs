//! A dynamic gRPC gateway: the verified core.
//!
//! The modules hold the decisions of the gateway as plain, verified code:
//! the circuit breaker state machine, the credential rules, the service
//! registry, the descriptor cache and its lookups, the byte codec and the
//! mapping of outcomes to response envelopes. Network I/O is driven from
//! outside and hands plain values to these functions.

pub mod errors;
pub mod breaker;
pub mod table;
pub mod auth;
pub mod registry;
pub mod proto;
pub mod descriptor;
pub mod codec;
pub mod gateway;
