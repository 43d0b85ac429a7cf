//! A bidirectional tunnel between a datagram-based secure transport and plain
//! TCP, in two roles: a server that terminates incoming sessions and forwards
//! each to a fixed TCP target, and a client that forwards local TCP
//! connections to a remote server pinned by certificate fingerprint.
//!
//! This crate holds the verified core: the certificate lifecycle decisions
//! (load-or-generate, validity, renewal scheduling), the origin admission
//! policy, and the per-session state machine. The surrounding I/O (sockets,
//! PEM files, HTTP webhook, the transport protocol itself) lives outside.

pub mod bridge;
pub mod bytes;
pub mod cert;
pub mod cli;
pub mod client;
pub mod identity;
pub mod origin;
