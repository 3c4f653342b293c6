//! Rendezvous engine of a reverse TCP tunnelling broker.
//!
//! A client behind NAT exposes local TCP ports through a server that owns
//! public addresses. This crate holds the decisions of both sides: the wire
//! codec, the admission of users, the table that pairs external connections
//! with the client's dial-backs, and the half-close bookkeeping of a splice.
//! Sockets, tasks and channels belong to the program that drives it.

pub mod client;
pub mod config;
pub mod endian;
pub mod id;
pub mod invariants;
pub mod protocols;
pub mod server;
pub mod splice;
