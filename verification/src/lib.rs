//! Authentication core of a credential-protected resource service.
//!
//! The crate holds the decisions of the service: how credentials are hashed
//! and checked, how bearer tokens are issued and verified, how a request is
//! admitted to a protected route, how failures become client-visible
//! responses, and how a write notifies a downstream service without letting
//! that notification change the write's own result. Network, database and
//! process plumbing live with the caller, which hands plain values in and
//! takes plain values back.

pub mod dtos;
pub mod error;
pub mod grpc_client;
pub mod model;
pub mod notification;
pub mod utils;
pub mod web;
