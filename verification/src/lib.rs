//! A minimal authentication service: register credentials, exchange them for
//! a session token, and resolve a token back to a username.
//!
//! The core is an authentication policy over two storage ports (a credential
//! store and a token store), each an abstract capability with a contract that
//! every backend must satisfy.

pub mod auth_service_impl;
pub mod laws;
pub mod memory_repos;
pub mod ports;
