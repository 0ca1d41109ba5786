//! Access control and request authentication for a home-network gateway.
//!
//! `access` decides which parts of the gateway a role may open; `auth` holds
//! the user records, the claims that a session token carries, and the steps
//! that admit or refuse a request on the strength of its `Authorization`
//! header.

pub mod access;
pub mod auth;
