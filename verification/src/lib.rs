//! Client-side integration layer for delegating user authentication to the
//! `honey.id` identity service over a WebSocket connection, together with the
//! connection-authorization framework an application backend uses to grant
//! roles to inbound connections.
//!
//! The crate's verified core covers the credential store with its uniqueness
//! invariants, the RPC frame text in both directions, the handshake state
//! machine, and the role-assignment decisions; an embedding application
//! supplies the WebSocket transport and drives the loops.

pub mod client;
pub mod endpoints;
pub mod enums;
pub mod envelope;
pub mod error;
pub mod handlers;
pub mod handshake;
pub mod ids;
pub mod json;
pub mod store;

pub use client::ApiKeyError;
pub use client::HoneyIdClient;
pub use client::HoneyIdConfig;
pub use ids as id_entities;
