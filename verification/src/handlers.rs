//! Handler definitions and utilities: the connection-authorization framework
//! an application backend plugs its endpoints into.

// The connection model whose role list the handlers assign.
pub mod connection;

// Storage of user identities and role lookups, supplied by the application.
pub mod user_management;

// The reusable "validate credential, assign roles" shapes.
pub mod generic_auth_handler;

// Handlers for connections made by end users to the App.
pub mod user_to_app;

// Handlers for connections made by the identity service to the App.
pub mod auth_to_app;
