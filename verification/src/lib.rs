//! Verified core of an on-demand supervisor for a game-server child process.
//!
//! The library contains the logic that decides what the supervisor does:
//! the UDP query-protocol packets and their parsers, the proxy lifecycle
//! state machine with its anti-spam guard, command-string building for the
//! TCP command protocol, environment-variable parsing, credential and token
//! checks, and the filesystem planning done around the child's lifetime.
//! The I/O that carries these decisions out (sockets, files, the HTTP
//! surface) lives outside the library.

pub mod auth;
pub mod env;
pub mod error;
pub mod models;
pub mod online_poller;
pub mod proxy_service;
pub mod rcon;
pub mod supervisor;
pub mod text;
