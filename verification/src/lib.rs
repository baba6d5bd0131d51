//! Verified core of a community master server for a multiplayer game.
//!
//! Game-server hosts register their endpoints in a directory, game clients
//! discover servers and obtain short-lived session tokens bound to a platform
//! account, and game servers submit binary per-player progression blobs that
//! the master stores on the players' behalf.
//!
//! This crate holds the verified logic: the identifier type, the binary
//! progression-blob codec, the server registry with its index invariants, the
//! account store model, the authentication flows, and the client-version gate.
//! Network transport, persistence plumbing and routing are left to the
//! embedding application.

pub mod account;
pub mod broker;
pub mod codec;
pub mod de;
pub mod envelope;
pub mod enc;
pub mod id;
pub mod pdata;
pub mod players;
pub mod probe;
pub mod registry;

pub mod schema;
pub mod strutil;
pub mod version;
