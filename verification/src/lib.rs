//! Verified core of a local-network file sharing tool: group codes,
//! chunking, framing, integrity and the transfer protocol's decisions.

pub mod auth;
pub mod message;
pub mod integrity;
pub mod compression;
pub mod chunker;
pub mod parallel;
pub mod codec;
pub mod receiver;
pub mod sender;
pub mod peer;
pub mod config;
pub mod discovery;
pub mod metadata;
pub mod exchange;
pub mod error;
pub mod state;
pub mod archive;
mod text;
pub mod crypto;
