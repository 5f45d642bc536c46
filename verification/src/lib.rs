//! Tonsoe is a Discord library for Rust with a focus on bot development.
//!
//! This crate is the shard session manager of the library: how many shards to
//! run, in which order and with which pauses they are opened, the handshake of
//! each shard, its heartbeats, and the encoding and decoding of the gateway's
//! envelopes. The library's own functions are verified. What it calls in
//! `serde_json`, `url`, `rand` and `tokio` stands behind small functions and
//! specifications whose contracts are believed, not proved; they are marked
//! as such where they are declared. Network and timer work is left to the
//! caller, which drives the state machines defined here.
use vstd::prelude::*;

pub mod bot;
pub mod bot_client;
pub mod codec;
pub mod error;
pub mod gateway;
pub mod gateway_structs;
pub mod gateway_url;
pub mod http;
pub mod json;
pub mod text;
pub mod websocket;

verus! {

/// The base api url for Discord http requests.
pub const BASE_API_URL: &'static str = "https://discord.com/api";

/// The version of the Discord api used by the library.
pub const DISCORD_API_VERSION: u32 = 10;

} // verus!
