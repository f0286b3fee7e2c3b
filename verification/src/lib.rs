//! Client-side session layer of the FIX protocol: connection lifecycle,
//! logon handshake, heartbeat keepalive, outbound sequencing, and response
//! dispatch, plus the HMAC request-signing utilities used for REST venues.
//!
//! The session engine is a verified state machine over plain values; the
//! asynchronous transport and timers that drive it live outside this crate
//! and feed every transport event back in as a method call.

#[allow(non_snake_case)]
pub mod HmacSHA256Base64Utils;
pub mod fixapi;
pub mod response;
pub mod types;
