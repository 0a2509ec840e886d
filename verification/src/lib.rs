//! Support for talking to Bitcoin Core over JSON-RPC.
//!
//! The client's logic is verified: how request options encode into Core's
//! positional parameters, how a URL is validated, how credentials are read
//! from a cookie file, and how a failed exchange is classified for retries.
//! Sending requests is left to the caller's transport.

#![allow(unused_imports)]

pub mod client_async;
