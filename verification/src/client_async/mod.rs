//! The production JSON-RPC client for Bitcoin Core.
//!
//! The request options of each RPC method live in the version module
//! (`v31`); each encodes into the method's positional parameters.

pub mod auth;
pub mod client;
pub mod error;
pub mod json;
pub mod text;
pub mod v31;

pub use self::auth::{Auth, ResolvedAuth};
pub use self::client::{Builder, ClientConfig, Exchange, CONFIGURED_VERSION};
pub use self::error::{ConfigError, Error, JsonRpcFailure, Retryability, TransportFailure};
