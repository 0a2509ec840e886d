//! Errors returned by the client.
//!
//! The error model keeps enough context to drive operational concerns (retry,
//! alerting, debugging) without forcing every caller to string-match on
//! Core's error messages. Every variant carries the JSON-RPC method name when
//! known so that logs and metrics can be cut by method.

use vstd::prelude::*;
use vstd::std_specs::convert::FromSpecImpl;

use crate::client_async::client::CONFIGURED_VERSION;
use crate::client_async::text::{decimal, decimal_string, str_contains, contains, occurs_at, truncate, truncate_spec};

verus! {

/// Classification of an [`Error`] for retry purposes.
///
/// Only errors known to be transient are reported as
/// [`Retryability::Retryable`].
#[derive(Copy, Clone, Debug, PartialEq, Eq, Hash)]
pub enum Retryability {
    /// Retrying the operation is likely safe and may succeed.
    Retryable,
    /// Retrying will not change the outcome (bad input, invariant violation,
    /// decode error, etc.).
    NonRetryable,
}

/// The error type produced by the client.
#[derive(Debug)]
#[non_exhaustive]
#[allow(inconsistent_fields)]
pub enum Error {
    /// The builder was given invalid configuration (bad URL, bad cookie file, etc.).
    Config(ConfigError),
    /// The HTTP transport failed to deliver the request or the response;
    /// the transport's own description of the failure.
    Transport(String),
    /// Authentication was rejected by the remote (HTTP 401 or 403).
    Auth { method: Option<String> },
    /// The server returned a non-200 HTTP status that did not contain a JSON-RPC body.
    Http { method: Option<String>, status_code: i32, body: String },
    /// The server's response was not a valid JSON-RPC 2.0 message; the
    /// decoder's description of the problem.
    MalformedResponse { method: Option<String>, source: String },
    /// The server returned a JSON-RPC application error (Core's RPC error object).
    Rpc { method: Option<String>, code: i32, message: String },
    /// The configured Core version does not support the requested method.
    ///
    /// Surfaced when a Core RPC error says the method is unknown (-32601), so
    /// callers can tell "wrong server" from "wrong call".
    VersionMismatch { method: String, configured_version: String },
    /// Encoding the request or decoding the server's `result` failed; the
    /// codec's description of the problem.
    Decode { method: String, source: String },
}

/// Detail for [`Error::Config`].
#[derive(Debug)]
#[non_exhaustive]
pub enum ConfigError {
    /// The configured URL was missing, empty, or did not have an HTTP/HTTPS scheme.
    InvalidUrl(String),
    /// A cookie file was specified but could not be read; the reason it could not.
    CookieFileIo { path: String, source: String },
    /// A cookie file was read but did not contain a `user:pass` line.
    CookieFileMalformed { path: String },
    /// `Auth::NoAuth` was passed where credentials are required.
    MissingCredentials,
    /// The configured timeout was zero (would otherwise deadlock the request).
    ZeroTimeout,
}

/// The view of an optional method name.
pub open spec fn opt_view(o: Option<String>) -> Option<Seq<char>> {
    match o {
        Some(s) => Some(s@),
        None => None,
    }
}

/// Core's `RPC_IN_WARMUP`: the node is still starting up.
pub open spec fn rpc_in_warmup() -> i32 {
    -28i32
}

/// Core's `RPC_INVALID_ADDRESS_OR_KEY`.
pub open spec fn rpc_invalid_address_or_key() -> i32 {
    -5i32
}

/// JSON-RPC's "method not found".
pub open spec fn rpc_method_not_found() -> i32 {
    -32601i32
}

/// A name for what `str::to_lowercase` returns for a string with the given characters.
pub uninterp spec fn lowercase(s: Seq<char>) -> Seq<char>;

/// `str::to_lowercase`.
#[verifier::external_body]
fn to_lowercase(s: &str) -> (r: String)
    ensures
        r@ == lowercase(s@),
{
    s.to_lowercase()
}

/// A lower-cased RPC error message that speaks of a transaction: it
/// mentions "transaction" or "txid".
pub open spec fn mentions_missing_tx(lower: Seq<char>) -> bool {
    contains(lower, "transaction"@) || contains(lower, "txid"@)
}

/// A lower-cased RPC error message that speaks of a missing block: Core's
/// "block not found" or "block height out of range".
pub open spec fn mentions_missing_block(lower: Seq<char>) -> bool {
    contains(lower, "block not found"@) || contains(lower, "block height out of range"@)
}

/// Whether a lower-cased `-5` RPC error message reports a missing
/// transaction.
pub fn names_missing_tx(lower: &str) -> (r: bool)
    ensures
        r == mentions_missing_tx(lower@),
{
    str_contains(lower, "transaction") || str_contains(lower, "txid")
}

/// Whether a lower-cased `-5` RPC error message reports a missing block.
pub fn names_missing_block(lower: &str) -> (r: bool)
    ensures
        r == mentions_missing_block(lower@),
{
    str_contains(lower, "block not found") || str_contains(lower, "block height out of range")
}

/// Whether the HTTP status asks to try again later (429) or is a server error (5xx).
pub open spec fn is_retryable_status(status_code: i32) -> bool {
    status_code == 429 || (500 <= status_code < 600)
}

impl Error {
    /// The JSON-RPC method that produced this error, if known.
    pub open spec fn method_of(self) -> Option<Seq<char>> {
        match self {
            Error::Config(_) | Error::Transport(_) => None,
            Error::Auth { method } => opt_view(method),
            Error::Http { method, .. } => opt_view(method),
            Error::MalformedResponse { method, .. } => opt_view(method),
            Error::Rpc { method, .. } => opt_view(method),
            Error::VersionMismatch { method, .. } => Some(method@),
            Error::Decode { method, .. } => Some(method@),
        }
    }

    /// How this error classifies for retry decisions.
    pub open spec fn retryability_of(self) -> Retryability {
        match self {
            Error::Transport(_) => Retryability::Retryable,
            Error::Http { status_code, .. } => if is_retryable_status(status_code) {
                Retryability::Retryable
            } else {
                Retryability::NonRetryable
            },
            Error::Rpc { code, .. } => if code == rpc_in_warmup() {
                Retryability::Retryable
            } else {
                Retryability::NonRetryable
            },
            _ => Retryability::NonRetryable,
        }
    }

    /// The error reports a missing transaction.
    pub open spec fn tx_not_found(self) -> bool {
        match self {
            Error::Rpc { code, message, .. } => code == rpc_invalid_address_or_key()
                && mentions_missing_tx(lowercase(message@)),
            _ => false,
        }
    }

    /// The error reports a missing block.
    pub open spec fn block_not_found(self) -> bool {
        match self {
            Error::Rpc { code, message, .. } => code == rpc_invalid_address_or_key()
                && mentions_missing_block(lowercase(message@)),
            _ => false,
        }
    }

    /// The error reports a missing or invalid input.
    pub open spec fn missing_or_invalid_input(self) -> bool {
        match self {
            Error::Rpc { code, .. } => code == -8 || code == -22 || code == -25,
            _ => false,
        }
    }

    /// The text this error displays as.
    pub open spec fn message(self) -> Seq<char> {
        match self {
            Error::Config(e) => "configuration error: "@ + e.message(),
            Error::Transport(d) => "transport error: "@ + d@,
            Error::Auth { method } => match method {
                Some(m) => "authentication failed for method `"@ + m@ + "`"@,
                None => "authentication failed"@,
            },
            Error::Http { method, status_code, body } => match method {
                Some(m) => "HTTP "@ + decimal(status_code as int) + " for method `"@ + m@ + "`: "@
                    + truncate_spec(body@, 256),
                None => "HTTP "@ + decimal(status_code as int) + ": "@ + truncate_spec(body@, 256),
            },
            Error::MalformedResponse { method, source } => match method {
                Some(m) => "malformed JSON-RPC response for `"@ + m@ + "`: "@ + source@,
                None => "malformed JSON-RPC response: "@ + source@,
            },
            Error::Rpc { method, code, message } => match method {
                Some(m) => "RPC error "@ + decimal(code as int) + " for `"@ + m@ + "`: "@ + message@,
                None => "RPC error "@ + decimal(code as int) + ": "@ + message@,
            },
            Error::VersionMismatch { method, configured_version } => "method `"@ + method@
                + "` is not supported by configured Core version "@ + configured_version@,
            Error::Decode { method, source } => "failed to decode response for `"@ + method@
                + "`: "@ + source@,
        }
    }

    /// Returns the JSON-RPC method that produced this error, if known.
    pub fn method(&self) -> (r: Option<&str>)
        ensures
            match r {
                Some(m) => self.method_of() == Some(m@),
                None => self.method_of() is None,
            },
    {
        match self {
            Error::Config(_) | Error::Transport(_) => None,
            Error::Auth { method }
            | Error::Http { method, .. }
            | Error::MalformedResponse { method, .. }
            | Error::Rpc { method, .. } => match method {
                Some(m) => Some(m.as_str()),
                None => None,
            },
            Error::VersionMismatch { method, .. } | Error::Decode { method, .. } => Some(
                method.as_str(),
            ),
        }
    }

    /// Classifies this error for retry decisions.
    ///
    /// Only obviously transient failures are [`Retryability::Retryable`]:
    /// transport failures, HTTP 429 and 5xx, and Core's `-28`
    /// ("loading wallet" / "verifying blocks") RPC error. Everything else
    /// is non-retryable.
    pub fn retryability(&self) -> (r: Retryability)
        ensures
            r == self.retryability_of(),
    {
        match self {
            Error::Transport(_) => Retryability::Retryable,
            Error::Http { status_code, .. } => {
                if *status_code == 429 || (*status_code >= 500 && *status_code < 600) {
                    Retryability::Retryable
                } else {
                    Retryability::NonRetryable
                }
            },
            Error::Rpc { code, .. } => {
                if *code == -28 {
                    Retryability::Retryable
                } else {
                    Retryability::NonRetryable
                }
            },
            Error::Config(_)
            | Error::Auth { .. }
            | Error::MalformedResponse { .. }
            | Error::VersionMismatch { .. }
            | Error::Decode { .. } => Retryability::NonRetryable,
        }
    }

    /// Returns `true` if this error indicates a missing transaction.
    ///
    /// Maps Core's `-5` (`RPC_INVALID_ADDRESS_OR_KEY`) raised by
    /// `getrawtransaction` / `gettransaction` whose lower-cased message
    /// mentions "transaction" or "txid".
    pub fn is_tx_not_found(&self) -> (r: bool)
        ensures
            r == self.tx_not_found(),
    {
        match self {
            Error::Rpc { code, message, .. } => {
                if *code != -5 {
                    return false;
                }
                let lower = to_lowercase(message.as_str());
                names_missing_tx(lower.as_str())
            },
            _ => false,
        }
    }

    /// Returns `true` if this error indicates a missing block.
    ///
    /// Maps Core's `-5` for `getblock` / `getblockheader`. Recognises Core's
    /// "Block not found" message by the exact phrase, so that messages such
    /// as "No such mempool or blockchain transaction" do not collide.
    pub fn is_block_not_found(&self) -> (r: bool)
        ensures
            r == self.block_not_found(),
    {
        match self {
            Error::Rpc { code, message, .. } => {
                if *code != -5 {
                    return false;
                }
                let lower = to_lowercase(message.as_str());
                names_missing_block(lower.as_str())
            },
            _ => false,
        }
    }

    /// Returns `true` if this error indicates a missing or invalid input.
    ///
    /// Covers Core's `-8` (`RPC_INVALID_PARAMETER`), `-22`
    /// (`RPC_DESERIALIZATION_ERROR`), and `-25` (`RPC_VERIFY_ERROR`).
    pub fn is_missing_or_invalid_input(&self) -> (r: bool)
        ensures
            r == self.missing_or_invalid_input(),
    {
        match self {
            Error::Rpc { code, .. } => *code == -8 || *code == -22 || *code == -25,
            _ => false,
        }
    }

    /// The text this error displays as.
    pub fn to_string(&self) -> (r: String)
        ensures
            r@ == self.message(),
    {
        match self {
            Error::Config(e) => {
                let mut r = "configuration error: ".to_owned();
                let inner = e.to_string();
                r.append(inner.as_str());
                r
            },
            Error::Transport(d) => {
                let mut r = "transport error: ".to_owned();
                r.append(d.as_str());
                r
            },
            Error::Auth { method } => match method {
                Some(m) => {
                    let mut r = "authentication failed for method `".to_owned();
                    r.append(m.as_str());
                    r.append("`");
                    r
                },
                None => "authentication failed".to_owned(),
            },
            Error::Http { method, status_code, body } => {
                let mut r = "HTTP ".to_owned();
                let code = decimal_string(*status_code);
                r.append(code.as_str());
                match method {
                    Some(m) => {
                        r.append(" for method `");
                        r.append(m.as_str());
                        r.append("`: ");
                    },
                    None => {
                        r.append(": ");
                    },
                }
                r.append(truncate(body.as_str(), 256));
                r
            },
            Error::MalformedResponse { method, source } => {
                let mut r = match method {
                    Some(m) => {
                        let mut r = "malformed JSON-RPC response for `".to_owned();
                        r.append(m.as_str());
                        r.append("`: ");
                        r
                    },
                    None => "malformed JSON-RPC response: ".to_owned(),
                };
                r.append(source.as_str());
                r
            },
            Error::Rpc { method, code, message } => {
                let mut r = "RPC error ".to_owned();
                let c = decimal_string(*code);
                r.append(c.as_str());
                match method {
                    Some(m) => {
                        r.append(" for `");
                        r.append(m.as_str());
                        r.append("`: ");
                    },
                    None => {
                        r.append(": ");
                    },
                }
                r.append(message.as_str());
                r
            },
            Error::VersionMismatch { method, configured_version } => {
                let mut r = "method `".to_owned();
                r.append(method.as_str());
                r.append("` is not supported by configured Core version ");
                r.append(configured_version.as_str());
                r
            },
            Error::Decode { method, source } => {
                let mut r = "failed to decode response for `".to_owned();
                r.append(method.as_str());
                r.append("`: ");
                r.append(source.as_str());
                r
            },
        }
    }
}

impl ConfigError {
    /// The text this configuration error displays as.
    pub open spec fn message(self) -> Seq<char> {
        match self {
            ConfigError::InvalidUrl(s) => "invalid URL: `"@ + s@ + "`"@,
            ConfigError::CookieFileIo { path, source } => "could not read cookie file `"@ + path@
                + "`: "@ + source@,
            ConfigError::CookieFileMalformed { path } => "cookie file `"@ + path@
                + "` is malformed (expected `user:pass`)"@,
            ConfigError::MissingCredentials => "no credentials provided (use cookie or user/pass)"@,
            ConfigError::ZeroTimeout => "timeout must be greater than zero"@,
        }
    }

    /// The text this configuration error displays as.
    pub fn to_string(&self) -> (r: String)
        ensures
            r@ == self.message(),
    {
        match self {
            ConfigError::InvalidUrl(s) => {
                let mut r = "invalid URL: `".to_owned();
                r.append(s.as_str());
                r.append("`");
                r
            },
            ConfigError::CookieFileIo { path, source } => {
                let mut r = "could not read cookie file `".to_owned();
                r.append(path.as_str());
                r.append("`: ");
                r.append(source.as_str());
                r
            },
            ConfigError::CookieFileMalformed { path } => {
                let mut r = "cookie file `".to_owned();
                r.append(path.as_str());
                r.append("` is malformed (expected `user:pass`)");
                r
            },
            ConfigError::MissingCredentials => "no credentials provided (use cookie or user/pass)".to_owned(),
            ConfigError::ZeroTimeout => "timeout must be greater than zero".to_owned(),
        }
    }
}

impl From<ConfigError> for Error {
    fn from(e: ConfigError) -> (r: Self) {
        Error::Config(e)
    }
}

impl FromSpecImpl<ConfigError> for Error {
    open spec fn obeys_from_spec() -> bool {
        true
    }

    open spec fn from_spec(e: ConfigError) -> Self {
        Error::Config(e)
    }
}

/// A transport failure, as the client reads it.
#[derive(Debug)]
pub enum TransportFailure {
    /// The HTTP transport got a non-200 status without a JSON-RPC body.
    Http { status_code: i32, body: String },
    /// Any other transport failure; its description.
    Other(String),
}

/// A failed JSON-RPC exchange, as the client reads it.
#[derive(Debug)]
pub enum JsonRpcFailure {
    /// The response was not valid JSON-RPC; the decoder's description.
    Json(String),
    /// The server answered with an RPC error object.
    Rpc { code: i32, message: String },
    /// The transport failed.
    Transport(TransportFailure),
    /// The response's nonce, or its `jsonrpc` version field, did not match.
    ProtocolMismatch,
    /// Any other failure (batch bookkeeping); its description.
    Other(String),
}

/// The text a nonce or version mismatch is reported with.
pub open spec fn protocol_mismatch_text() -> Seq<char> {
    "JSON-RPC nonce or version mismatch in response"@
}

/// `e` is the error a transport failure `t` of a call of `method` maps to:
/// HTTP 401 and 403 are authentication failures, other HTTP statuses keep
/// their status and body, anything else stays a transport error.
pub open spec fn map_transport_rel(method: Seq<char>, t: TransportFailure, e: Error) -> bool {
    match t {
        TransportFailure::Http { status_code, body } => if status_code == 401 || status_code
            == 403 {
            e matches Error::Auth { method: Some(m) } && m@ == method
        } else {
            e matches Error::Http { method: Some(m), status_code: s, body: b } && m@ == method && s
                == status_code && b == body
        },
        TransportFailure::Other(d) => e == Error::Transport(d),
    }
}

/// `e` is the error a failure `f` of a call of `method` maps to.
pub open spec fn from_jsonrpc_rel(method: Seq<char>, f: JsonRpcFailure, e: Error) -> bool {
    match f {
        JsonRpcFailure::Json(source) => e matches Error::MalformedResponse {
            method: Some(m),
            source: s,
        } && m@ == method && s == source,
        JsonRpcFailure::Rpc { code, message } => if code == rpc_method_not_found() {
            e matches Error::VersionMismatch { method: m, configured_version: v } && m@ == method
                && v@ == CONFIGURED_VERSION@
        } else {
            e matches Error::Rpc { method: Some(m), code: c, message: msg } && m@ == method && c
                == code && msg == message
        },
        JsonRpcFailure::Transport(t) => map_transport_rel(method, t, e),
        JsonRpcFailure::ProtocolMismatch => e matches Error::Transport(d) && d@
            == protocol_mismatch_text(),
        JsonRpcFailure::Other(d) => e == Error::Transport(d),
    }
}

/// Lifts HTTP-level failures of the transport up to [`Error::Auth`] and
/// [`Error::Http`]; other transport failures stay [`Error::Transport`].
pub fn map_transport_error(method: &str, err: TransportFailure) -> (r: Error)
    ensures
        map_transport_rel(method@, err, r),
{
    match err {
        TransportFailure::Http { status_code, body } => {
            if status_code == 401 || status_code == 403 {
                Error::Auth { method: Some(method.to_owned()) }
            } else {
                Error::Http { method: Some(method.to_owned()), status_code, body }
            }
        },
        TransportFailure::Other(d) => Error::Transport(d),
    }
}

/// Maps a failed JSON-RPC exchange into [`Error`], decorated with the
/// `method` that was called.
///
/// A server that does not know the method (-32601) is not the Core version
/// the bindings were generated for, so that becomes [`Error::VersionMismatch`].
pub fn from_jsonrpc(method: &str, err: JsonRpcFailure) -> (r: Error)
    ensures
        from_jsonrpc_rel(method@, err, r),
{
    match err {
        JsonRpcFailure::Json(source) => Error::MalformedResponse {
            method: Some(method.to_owned()),
            source,
        },
        JsonRpcFailure::Rpc { code, message } => {
            if code == -32601 {
                Error::VersionMismatch {
                    method: method.to_owned(),
                    configured_version: CONFIGURED_VERSION.to_owned(),
                }
            } else {
                Error::Rpc { method: Some(method.to_owned()), code, message }
            }
        },
        JsonRpcFailure::Transport(t) => map_transport_error(method, t),
        JsonRpcFailure::ProtocolMismatch => Error::Transport(
            "JSON-RPC nonce or version mismatch in response".to_owned(),
        ),
        JsonRpcFailure::Other(d) => Error::Transport(d),
    }
}

/// How a failed exchange classifies for retry, whatever method was called.
pub open spec fn failure_retryability(f: JsonRpcFailure) -> Retryability {
    match f {
        JsonRpcFailure::Json(_) => Retryability::NonRetryable,
        JsonRpcFailure::Rpc { code, .. } => if code == rpc_in_warmup() {
            Retryability::Retryable
        } else {
            Retryability::NonRetryable
        },
        JsonRpcFailure::Transport(TransportFailure::Http { status_code, .. }) => if status_code
            != 401 && status_code != 403 && is_retryable_status(status_code) {
            Retryability::Retryable
        } else {
            Retryability::NonRetryable
        },
        JsonRpcFailure::Transport(TransportFailure::Other(_)) => Retryability::Retryable,
        JsonRpcFailure::ProtocolMismatch => Retryability::Retryable,
        JsonRpcFailure::Other(_) => Retryability::Retryable,
    }
}

/// Every error a failed call maps to names the method that was called,
/// except a bare transport error, which has no method.
pub proof fn lemma_failure_keeps_method(method: Seq<char>, f: JsonRpcFailure, e: Error)
    requires
        from_jsonrpc_rel(method, f, e),
    ensures
        e is Transport || e.method_of() == Some(method),
{
}

/// The retry classification of a failed call depends on the failure alone:
/// node warm-up (-28), HTTP 429 and 5xx, and transport-level failures are
/// retryable; everything else, rejected credentials included, is not.
pub proof fn lemma_failure_retryability(method: Seq<char>, f: JsonRpcFailure, e: Error)
    requires
        from_jsonrpc_rel(method, f, e),
    ensures
        e.retryability_of() == failure_retryability(f),
{
}

/// A method the server does not know (-32601) is reported as a version
/// mismatch naming the configured Core version, and is not retried.
pub proof fn lemma_unknown_method_is_version_mismatch(
    method: Seq<char>,
    code: i32,
    message: String,
    e: Error,
)
    requires
        code == rpc_method_not_found(),
        from_jsonrpc_rel(method, JsonRpcFailure::Rpc { code, message }, e),
    ensures
        e matches Error::VersionMismatch { method: m, configured_version: v } && m@ == method && v@
            == CONFIGURED_VERSION@,
        e.retryability_of() == Retryability::NonRetryable,
{
}

/// Errors that report missing data or bad input are never worth retrying.
pub proof fn lemma_not_found_is_final(e: Error)
    requires
        e.tx_not_found() || e.block_not_found() || e.missing_or_invalid_input(),
    ensures
        e.retryability_of() == Retryability::NonRetryable,
{
}

/// A configuration error carries no method, and is never retried.
pub proof fn lemma_config_error_is_final(c: ConfigError)
    ensures
        Error::Config(c).method_of() is None,
        Error::Config(c).retryability_of() == Retryability::NonRetryable,
{
}

/// An HTTP failure of the transport is rejected credentials only for status
/// 401 or 403. Any other status, 404 or 500 alike, stays an HTTP error that
/// carries that same status code and body. Either way the error names the
/// method that was called.
pub proof fn lemma_http_failure_is_auth_only_for_401_and_403(
    method: Seq<char>,
    status_code: i32,
    body: String,
    e: Error,
)
    requires
        map_transport_rel(method, TransportFailure::Http { status_code, body }, e),
    ensures
        e is Auth <==> (status_code == 401 || status_code == 403),
        !(status_code == 401 || status_code == 403) ==> (e matches Error::Http {
            method: Some(m),
            status_code: s,
            body: b,
        } && m@ == method && s == status_code && b == body),
        e.method_of() == Some(method),
{
}

/// How each kind of failed exchange is reported for a call of `method`:
/// an undecodable response is a malformed response carrying the decoder's
/// text; an RPC error keeps its code and message, except that an unknown
/// method (-32601) is a version mismatch naming the configured version;
/// a transport failure other than an HTTP status keeps its description;
/// an HTTP 401 or 403 is rejected credentials and any other status an HTTP
/// error with that status and body.
pub proof fn lemma_failure_classification(method: Seq<char>, f: JsonRpcFailure, e: Error)
    requires
        from_jsonrpc_rel(method, f, e),
    ensures
        f matches JsonRpcFailure::Json(src) ==> (e matches Error::MalformedResponse {
            method: Some(m),
            source: s,
        } && m@ == method && s == src),
        f matches JsonRpcFailure::Rpc { code, message } ==> (if code == -32601 {
            e matches Error::VersionMismatch { method: m, configured_version: v } && m@ == method
                && v@ == CONFIGURED_VERSION@
        } else {
            e matches Error::Rpc { method: Some(m), code: c, message: msg } && m@ == method && c
                == code && msg == message
        }),
        f matches JsonRpcFailure::Transport(TransportFailure::Other(d)) ==> e == Error::Transport(d),
        f matches JsonRpcFailure::Transport(TransportFailure::Http { status_code, body }) ==> (if status_code
            == 401 || status_code == 403 {
            e matches Error::Auth { method: Some(m) } && m@ == method
        } else {
            e matches Error::Http { method: Some(m), status_code: s, body: b } && m@ == method && s
                == status_code && b == body
        }),
        f matches JsonRpcFailure::Other(d) ==> e == Error::Transport(d),
        f is ProtocolMismatch ==> e is Transport,
{
}

/// `needle` is contained in `hay` exactly when some stretch of `hay` equals it.
proof fn lemma_contains_as_stretch(hay: Seq<char>, needle: Seq<char>)
    ensures
        contains(hay, needle) <==> (exists|i: int| 0 <= i && i + needle.len() <= hay.len()
            && #[trigger] hay.subrange(i, i + needle.len()) == needle),
{
    if contains(hay, needle) {
        let i = choose|i: int| occurs_at(hay, needle, i);
        assert(hay.subrange(i, i + needle.len()) == needle);
    }
    if exists|i: int| 0 <= i && i + needle.len() <= hay.len()
        && #[trigger] hay.subrange(i, i + needle.len()) == needle {
        let i = choose|i: int| 0 <= i && i + needle.len() <= hay.len()
            && #[trigger] hay.subrange(i, i + needle.len()) == needle;
        assert(occurs_at(hay, needle, i));
    }
}

/// A lower-cased message names a missing transaction exactly when the word
/// "transaction" or "txid" occurs somewhere in it.
pub proof fn lemma_missing_tx_words(lower: Seq<char>)
    ensures
        mentions_missing_tx(lower) <==> (
        (exists|i: int| 0 <= i && i + "transaction"@.len() <= lower.len()
            && #[trigger] lower.subrange(i, i + "transaction"@.len()) == "transaction"@)
        || (exists|i: int| 0 <= i && i + "txid"@.len() <= lower.len()
            && #[trigger] lower.subrange(i, i + "txid"@.len()) == "txid"@)),
{
    lemma_contains_as_stretch(lower, "transaction"@);
    lemma_contains_as_stretch(lower, "txid"@);
}

/// A lower-cased message names a missing block exactly when the phrase
/// "block not found" or "block height out of range" occurs somewhere in it.
pub proof fn lemma_missing_block_words(lower: Seq<char>)
    ensures
        mentions_missing_block(lower) <==> (
        (exists|i: int| 0 <= i && i + "block not found"@.len() <= lower.len()
            && #[trigger] lower.subrange(i, i + "block not found"@.len()) == "block not found"@)
        || (exists|i: int| 0 <= i && i + "block height out of range"@.len() <= lower.len()
            && #[trigger] lower.subrange(i, i + "block height out of range"@.len())
            == "block height out of range"@)),
{
    lemma_contains_as_stretch(lower, "block not found"@);
    lemma_contains_as_stretch(lower, "block height out of range"@);
}

/// A `-5` RPC error reports a missing transaction exactly when its
/// lower-cased message contains "transaction" or "txid", and a missing block
/// exactly when it contains "block not found" or "block height out of
/// range". No other error reports either.
pub proof fn lemma_not_found_inspectors(e: Error)
    ensures
        e.tx_not_found() <==> (e matches Error::Rpc { code, message, .. } && code == -5 && (
        contains(lowercase(message@), "transaction"@) || contains(lowercase(message@), "txid"@))),
        e.block_not_found() <==> (e matches Error::Rpc { code, message, .. } && code == -5 && (
        contains(lowercase(message@), "block not found"@) || contains(
            lowercase(message@),
            "block height out of range"@,
        ))),
{
}

/// Which errors are worth retrying: transport failures, HTTP 429 and every
/// HTTP 5xx status, and Core's warm-up RPC error (-28). Nothing else is.
pub proof fn lemma_retryability_rule(e: Error)
    ensures
        e.retryability_of() == Retryability::Retryable <==> {
            ||| e is Transport
            ||| (e matches Error::Http { status_code, .. } && (status_code == 429 || (500
                <= status_code <= 599)))
            ||| (e matches Error::Rpc { code, .. } && code == -28)
        },
{
}

/// Missing or invalid input is reported for exactly Core's `-8`
/// (invalid parameter), `-22` (deserialization error) and `-25` (verify
/// error) RPC errors.
pub proof fn lemma_invalid_input_codes(e: Error)
    ensures
        e.missing_or_invalid_input() <==> (e matches Error::Rpc { code, .. } && (code == -8 || code
            == -22 || code == -25)),
{
}

} // verus!
