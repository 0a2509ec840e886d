//! Client configuration: the [`Builder`], URL validation, and how the outcome
//! of a JSON-RPC exchange becomes a result.
//!
//! The transport itself (HTTP, the async runtime) lives with the caller;
//! this module decides everything about a request that does not need it.

use vstd::prelude::*;

use crate::client_async::auth::{resolve_spec, resolved_pair, Auth, ResolvedAuth};
use crate::client_async::error::{ConfigError, Error, JsonRpcFailure, from_jsonrpc, from_jsonrpc_rel};
use crate::client_async::text::{
    ascii_lower_char, ascii_lowercase, ascii_upper_char, ascii_uppercase, chars_of,
    lemma_ascii_case_chars, lemma_starts_with_ascii_lower_map, lemma_trim_idempotent,
    lemma_trim_map, is_whitespace, ascii_lower_code, starts_with_ascii_lower, starts_with_lower_at, trim, trim_bounds,
};

verus! {

/// The Bitcoin Core version this client's method surface was generated for.
pub const CONFIGURED_VERSION: &'static str = "31_0";

/// The Bitcoin Core version this client's method surface was generated for.
pub fn configured_version() -> (r: &'static str)
    ensures
        r@ == CONFIGURED_VERSION@,
{
    CONFIGURED_VERSION
}

/// `http://`
pub open spec fn http_prefix() -> Seq<char> {
    seq!['h', 't', 't', 'p', ':', '/', '/']
}

/// `https://`
pub open spec fn https_prefix() -> Seq<char> {
    seq!['h', 't', 't', 'p', 's', ':', '/', '/']
}

/// A URL the client accepts: once trimmed of surrounding whitespace, it
/// starts with `http://` or `https://` (in any ASCII case) and has something
/// after the scheme.
pub open spec fn valid_http_url(s: Seq<char>) -> bool {
    let t = trim(s);
    ||| starts_with_ascii_lower(t, http_prefix()) && t.len() > http_prefix().len()
    ||| starts_with_ascii_lower(t, https_prefix()) && t.len() > https_prefix().len()
}

/// Minimal URL validator: scheme present, scheme is http or https, and there
/// is something after it. Malformed hosts are left for the transport to reject.
pub fn is_valid_http_url(s: &str) -> (r: bool)
    ensures
        r == valid_http_url(s@),
{
    let v = chars_of(s);
    let (start, end) = trim_bounds(&v);
    let t = crate::client_async::text::string_from_chars(&v, start, end);
    let tv = chars_of(t.as_str());
    assert(tv@ == trim(s@));
    let http: Vec<char> = vec!['h', 't', 't', 'p', ':', '/', '/'];
    let https: Vec<char> = vec!['h', 't', 't', 'p', 's', ':', '/', '/'];
    assert(http@ =~= http_prefix());
    assert(https@ =~= https_prefix());
    assert(tv@.subrange(0, tv@.len() as int) =~= tv@);
    if starts_with_lower_at(&tv, 0, &http) {
        return tv.len() > 7;
    }
    if starts_with_lower_at(&tv, 0, &https) {
        return tv.len() > 8;
    }
    false
}

/// A name for what `Duration::as_secs` returns for `d`: its whole seconds.
pub uninterp spec fn duration_secs_of(d: std::time::Duration) -> u64;

/// A name for what `Duration::subsec_nanos` returns for `d`: the nanoseconds
/// of its fractional second.
pub uninterp spec fn duration_nanos_of(d: std::time::Duration) -> u32;

/// `duration.as_secs()`: the whole seconds of the duration.
#[verifier::external_body]
fn duration_secs(duration: &std::time::Duration) -> (r: u64)
    ensures
        r == duration_secs_of(*duration),
{
    duration.as_secs()
}

/// `duration.subsec_nanos()`: the fractional part of the duration, in
/// nanoseconds. std documents it as always under one billion.
#[verifier::external_body]
fn duration_subsec_nanos(duration: &std::time::Duration) -> (r: u32)
    ensures
        r == duration_nanos_of(*duration),
        r < 1_000_000_000,
{
    duration.subsec_nanos()
}

/// `Duration`'s `Clone`: `Duration` is `Copy`, so a clone is the same value.
pub assume_specification[ <std::time::Duration as Clone>::clone ](d: &std::time::Duration) -> (r: std::time::Duration)
    ensures
        r == *d,
;

/// `Duration::from_secs(secs)`: a duration of `secs` whole seconds and no
/// fractional part.
#[verifier::external_body]
fn duration_from_secs(secs: u64) -> (r: std::time::Duration)
    ensures
        duration_secs_of(r) == secs,
        duration_nanos_of(r) == 0,
{
    std::time::Duration::from_secs(secs)
}

/// Builder for a client.
///
/// All validation happens at [`Builder::build`], except that [`Builder::url`]
/// rejects a bad URL right away so the caller can localise the error next to
/// the bad argument.
#[derive(Clone, Debug)]
pub struct Builder {
    url: String,
    auth: Auth,
    timeout: std::time::Duration,
}

/// A validated client configuration, ready to be handed to a transport.
#[derive(Clone, Debug)]
pub struct ClientConfig {
    /// The JSON-RPC endpoint.
    pub url: String,
    /// The request timeout.
    pub timeout: std::time::Duration,
    /// The credentials to send, if any.
    pub auth: Option<ResolvedAuth>,
}

impl Builder {
    /// The configured endpoint.
    pub closed spec fn url_spec(self) -> String {
        self.url
    }

    /// The configured authentication strategy.
    pub closed spec fn auth_spec(self) -> Auth {
        self.auth
    }

    /// The configured timeout.
    pub closed spec fn timeout_duration(self) -> std::time::Duration {
        self.timeout
    }

    /// The configured timeout, as `(seconds, sub-second nanoseconds)`.
    pub open spec fn timeout_spec(self) -> (u64, u32) {
        (duration_secs_of(self.timeout_duration()), duration_nanos_of(self.timeout_duration()))
    }

    /// The configured timeout spans no time.
    pub open spec fn timeout_is_zero(self) -> bool {
        self.timeout_spec().0 == 0 && self.timeout_spec().1 == 0
    }

    /// The configuration error in the settings themselves, if any: the
    /// timeout is checked first, then the URL.
    pub open spec fn settings_error(self) -> Option<ConfigError> {
        if self.timeout_is_zero() {
            Some(ConfigError::ZeroTimeout)
        } else if !valid_http_url(self.url_spec()@) {
            Some(ConfigError::InvalidUrl(self.url_spec()))
        } else {
            None
        }
    }

    /// The configuration error `build` reports, if any, the cookie file's
    /// read outcome being `cookie`. The timeout is checked first, then the
    /// URL, then the credentials.
    pub open spec fn build_error(self, cookie: Result<String, String>) -> Option<ConfigError> {
        match self.settings_error() {
            Some(c) => Some(c),
            None => match resolve_spec(self.auth_spec(), cookie) {
                Err(c) => Some(c),
                Ok(_) => None,
            },
        }
    }

    /// Returns a new builder with default settings (`http://127.0.0.1:8332`,
    /// no auth, 30 s timeout).
    pub fn new() -> (r: Self)
        ensures
            r.url_spec()@ == "http://127.0.0.1:8332"@,
            r.auth_spec() == Auth::NoAuth,
            r.timeout_spec() == (30u64, 0u32),
    {
        Builder {
            url: "http://127.0.0.1:8332".to_owned(),
            auth: Auth::NoAuth,
            timeout: duration_from_secs(30),
        }
    }

    /// Sets the URL of the JSON-RPC endpoint.
    ///
    /// Validates that the URL uses an HTTP scheme, so typos surface before
    /// they manifest as cryptic transport errors.
    pub fn url(self, url: &str) -> (r: Result<Self, Error>)
        ensures
            r is Ok <==> valid_http_url(url@),
            r is Ok ==> {
                &&& r->Ok_0.url_spec()@ == url@
                &&& r->Ok_0.auth_spec() == self.auth_spec()
                &&& r->Ok_0.timeout_spec() == self.timeout_spec()
            },
            r is Err ==> (r->Err_0 matches Error::Config(ConfigError::InvalidUrl(s)) && s@ == url@),
    {
        if !is_valid_http_url(url) {
            return Err(Error::Config(ConfigError::InvalidUrl(url.to_owned())));
        }
        Ok(Builder { url: url.to_owned(), ..self })
    }

    /// Sets the authentication strategy.
    pub fn auth(self, auth: Auth) -> (r: Self)
        ensures
            r.url_spec() == self.url_spec(),
            r.auth_spec() == auth,
            r.timeout_spec() == self.timeout_spec(),
    {
        Builder { auth, ..self }
    }

    /// Convenience wrapper for `auth(Auth::CookieFile(path))`.
    pub fn cookie_file(self, path: &str) -> (r: Self)
        ensures
            r.url_spec() == self.url_spec(),
            r.auth_spec() matches Auth::CookieFile(p) && p@ == path@,
            r.timeout_spec() == self.timeout_spec(),
    {
        self.auth(Auth::CookieFile(path.to_owned()))
    }

    /// Convenience wrapper for `auth(Auth::UserPass(user, pass))`.
    pub fn user_pass(self, user: &str, pass: &str) -> (r: Self)
        ensures
            r.url_spec() == self.url_spec(),
            r.auth_spec() matches Auth::UserPass(u, p) && u@ == user@ && p@ == pass@,
            r.timeout_spec() == self.timeout_spec(),
    {
        self.auth(Auth::UserPass(user.to_owned(), pass.to_owned()))
    }

    /// Sets the request timeout.
    ///
    /// The transport only supports second-granularity timeouts: sub-second
    /// timeouts are accepted but rounded up to one second by the transport;
    /// exactly zero is rejected at [`Builder::build`].
    pub fn timeout(self, timeout: std::time::Duration) -> (r: Self)
        ensures
            r.url_spec() == self.url_spec(),
            r.auth_spec() == self.auth_spec(),
            r.timeout_duration() == timeout,
            r.timeout_spec() == (duration_secs_of(timeout), duration_nanos_of(timeout)),
    {
        Builder { timeout, ..self }
    }

    /// The cookie file to read before [`Builder::build`], if the
    /// authentication strategy is [`Auth::CookieFile`].
    pub fn cookie_path(&self) -> (r: Option<&str>)
        ensures
            match self.auth_spec() {
                Auth::CookieFile(p) => r is Some && r->Some_0@ == p@,
                _ => r is None,
            },
    {
        match &self.auth {
            Auth::CookieFile(p) => Some(p.as_str()),
            _ => None,
        }
    }

    /// Checks the timeout, then the URL: the part of [`Builder::build`]'s
    /// validation that needs no cookie file, so a caller can run it before
    /// reading one.
    pub fn check_settings(&self) -> (r: Result<(), Error>)
        ensures
            match self.settings_error() {
                Some(c) => r == Err::<(), Error>(Error::Config(c)),
                None => r is Ok,
            },
    {
        let secs = duration_secs(&self.timeout);
        let nanos = duration_subsec_nanos(&self.timeout);
        if secs == 0 && nanos == 0 {
            return Err(Error::Config(ConfigError::ZeroTimeout));
        }
        if !is_valid_http_url(self.url.as_str()) {
            return Err(Error::Config(ConfigError::InvalidUrl(self.url.clone())));
        }
        Ok(())
    }

    /// Validates the configuration and resolves the credentials.
    ///
    /// `cookie` is the outcome of reading the cookie file when the
    /// authentication strategy is [`Auth::CookieFile`]: its contents, or the
    /// reason it could not be read. The URL is validated again, since a
    /// builder can also be reached without [`Builder::url`].
    pub fn build(self, cookie: Result<String, String>) -> (r: Result<ClientConfig, Error>)
        ensures
            match self.build_error(cookie) {
                Some(c) => r == Err::<ClientConfig, Error>(Error::Config(c)),
                None => {
                    &&& r is Ok
                    &&& r->Ok_0.url == self.url_spec()
                    &&& r->Ok_0.timeout == self.timeout_duration()
                    &&& resolve_spec(self.auth_spec(), cookie) == Ok::<
                        Option<(Seq<char>, Option<Seq<char>>)>,
                        ConfigError,
                    >(resolved_pair(r->Ok_0.auth))
                },
            },
    {
        let secs = duration_secs(&self.timeout);
        let nanos = duration_subsec_nanos(&self.timeout);
        if secs == 0 && nanos == 0 {
            return Err(Error::Config(ConfigError::ZeroTimeout));
        }
        if !is_valid_http_url(self.url.as_str()) {
            return Err(Error::Config(ConfigError::InvalidUrl(self.url)));
        }
        let resolved = self.auth.resolve(cookie);
        match resolved {
            Err(e) => Err(e),
            Ok(auth) => Ok(
                ClientConfig {
                    url: self.url,
                    timeout: self.timeout,
                    auth,
                },
            ),
        }
    }
}

impl Default for Builder {
    fn default() -> (r: Self)
        ensures
            r.url_spec()@ == "http://127.0.0.1:8332"@,
            r.auth_spec() == Auth::NoAuth,
            r.timeout_spec() == (30u64, 0u32),
    {
        Self::new()
    }
}

/// `null`
pub open spec fn null_text() -> Seq<char> {
    seq!['n', 'u', 'l', 'l']
}

/// Whether a request carries `params`, its serialized parameters.
///
/// JSON-RPC treats `null` as "no params", and passing `null` explicitly
/// upsets some bitcoind builds (they expect an array or an object), so a
/// literal `null` is left out.
pub fn sends_params(params: &str) -> (r: bool)
    ensures
        r == (params@ != null_text()),
{
    let v = chars_of(params);
    let null: Vec<char> = vec!['n', 'u', 'l', 'l'];
    assert(null@ =~= null_text());
    if v.len() != 4 {
        return true;
    }
    let mut i: usize = 0;
    while i < 4
        invariant
            v@ == params@,
            v@.len() == 4,
            null@ == null_text(),
            i <= 4,
            forall|k: int| 0 <= k < i ==> v@[k] == null@[k],
        decreases 4 - i,
    {
        if v[i] != null[i] {
            assert(v@[i as int] != null@[i as int]);
            return true;
        }
        i = i + 1;
    }
    assert(v@ =~= null_text());
    false
}

/// What came back from sending a request that the transport delivered.
pub struct Exchange<T> {
    /// The response carried the request's id.
    pub ids_match: bool,
    /// The decoded result, or why there is none.
    pub result: Result<T, JsonRpcFailure>,
}

/// The text a response with a foreign id is reported with.
pub open spec fn nonce_mismatch_text() -> Seq<char> {
    "JSON-RPC response id did not match request id"@
}

/// The error a request is answered with when its parameters could not be
/// encoded: a decode error for `method`, carrying the encoder's description.
/// No request is sent.
pub fn params_encoding_error(method: &str, source: String) -> (r: Error)
    ensures
        r matches Error::Decode { method: m, source: s } && m@ == method@ && s == source,
{
    Error::Decode { method: method.to_owned(), source }
}

/// Whether a response may be read at all: one whose id differs from the
/// request's is a transport error, reported before its result is decoded.
pub fn check_response_id(ids_match: bool) -> (r: Result<(), Error>)
    ensures
        ids_match ==> r is Ok,
        !ids_match ==> (r matches Err(Error::Transport(d)) && d@ == nonce_mismatch_text()),
{
    if ids_match {
        Ok(())
    } else {
        Err(Error::Transport("JSON-RPC response id did not match request id".to_owned()))
    }
}

/// The result of calling `method`, given the decoded result of a response
/// whose id matched: the value, or the failure classified by [`from_jsonrpc`].
pub fn settle_result<T>(method: &str, result: Result<T, JsonRpcFailure>) -> (r: Result<T, Error>)
    ensures
        match result {
            Ok(v) => r == Ok::<T, Error>(v),
            Err(f) => r is Err && from_jsonrpc_rel(method@, f, r->Err_0),
        },
{
    match result {
        Ok(v) => Ok(v),
        Err(f) => Err(from_jsonrpc(method, f)),
    }
}

/// The result of calling `method`, given what sending the request brought
/// back: the transport's failure, or the response.
///
/// A response whose id differs from the request's is a transport error;
/// otherwise RPC and decoding failures are classified by [`from_jsonrpc`].
pub fn settle_call<T>(method: &str, sent: Result<Exchange<T>, JsonRpcFailure>) -> (r: Result<
    T,
    Error,
>)
    ensures
        match sent {
            Err(f) => r is Err && from_jsonrpc_rel(method@, f, r->Err_0),
            Ok(x) => if !x.ids_match {
                r is Err && (r->Err_0 matches Error::Transport(d) && d@ == nonce_mismatch_text())
            } else {
                match x.result {
                    Ok(v) => r == Ok::<T, Error>(v),
                    Err(f) => r is Err && from_jsonrpc_rel(method@, f, r->Err_0),
                }
            },
        },
{
    match sent {
        Err(f) => Err(from_jsonrpc(method, f)),
        Ok(x) => {
            match check_response_id(x.ids_match) {
                Err(e) => Err(e),
                Ok(()) => settle_result(method, x.result),
            }
        },
    }
}

/// Validity of a URL under a character map that keeps whitespace and each
/// character's lower-cased code.
proof fn lemma_valid_http_url_map(s: Seq<char>, f: spec_fn(char) -> char)
    requires
        forall|c: char| #[trigger] is_whitespace(f(c)) == is_whitespace(c),
        forall|c: char| #[trigger] ascii_lower_code(f(c)) == ascii_lower_code(c),
    ensures
        valid_http_url(s.map_values(f)) == valid_http_url(s),
{
    lemma_trim_map(s, f);
    let t = trim(s);
    assert(trim(s.map_values(f)).len() == t.len());
    lemma_starts_with_ascii_lower_map(t, http_prefix(), f);
    lemma_starts_with_ascii_lower_map(t, https_prefix(), f);
}

/// URL validation is blind to surrounding whitespace and to ASCII case: a
/// URL is valid exactly when its trimmed, its ASCII lower-cased and its
/// ASCII upper-cased forms are.
pub proof fn lemma_url_validity_ignores_trim_and_ascii_case(s: Seq<char>)
    ensures
        valid_http_url(trim(s)) == valid_http_url(s),
        valid_http_url(ascii_lowercase(s)) == valid_http_url(s),
        valid_http_url(ascii_uppercase(s)) == valid_http_url(s),
{
    lemma_trim_idempotent(s);
    let lower = |c: char| ascii_lower_char(c);
    let upper = |c: char| ascii_upper_char(c);
    assert forall|c: char| #[trigger] is_whitespace(lower(c)) == is_whitespace(c)
        && ascii_lower_code(lower(c)) == ascii_lower_code(c) by {
        lemma_ascii_case_chars(c);
    }
    assert forall|c: char| #[trigger] is_whitespace(upper(c)) == is_whitespace(c)
        && ascii_lower_code(upper(c)) == ascii_lower_code(c) by {
        lemma_ascii_case_chars(c);
    }
    lemma_valid_http_url_map(s, lower);
    lemma_valid_http_url_map(s, upper);
    assert(ascii_lowercase(s) == s.map_values(lower));
    assert(ascii_uppercase(s) == s.map_values(upper));
}

/// A URL that [`Builder::url`] accepted is never what [`Builder::build`]
/// rejects: both hold it to the same rule.
pub proof fn lemma_accepted_url_survives_build(b: Builder, cookie: Result<String, String>)
    requires
        valid_http_url(b.url_spec()@),
    ensures
        !(b.build_error(cookie) matches Some(ConfigError::InvalidUrl(_))),
{
}

/// A builder with the default settings is valid as it stands: building it
/// succeeds, with no credentials, whatever the cookie file holds.
pub proof fn lemma_default_builder_builds(b: Builder, cookie: Result<String, String>)
    requires
        b.url_spec()@ == "http://127.0.0.1:8332"@,
        b.auth_spec() == Auth::NoAuth,
        b.timeout_spec() == (30u64, 0u32),
    ensures
        b.build_error(cookie) is None,
        resolve_spec(b.auth_spec(), cookie) == Ok::<Option<(Seq<char>, Option<Seq<char>>)>, ConfigError>(None),
{
    reveal_strlit("http://127.0.0.1:8332");
    let s = b.url_spec()@;
    assert(s.len() == 21);
    assert(s[0] == 'h');
    assert(s[20] == '2');
    assert(crate::client_async::text::trim_start(s) == s);
    assert(crate::client_async::text::trim_end(s) == s);
    assert(trim(s) == s);
    assert(starts_with_ascii_lower(s, http_prefix()));
}

/// `build` rejects a zero timeout before looking at anything else, and a
/// builder with a nonzero timeout but an invalid URL is rejected for that URL,
/// whatever the credentials.
pub proof fn lemma_build_checks_timeout_then_url(b: Builder, cookie: Result<String, String>)
    ensures
        b.timeout_spec() == (0u64, 0u32) ==> b.build_error(cookie) == Some(ConfigError::ZeroTimeout),
        b.timeout_spec() != (0u64, 0u32) && !valid_http_url(b.url_spec()@) ==> b.build_error(cookie)
            == Some(ConfigError::InvalidUrl(b.url_spec())),
{
}

/// The only parameter text left out of a request is the literal `null`.
pub proof fn lemma_only_null_params_are_withheld()
    ensures
        null_text() == "null"@,
{
    reveal_strlit("null");
    assert(null_text() =~= "null"@);
}

} // verus!
