use std::time::Duration;

use corepc_client::client_async::v31::blockchain::get_block_count_params;
use corepc_client::client_async::client::{
    check_response_id, configured_version, is_valid_http_url, params_encoding_error,
    sends_params, settle_call, settle_result,
};
use corepc_client::client_async::{
    Auth, Builder, ConfigError, Error, Exchange, JsonRpcFailure, Retryability, TransportFailure,
    CONFIGURED_VERSION,
};

/// The cookie file's read outcome when no cookie file is configured.
fn no_cookie() -> Result<String, String> {
    Ok(String::new())
}

#[test]
fn url_validator_accepts_well_formed_http_urls() {
    for url in [
        "http://127.0.0.1:8332",
        "http://localhost",
        "https://node.example.com:443",
        "HTTP://node",
    ] {
        assert!(is_valid_http_url(url), "expected `{}` to be valid", url);
    }
}

#[test]
fn url_validator_rejects_obvious_garbage() {
    for url in ["", " ", "ftp://node", "127.0.0.1:8332", "http://", "https://"] {
        assert!(!is_valid_http_url(url), "expected `{}` to be invalid", url);
    }
}

#[test]
fn url_validator_trims_surrounding_whitespace() {
    assert!(is_valid_http_url("  http://node\n"));
    assert!(is_valid_http_url("\u{3000}HtTpS://x\t"));
    assert!(!is_valid_http_url("  http://  "));
    assert!(!is_valid_http_url("x http://node"));
}

#[test]
fn builder_url_rejects_invalid() {
    let err = Builder::new().url("not-a-url").unwrap_err();
    assert!(matches!(err, Error::Config(ConfigError::InvalidUrl(_))), "{:?}", err);
}

#[test]
fn builder_zero_timeout_rejected_at_build() {
    let err = Builder::new()
        .url("http://127.0.0.1:8332")
        .unwrap()
        .timeout(Duration::from_secs(0))
        .build(no_cookie())
        .unwrap_err();
    assert!(matches!(err, Error::Config(ConfigError::ZeroTimeout)), "{:?}", err);
}

#[test]
fn builder_missing_cookie_file_returns_config_error() {
    let err = Builder::new()
        .url("http://127.0.0.1:8332")
        .unwrap()
        .cookie_file("/definitely/does/not/exist.cookie")
        .build(Err("No such file or directory (os error 2)".to_owned()))
        .unwrap_err();
    assert!(matches!(err, Error::Config(ConfigError::CookieFileIo { .. })), "{:?}", err);
}

#[test]
fn builder_user_pass_builds_a_client() {
    let client = Builder::new()
        .url("http://127.0.0.1:8332")
        .unwrap()
        .user_pass("alice", "secret")
        .timeout(Duration::from_secs(5))
        .build(no_cookie())
        .unwrap();
    let dbg = format!("{:?}", client);
    assert!(dbg.contains("Client"));
    assert_eq!(client.url, "http://127.0.0.1:8332");
    assert_eq!(client.timeout, Duration::from_secs(5));
    let auth = client.auth.unwrap();
    assert_eq!(auth.user, "alice");
    assert_eq!(auth.pass.as_deref(), Some("secret"));
}

#[test]
fn default_builder_builds_without_credentials() {
    let config = Builder::default().build(no_cookie()).unwrap();
    assert_eq!(config.url, "http://127.0.0.1:8332");
    assert_eq!(config.timeout, Duration::from_secs(30));
    assert!(config.auth.is_none());
}

#[test]
fn sub_second_timeout_is_accepted() {
    let config = Builder::new().timeout(Duration::from_millis(1)).build(no_cookie()).unwrap();
    assert_eq!(config.timeout, Duration::from_millis(1));
}

#[test]
fn build_checks_timeout_before_url_and_url_before_credentials() {
    let err = Builder::new()
        .timeout(Duration::from_secs(0))
        .cookie_file("x")
        .build(Err("unreadable".to_owned()))
        .unwrap_err();
    assert!(matches!(err, Error::Config(ConfigError::ZeroTimeout)), "{:?}", err);

    let err = Builder::new().cookie_file("x").build(Ok("u:p".to_owned())).unwrap();
    assert_eq!(err.auth.unwrap().user, "u");
}

#[test]
fn builder_auth_replaces_the_strategy() {
    let config = Builder::new()
        .user_pass("a", "b")
        .auth(Auth::NoAuth)
        .build(no_cookie())
        .unwrap();
    assert!(config.auth.is_none());
}

#[test]
fn configured_version_is_31() {
    assert_eq!(configured_version(), "31_0");
    assert_eq!(CONFIGURED_VERSION, "31_0");
}

#[test]
fn null_params_are_not_sent() {
    assert!(!sends_params("null"));
    assert!(sends_params("[]"));
    assert!(sends_params("nul"));
    assert!(sends_params("nulL"));
    assert!(sends_params("[null]"));
}

#[test]
fn foreign_response_id_is_a_retryable_transport_error() {
    let sent: Result<Exchange<u64>, JsonRpcFailure> = Ok(Exchange { ids_match: false, result: Ok(7) });
    let err = settle_call("getblockcount", sent).unwrap_err();
    assert!(matches!(err, Error::Transport(_)), "{:?}", err);
    assert_eq!(err.retryability(), Retryability::Retryable);
    assert_eq!(err.to_string(), "transport error: JSON-RPC response id did not match request id");
}

#[test]
fn get_block_count_deserializes_height() {
    let sent: Result<Exchange<u64>, JsonRpcFailure> = Ok(Exchange { ids_match: true, result: Ok(842_017) });
    assert_eq!(settle_call("getblockcount", sent).unwrap(), 842_017);
}

#[test]
fn rpc_application_error_is_classified_as_block_not_found() {
    let sent: Result<Exchange<u64>, JsonRpcFailure> = Ok(Exchange {
        ids_match: true,
        result: Err(JsonRpcFailure::Rpc { code: -5, message: "Block not found".into() }),
    });
    let err = settle_call("getblockcount", sent).unwrap_err();
    assert!(err.is_block_not_found(), "{:?}", err);
    assert_eq!(err.retryability(), Retryability::NonRetryable);
    assert_eq!(err.method(), Some("getblockcount"));
}

#[test]
fn send_failure_is_classified_before_the_id_check() {
    let sent: Result<Exchange<u64>, JsonRpcFailure> =
        Err(JsonRpcFailure::Rpc { code: -28, message: "Loading block index...".into() });
    let err = settle_call("getblockcount", sent).unwrap_err();
    assert_eq!(err.retryability(), Retryability::Retryable);
    assert!(matches!(err, Error::Rpc { code: -28, .. }), "{:?}", err);
}

#[test]
fn rpc_warmup_error_is_retryable() {
    let sent: Result<Exchange<u64>, JsonRpcFailure> = Ok(Exchange {
        ids_match: true,
        result: Err(JsonRpcFailure::Rpc { code: -28, message: "Loading block index...".into() }),
    });
    let err = settle_call("getblockcount", sent).unwrap_err();
    assert_eq!(err.retryability(), Retryability::Retryable);
    match err {
        Error::Rpc { code, .. } => assert_eq!(code, -28),
        other => panic!("expected RPC error, got {:?}", other),
    }
}

#[test]
fn transport_failure_is_retryable() {
    let sent: Result<Exchange<u64>, JsonRpcFailure> = Err(JsonRpcFailure::Transport(
        TransportFailure::Other("simulated transport failure".into()),
    ));
    let err = settle_call("getblockcount", sent).unwrap_err();
    assert!(matches!(err, Error::Transport(_)), "{:?}", err);
    assert_eq!(err.retryability(), Retryability::Retryable);
}

#[test]
fn malformed_response_surfaces_decode_error() {
    let sent: Result<Exchange<u64>, JsonRpcFailure> = Ok(Exchange {
        ids_match: true,
        result: Err(JsonRpcFailure::Json("invalid type: string \"not-a-number\", expected u64".into())),
    });
    let err = settle_call("getblockcount", sent).unwrap_err();
    assert!(matches!(err, Error::MalformedResponse { .. }), "{:?}", err);
    assert_eq!(err.retryability(), Retryability::NonRetryable);
}

#[test]
fn get_block_count_sends_empty_array_params() {
    assert!(get_block_count_params().is_empty());
    assert!(sends_params("[]"));
}

#[test]
fn url_validity_ignores_surrounding_whitespace_and_ascii_case() {
    for s in ["http://node:8332", "  HTTPS://Node  ", "ftp://node", "http://", "\thttp://x\n", "hTtP://a"] {
        let v = is_valid_http_url(s);
        assert_eq!(v, is_valid_http_url(s.trim()), "{:?}", s);
        assert_eq!(v, is_valid_http_url(&s.to_ascii_lowercase()), "{:?}", s);
        assert_eq!(v, is_valid_http_url(&s.to_ascii_uppercase()), "{:?}", s);
    }
}

#[test]
fn timeout_stores_the_given_duration() {
    let config = Builder::new().timeout(Duration::new(7, 250)).build(no_cookie()).unwrap();
    assert_eq!(config.timeout, Duration::new(7, 250));
}

#[test]
fn check_settings_rejects_zero_timeout_before_bad_url() {
    let b = Builder::new().timeout(Duration::ZERO);
    let err = b.check_settings().unwrap_err();
    assert!(matches!(err, Error::Config(ConfigError::ZeroTimeout)), "{:?}", err);
    assert!(Builder::new().check_settings().is_ok());
    let b = Builder::new().cookie_file("/no/such/cookie");
    assert!(b.check_settings().is_ok());
}

#[test]
fn params_encoding_failure_is_a_decode_error() {
    let err = params_encoding_error("getblock", "key must be a string".to_owned());
    match err {
        Error::Decode { method, source } => {
            assert_eq!(method, "getblock");
            assert_eq!(source, "key must be a string");
        }
        other => panic!("unexpected {:?}", other),
    }
}

#[test]
fn response_id_must_match_before_decoding() {
    assert!(check_response_id(true).is_ok());
    match check_response_id(false).unwrap_err() {
        Error::Transport(d) => assert_eq!(d, "JSON-RPC response id did not match request id"),
        other => panic!("unexpected {:?}", other),
    }
}

#[test]
fn settle_result_classifies_rpc_failures() {
    assert_eq!(settle_result::<u64>("getblockcount", Ok(3)).unwrap(), 3);
    let err = settle_result::<u64>(
        "getblock",
        Err(JsonRpcFailure::Rpc { code: -5, message: "Block not found".to_owned() }),
    )
    .unwrap_err();
    assert!(err.is_block_not_found());
    assert_eq!(err.method(), Some("getblock"));
}
