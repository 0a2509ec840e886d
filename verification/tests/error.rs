use corepc_client::client_async::error::{
    from_jsonrpc, map_transport_error, names_missing_block, names_missing_tx,
};
use corepc_client::client_async::text::{decimal_string, truncate};
use corepc_client::client_async::{
    ConfigError, Error, JsonRpcFailure, Retryability, TransportFailure,
};

#[test]
fn retryability_transport_is_retryable() {
    let err = Error::Transport("boom".to_owned());
    assert_eq!(err.retryability(), Retryability::Retryable);
}

#[test]
fn retryability_5xx_and_429_are_retryable() {
    for status in [500, 502, 503, 504, 429] {
        let err = Error::Http { method: None, status_code: status, body: String::new() };
        assert_eq!(
            err.retryability(),
            Retryability::Retryable,
            "expected status {} to be retryable",
            status
        );
    }
}

#[test]
fn retryability_4xx_other_than_429_is_non_retryable() {
    let err = Error::Http { method: None, status_code: 400, body: String::new() };
    assert_eq!(err.retryability(), Retryability::NonRetryable);
}

#[test]
fn retryability_rpc_warmup_is_retryable() {
    let err = Error::Rpc {
        method: Some("getblockcount".into()),
        code: -28,
        message: "Loading block index...".into(),
    };
    assert_eq!(err.retryability(), Retryability::Retryable);
}

#[test]
fn retryability_rpc_other_is_non_retryable() {
    let err = Error::Rpc {
        method: Some("getblock".into()),
        code: -5,
        message: "Block not found".into(),
    };
    assert_eq!(err.retryability(), Retryability::NonRetryable);
}

#[test]
fn retryability_config_decode_conversion_are_non_retryable() {
    let cfg = Error::Config(ConfigError::ZeroTimeout);
    assert_eq!(cfg.retryability(), Retryability::NonRetryable);

    let decode = Error::Decode {
        method: "x".into(),
        source: serde_json::from_str::<u32>("not-json").unwrap_err().to_string(),
    };
    assert_eq!(decode.retryability(), Retryability::NonRetryable);
}

#[test]
fn is_block_not_found_matches_block_message() {
    let err = Error::Rpc {
        method: Some("getblock".into()),
        code: -5,
        message: "Block not found".into(),
    };
    assert!(err.is_block_not_found());
    assert!(!err.is_tx_not_found());
}

#[test]
fn is_tx_not_found_matches_transaction_message() {
    let err = Error::Rpc {
        method: Some("getrawtransaction".into()),
        code: -5,
        message: "No such mempool or blockchain transaction".into(),
    };
    assert!(err.is_tx_not_found());
    assert!(!err.is_block_not_found());
}

#[test]
fn is_missing_or_invalid_input_covers_known_codes() {
    for code in [-8, -22, -25] {
        let err = Error::Rpc { method: None, code, message: "x".into() };
        assert!(err.is_missing_or_invalid_input(), "code {} should be invalid input", code);
    }
    let err = Error::Rpc { method: None, code: -1, message: "x".into() };
    assert!(!err.is_missing_or_invalid_input());
}

#[test]
fn method_accessor_returns_method_when_known() {
    let err =
        Error::Rpc { method: Some("getblockcount".into()), code: -1, message: "x".into() };
    assert_eq!(err.method(), Some("getblockcount"));

    let err = Error::Transport("x".to_owned());
    assert_eq!(err.method(), None);
}

#[test]
fn config_error_zero_timeout_displays_clearly() {
    let err = Error::Config(ConfigError::ZeroTimeout);
    let msg = err.to_string();
    assert!(msg.contains("timeout"), "got: {}", msg);
}

#[test]
fn rpc_method_not_found_becomes_version_mismatch() {
    let err = from_jsonrpc(
        "getsomethingnew",
        JsonRpcFailure::Rpc { code: -32601, message: "Method not found".into() },
    );
    match &err {
        Error::VersionMismatch { method, .. } => assert_eq!(method, "getsomethingnew"),
        other => panic!("expected VersionMismatch, got {:?}", other),
    }
    assert_eq!(err.retryability(), Retryability::NonRetryable);
}

#[test]
fn truncate_respects_char_boundaries() {
    // A body of multi-byte characters whose 256-byte mark falls inside a character must not
    // panic when displayed.
    let body = "\u{00e9}".repeat(200); // 400 bytes of two-byte chars.
    let err = Error::Http { method: None, status_code: 500, body };
    let _ = err.to_string();
}

#[test]
fn http_body_is_cut_to_256_bytes_on_a_char_boundary() {
    let body = format!("a{}", "\u{00e9}".repeat(200)); // 401 bytes; byte 256 splits a char.
    let err = Error::Http { method: Some("getblock".into()), status_code: 503, body };
    let msg = err.to_string();
    let expected = format!("HTTP 503 for method `getblock`: a{}", "\u{00e9}".repeat(127));
    assert_eq!(msg, expected);
}

#[test]
fn truncate_keeps_the_longest_fitting_prefix() {
    assert_eq!(truncate("hello", 10), "hello");
    assert_eq!(truncate("hello", 5), "hello");
    assert_eq!(truncate("hello", 3), "hel");
    assert_eq!(truncate("\u{00e9}\u{00e9}", 3), "\u{00e9}");
    assert_eq!(truncate("\u{1F600}x", 3), "");
    assert_eq!(truncate("", 0), "");
}

#[test]
fn decimal_rendering_matches_format() {
    for n in [0, 7, -1, 10, 429, -32601, i32::MAX, i32::MIN] {
        assert_eq!(decimal_string(n), format!("{}", n));
    }
}

#[test]
fn transport_http_401_and_403_are_auth_errors() {
    for status in [401, 403] {
        let err = map_transport_error(
            "getblockcount",
            TransportFailure::Http { status_code: status, body: "denied".into() },
        );
        assert!(matches!(err, Error::Auth { method: Some(ref m) } if m == "getblockcount"), "{:?}", err);
        assert_eq!(err.retryability(), Retryability::NonRetryable);
    }
}

#[test]
fn transport_http_other_status_keeps_status_and_body() {
    let err = from_jsonrpc(
        "getblockcount",
        JsonRpcFailure::Transport(TransportFailure::Http { status_code: 503, body: "busy".into() }),
    );
    match &err {
        Error::Http { method, status_code, body } => {
            assert_eq!(method.as_deref(), Some("getblockcount"));
            assert_eq!(*status_code, 503);
            assert_eq!(body, "busy");
        }
        other => panic!("expected Http, got {:?}", other),
    }
    assert_eq!(err.retryability(), Retryability::Retryable);
}

#[test]
fn other_transport_failures_stay_transport_errors() {
    let err = from_jsonrpc(
        "getblockcount",
        JsonRpcFailure::Transport(TransportFailure::Other("simulated transport failure".into())),
    );
    assert!(matches!(err, Error::Transport(ref d) if d == "simulated transport failure"), "{:?}", err);
    assert_eq!(err.retryability(), Retryability::Retryable);
    assert_eq!(err.method(), None);
}

#[test]
fn malformed_response_is_not_retryable() {
    let err = from_jsonrpc("getblockcount", JsonRpcFailure::Json("invalid type".into()));
    assert!(matches!(err, Error::MalformedResponse { .. }), "{:?}", err);
    assert_eq!(err.retryability(), Retryability::NonRetryable);
    assert_eq!(err.method(), Some("getblockcount"));
}

#[test]
fn protocol_mismatch_is_a_transport_error() {
    let err = from_jsonrpc("x", JsonRpcFailure::ProtocolMismatch);
    assert_eq!(
        err.to_string(),
        "transport error: JSON-RPC nonce or version mismatch in response"
    );
}

#[test]
fn error_messages_match_their_display_text() {
    let cases: Vec<(Error, &str)> = vec![
        (Error::Auth { method: Some("m".into()) }, "authentication failed for method `m`"),
        (Error::Auth { method: None }, "authentication failed"),
        (Error::Http { method: None, status_code: 404, body: "nope".into() }, "HTTP 404: nope"),
        (
            Error::MalformedResponse { method: Some("m".into()), source: "bad".into() },
            "malformed JSON-RPC response for `m`: bad",
        ),
        (
            Error::MalformedResponse { method: None, source: "bad".into() },
            "malformed JSON-RPC response: bad",
        ),
        (
            Error::Rpc { method: Some("m".into()), code: -5, message: "gone".into() },
            "RPC error -5 for `m`: gone",
        ),
        (Error::Rpc { method: None, code: -5, message: "gone".into() }, "RPC error -5: gone"),
        (
            Error::VersionMismatch { method: "m".into(), configured_version: "31_0".into() },
            "method `m` is not supported by configured Core version 31_0",
        ),
        (
            Error::Decode { method: "m".into(), source: "bad".into() },
            "failed to decode response for `m`: bad",
        ),
        (
            Error::Config(ConfigError::InvalidUrl("x".into())),
            "configuration error: invalid URL: `x`",
        ),
        (
            Error::Config(ConfigError::CookieFileIo { path: "p".into(), source: "gone".into() }),
            "configuration error: could not read cookie file `p`: gone",
        ),
        (
            Error::Config(ConfigError::CookieFileMalformed { path: "p".into() }),
            "configuration error: cookie file `p` is malformed (expected `user:pass`)",
        ),
        (
            Error::Config(ConfigError::MissingCredentials),
            "configuration error: no credentials provided (use cookie or user/pass)",
        ),
    ];
    for (err, text) in cases {
        assert_eq!(err.to_string(), text);
    }
}

#[test]
fn not_found_needs_code_minus_five() {
    let err = Error::Rpc { method: None, code: -8, message: "Block not found".into() };
    assert!(!err.is_block_not_found());
    let err = Error::Rpc { method: None, code: -5, message: "BLOCK HEIGHT OUT OF RANGE".into() };
    assert!(err.is_block_not_found());
    let err = Error::Rpc { method: None, code: -5, message: "Invalid or non-wallet transaction id".into() };
    assert!(err.is_tx_not_found());
}

#[test]
fn config_error_converts_into_error() {
    let err: Error = ConfigError::ZeroTimeout.into();
    assert!(matches!(err, Error::Config(ConfigError::ZeroTimeout)));
    assert_eq!(err.method(), None);
}

#[test]
fn lowercased_messages_naming_a_missing_tx_or_block() {
    assert!(names_missing_tx("no such mempool or blockchain transaction"));
    assert!(names_missing_tx("invalid txid"));
    assert!(!names_missing_tx("block not found"));
    assert!(names_missing_block("block not found"));
    assert!(names_missing_block("block height out of range"));
    assert!(!names_missing_block("no such mempool or blockchain transaction"));
    assert!(!names_missing_block("Block not found"));
}
