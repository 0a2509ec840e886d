use corepc_client::client_async::auth::parse_cookie;
use corepc_client::client_async::{Auth, ConfigError, Error};

/// The cookie file's read outcome for strategies that do not read one.
fn no_cookie() -> Result<String, String> {
    Ok(String::new())
}

#[test]
fn user_pass_resolves_directly() {
    let auth = Auth::UserPass("alice".into(), "hunter2".into());
    let resolved = auth.resolve(no_cookie()).unwrap().unwrap();
    assert_eq!(resolved.user, "alice");
    assert_eq!(resolved.pass.as_deref(), Some("hunter2"));
}

#[test]
fn none_resolves_to_no_credentials() {
    assert!(Auth::NoAuth.resolve(no_cookie()).unwrap().is_none());
}

#[test]
fn cookie_file_is_split_on_colon() {
    let contents = "__cookie__:secretvalue\n".to_owned();
    let resolved = Auth::CookieFile("/tmp/test.cookie".into()).resolve(Ok(contents)).unwrap().unwrap();
    assert_eq!(resolved.user, "__cookie__");
    assert_eq!(resolved.pass.as_deref(), Some("secretvalue"));
}

#[test]
fn cookie_file_malformed_returns_config_error() {
    let contents = "no-colon-here\n".to_owned();
    let err = Auth::CookieFile("/tmp/test.cookie".into()).resolve(Ok(contents)).unwrap_err();
    assert!(matches!(err, Error::Config(ConfigError::CookieFileMalformed { .. })), "{:?}", err);
}

#[test]
fn cookie_file_missing_returns_io_error() {
    let path = "/nonexistent/path/should/not/exist.cookie";
    let read = Err("No such file or directory (os error 2)".to_owned());
    let err = Auth::CookieFile(path.into()).resolve(read).unwrap_err();
    assert!(matches!(err, Error::Config(ConfigError::CookieFileIo { .. })), "{:?}", err);
    match err {
        Error::Config(ConfigError::CookieFileIo { path: p, source }) => {
            assert_eq!(p, path);
            assert_eq!(source, "No such file or directory (os error 2)");
        }
        other => panic!("unexpected {:?}", other),
    }
}

#[test]
fn cookie_with_crlf_line_ending_drops_the_carriage_return() {
    let contents = "user:pass\r\nsecond line\n".to_owned();
    let resolved = Auth::CookieFile("c".into()).resolve(Ok(contents)).unwrap().unwrap();
    assert_eq!(resolved.user, "user");
    assert_eq!(resolved.pass.as_deref(), Some("pass"));
}

#[test]
fn cookie_without_line_ending_is_one_line() {
    let resolved = Auth::CookieFile("c".into()).resolve(Ok("u:p".to_owned())).unwrap().unwrap();
    assert_eq!(resolved.user, "u");
    assert_eq!(resolved.pass.as_deref(), Some("p"));
}

#[test]
fn cookie_splits_at_the_first_colon_only() {
    let resolved =
        Auth::CookieFile("c".into()).resolve(Ok("__cookie__:a:b\n".to_owned())).unwrap().unwrap();
    assert_eq!(resolved.user, "__cookie__");
    assert_eq!(resolved.pass.as_deref(), Some("a:b"));
}

#[test]
fn empty_cookie_file_is_malformed() {
    let err = Auth::CookieFile("c".into()).resolve(Ok(String::new())).unwrap_err();
    assert!(matches!(err, Error::Config(ConfigError::CookieFileMalformed { .. })), "{:?}", err);
}

#[test]
fn colon_on_second_line_only_is_malformed() {
    let err = Auth::CookieFile("c".into()).resolve(Ok("first\nuser:pass".to_owned())).unwrap_err();
    assert!(matches!(err, Error::Config(ConfigError::CookieFileMalformed { .. })), "{:?}", err);
}

#[test]
fn parse_cookie_keeps_empty_user_and_password() {
    assert_eq!(parse_cookie(":\n"), Some((String::new(), String::new())));
    assert_eq!(parse_cookie("\n"), None);
}
