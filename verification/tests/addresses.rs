//! Endpoint construction, address normalization, legacy-flag handling,
//! and the helpers they rest on.

use limeade::cli::build_server_url;
use limeade::cli::log_level_of;
use limeade::cli::reject_unsupported_flags;
use limeade::cli::CompatFlags;
use limeade::cli::LegacyError;
use limeade::cli::LogLevel;
use limeade::client::interpret_response_status;
use limeade::client::normalize_addr;
use limeade::client::Client;
use limeade::client::Error;
use limeade::client::CLIENT_TIMEOUT_SECS;
use limeade::strutil::i16_decimal;
use limeade::strutil::starts_with_str;
use limeade::strutil::u32_decimal;

#[test]
fn scheme_is_defaulted() {
    assert_eq!(normalize_addr("localhost:2490"), "http://localhost:2490");
    assert_eq!(normalize_addr("http://example.com"), "http://example.com");
    assert_eq!(normalize_addr("https://example.com"), "https://example.com");
}

#[test]
fn client_new_normalizes_address() {
    let client = Client::new("localhost:2490".to_string()).unwrap();
    assert_eq!(client.clipboard_url(), "http://localhost:2490/clipboard");
}

#[test]
fn client_new_keeps_explicit_scheme() {
    let client = Client::new("https://example.com:1234".to_string()).unwrap();
    assert_eq!(client.clipboard_url(), "https://example.com:1234/clipboard");
}

#[test]
fn clipboard_url_elides_trailing_slash() {
    let client = Client::new("http://example.com/".to_string()).unwrap();
    assert_eq!(client.clipboard_url(), "http://example.com/clipboard");
}

#[test]
fn clipboard_url_replaces_path_and_query() {
    let client = Client::new("http://example.com/x/y".to_string()).unwrap();
    assert_eq!(client.clipboard_url(), "http://example.com/clipboard");
    let client = Client::new("http://example.com?q=1".to_string()).unwrap();
    assert_eq!(client.clipboard_url(), "http://example.com/clipboard");
    let client = Client::new("https://example.com:8443/x".to_string()).unwrap();
    assert_eq!(client.clipboard_url(), "https://example.com:8443/clipboard");
}

#[test]
fn response_status_decides_the_outcome() {
    assert_eq!(interpret_response_status(200), Ok(()));
    assert_eq!(interpret_response_status(503), Err(Error::Transport));
    assert_eq!(interpret_response_status(500), Err(Error::Transport));
    assert_eq!(interpret_response_status(404), Err(Error::Transport));
}

#[test]
fn client_new_rejects_malformed_address() {
    let r = Client::new("http://[".to_string());
    assert!(matches!(r, Err(Error::Url)));
    let r = Client::new("http://exa mple.com".to_string());
    assert!(matches!(r, Err(Error::Url)));
}

#[test]
fn client_timeout_is_fixed() {
    assert_eq!(CLIENT_TIMEOUT_SECS, 30);
}

#[test]
fn build_server_url_uses_configured_address() {
    let flags = CompatFlags::default();
    assert_eq!(
        build_server_url("localhost:2490", &flags),
        "http://localhost:2490"
    );
    assert_eq!(
        build_server_url("https://example.com", &flags),
        "https://example.com"
    );
}

#[test]
fn build_server_url_prefers_legacy_host_and_port() {
    let mut flags = CompatFlags::default();
    flags.host = Some("myhost".to_string());
    flags.port = Some(3000);
    assert_eq!(build_server_url("ignored", &flags), "http://myhost:3000");
}

#[test]
fn build_server_url_fills_default_port_for_legacy_host() {
    let mut flags = CompatFlags::default();
    flags.host = Some("myhost".to_string());
    assert_eq!(build_server_url("ignored", &flags), "http://myhost:2490");
}

#[test]
fn build_server_url_fills_default_host_for_legacy_port() {
    let mut flags = CompatFlags::default();
    flags.port = Some(8080);
    assert_eq!(build_server_url("ignored", &flags), "http://localhost:8080");
    flags.port = Some(-1);
    assert_eq!(build_server_url("ignored", &flags), "http://localhost:-1");
}

#[test]
fn unsupported_legacy_flags_fail_fast() {
    let mut flags = CompatFlags::default();
    assert_eq!(reject_unsupported_flags(&flags), Ok(()));
    flags.trans_loopback = Some(false);
    flags.trans_localfile = Some(false);
    assert_eq!(reject_unsupported_flags(&flags), Ok(()));
    flags.trans_loopback = Some(true);
    assert_eq!(
        reject_unsupported_flags(&flags),
        Err(LegacyError::TransLoopback)
    );
    flags.trans_loopback = None;
    flags.trans_localfile = Some(true);
    assert_eq!(
        reject_unsupported_flags(&flags),
        Err(LegacyError::TransLocalfile)
    );
    flags.trans_loopback = Some(true);
    assert_eq!(
        reject_unsupported_flags(&flags),
        Err(LegacyError::TransLoopback)
    );
}

#[test]
fn legacy_error_messages_name_the_flag() {
    assert_eq!(
        LegacyError::TransLoopback.message(),
        "legacy flag --trans-loopback is not supported in limeade"
    );
    assert_eq!(
        LegacyError::TransLocalfile.message(),
        "legacy flag --trans-localfile is not supported in limeade"
    );
}

#[test]
fn log_levels_map_like_the_predecessor() {
    assert_eq!(log_level_of(None), LogLevel::Info);
    assert_eq!(log_level_of(Some(0)), LogLevel::Debug);
    assert_eq!(log_level_of(Some(1)), LogLevel::Info);
    assert_eq!(log_level_of(Some(2)), LogLevel::Warn);
    assert_eq!(log_level_of(Some(3)), LogLevel::Error);
    assert_eq!(log_level_of(Some(255)), LogLevel::Error);
}

#[test]
fn decimal_rendering_is_exact() {
    assert_eq!(u32_decimal(0), "0");
    assert_eq!(u32_decimal(7), "7");
    assert_eq!(u32_decimal(2490), "2490");
    assert_eq!(u32_decimal(4294967295), "4294967295");
    assert_eq!(i16_decimal(0), "0");
    assert_eq!(i16_decimal(32767), "32767");
    assert_eq!(i16_decimal(-1), "-1");
    assert_eq!(i16_decimal(-32768), "-32768");
}

#[test]
fn prefix_test_is_exact() {
    assert!(starts_with_str("http://x", "http://"));
    assert!(starts_with_str("abc", ""));
    assert!(!starts_with_str("htt", "http://"));
    assert!(!starts_with_str("xhttp://", "http://"));
}
