//! Command-line compatibility: the legacy flags kept for the predecessor
//! tool, the rejection of the two that have no safe equivalent, the log
//! verbosity they select, and the server URL they imply.

use vstd::prelude::*;
use crate::client::normalize_addr;
use crate::client::normalized_addr;
use crate::strutil::i16_decimal;
use crate::strutil::spec_decimal_int;

verus! {

/// Flags accepted for backward compatibility with the predecessor tool.
/// None of them belongs to the protocol: they either remap onto the
/// address and port, select a log verbosity, or are accepted and ignored.
pub struct CompatFlags {
    /// TCP port number.
    pub port: Option<i16>,
    /// Convert line endings; accepted and ignored.
    pub line_ending: Option<bool>,
    /// Allowed IP ranges; accepted and ignored.
    pub allow: Vec<String>,
    /// Destination hostname.
    pub host: Option<String>,
    /// Do not show fallback messages; accepted and ignored.
    pub no_fallback_messages: Option<bool>,
    /// Translate the loopback address; unsupported.
    pub trans_loopback: Option<bool>,
    /// Translate local file paths; unsupported.
    pub trans_localfile: Option<bool>,
    /// Log verbosity, 0 the most verbose.
    pub log_level: Option<u8>,
}

impl Default for CompatFlags {
    /// No legacy flag supplied.
    fn default() -> (d: Self)
        ensures
            d.port is None,
            d.line_ending is None,
            d.allow@.len() == 0,
            d.host is None,
            d.no_fallback_messages is None,
            d.trans_loopback is None,
            d.trans_localfile is None,
            d.log_level is None,
    {
        CompatFlags {
            port: None,
            line_ending: None,
            allow: Vec::new(),
            host: None,
            no_fallback_messages: None,
            trans_loopback: None,
            trans_localfile: None,
            log_level: None,
        }
    }
}

/// A legacy flag with no safe equivalent was supplied.
#[derive(Clone, Copy, Debug, PartialEq, Eq, Structural)]
pub enum LegacyError {
    /// `--trans-loopback` was set.
    TransLoopback,
    /// `--trans-localfile` was set.
    TransLocalfile,
}

impl LegacyError {
    /// The message reported when the process fails fast on this flag.
    pub open spec fn spec_message(self) -> Seq<char> {
        match self {
            LegacyError::TransLoopback => "legacy flag --trans-loopback is not supported in limeade"@,
            LegacyError::TransLocalfile => "legacy flag --trans-localfile is not supported in limeade"@,
        }
    }

    /// Render the failure message.
    pub fn message(&self) -> (m: String)
        ensures
            m@ == self.spec_message(),
    {
        match self {
            LegacyError::TransLoopback => String::from_str(
                "legacy flag --trans-loopback is not supported in limeade",
            ),
            LegacyError::TransLocalfile => String::from_str(
                "legacy flag --trans-localfile is not supported in limeade",
            ),
        }
    }
}

/// Fail fast on the unsupported legacy flags, before any network
/// activity: the process may proceed exactly when neither
/// `--trans-loopback` nor `--trans-localfile` is set, whatever the chosen
/// subcommand.
pub fn reject_unsupported_flags(flags: &CompatFlags) -> (r: Result<(), LegacyError>)
    ensures
        r is Ok <==> (flags.trans_loopback != Some(true) && flags.trans_localfile != Some(true)),
        flags.trans_loopback == Some(true) ==> r == Err::<(), LegacyError>(
            LegacyError::TransLoopback,
        ),
        (flags.trans_loopback != Some(true) && flags.trans_localfile == Some(true)) ==> r
            == Err::<(), LegacyError>(LegacyError::TransLocalfile),
{
    if let Some(true) = flags.trans_loopback {
        return Err(LegacyError::TransLoopback);
    }
    if let Some(true) = flags.trans_localfile {
        return Err(LegacyError::TransLocalfile);
    }
    Ok(())
}

/// Log verbosity of the process.
#[derive(Clone, Copy, Debug, PartialEq, Eq, Structural)]
pub enum LogLevel {
    Debug,
    Info,
    Warn,
    Error,
}

/// The verbosity selected by the legacy `--log-level` flag: absent means
/// the default, 0 the most verbose, anything above 2 errors only.
pub open spec fn spec_log_level(compat: Option<u8>) -> LogLevel {
    match compat {
        None => LogLevel::Info,
        Some(0u8) => LogLevel::Debug,
        Some(1u8) => LogLevel::Info,
        Some(2u8) => LogLevel::Warn,
        Some(_) => LogLevel::Error,
    }
}

/// Map the legacy `--log-level` flag onto the process verbosity.
pub fn log_level_of(compat: Option<u8>) -> (l: LogLevel)
    ensures
        l == spec_log_level(compat),
{
    match compat {
        None => LogLevel::Info,
        Some(0u8) => LogLevel::Debug,
        Some(1u8) => LogLevel::Info,
        Some(2u8) => LogLevel::Warn,
        Some(_) => LogLevel::Error,
    }
}

/// Build the server URL from the configured address and the legacy flags:
/// a legacy host or port takes precedence and names unencrypted HTTP with
/// the default filled in for the missing half; otherwise the configured
/// address is used, normalized to carry a scheme.
pub fn build_server_url(server_addr: &str, compat_flags: &CompatFlags) -> (r: String)
    ensures
        (compat_flags.host is Some && compat_flags.port is Some) ==> r@ == "http://"@
            + compat_flags.host->Some_0@ + ":"@ + spec_decimal_int(
            compat_flags.port->Some_0 as int,
        ),
        (compat_flags.host is Some && compat_flags.port is None) ==> r@ == "http://"@
            + compat_flags.host->Some_0@ + ":2490"@,
        (compat_flags.host is None && compat_flags.port is Some) ==> r@ == "http://localhost:"@
            + spec_decimal_int(compat_flags.port->Some_0 as int),
        (compat_flags.host is None && compat_flags.port is None) ==> r@ == normalized_addr(
            server_addr@,
        ),
{
    match (&compat_flags.host, compat_flags.port) {
        (Some(host), Some(port)) => {
            let digits = i16_decimal(port);
            let r = String::from_str("http://").concat(host.as_str()).concat(":").concat(
                digits.as_str(),
            );
            proof {
                assert(r@ =~= "http://"@ + host@ + ":"@ + spec_decimal_int(port as int));
            }
            r
        },
        (Some(host), None) => {
            let r = String::from_str("http://").concat(host.as_str()).concat(":2490");
            proof {
                assert(r@ =~= "http://"@ + host@ + ":2490"@);
            }
            r
        },
        (None, Some(port)) => {
            let digits = i16_decimal(port);
            let r = String::from_str("http://localhost:").concat(digits.as_str());
            r
        },
        (None, None) => normalize_addr(server_addr),
    }
}

} // verus!
