//! The settings of one keeper, and the rules that make them from what the
//! environment holds.

use crate::error::{Error, ErrorView};
use crate::text::{join3, lowercase, lowercased, opt_text, same_text};
use crate::threshold::{decimal_fraction, in_unit_interval, read_decimal, RenewalThreshold};
use vstd::prelude::*;
use vstd::string::*;

verus! {

/// How log lines are written.
#[derive(Debug, Clone, Copy, PartialEq, Eq, Structural)]
pub enum LogFormat {
    Json,
    Pretty,
}

/// An internet socket address, as plain numbers.
#[derive(Debug, Clone, Copy)]
pub enum SocketAddress {
    V4 { octets: [u8; 4], port: u16 },
    V6 { segments: [u16; 8], port: u16, flowinfo: u32, scope_id: u32 },
}

/// A variable whose text somebody else reads: absent, read, or unreadable
/// with the reason why.
#[derive(Debug)]
pub enum Setting<T> {
    Unset,
    Value(T),
    Invalid(String),
}

/// What the environment holds for the keeper, one field for each variable.
#[derive(Debug)]
pub struct Environment {
    /// `VAULT_ADDR`
    pub vault_addr: Option<String>,
    /// `VAULT_AUTH_ROLE`
    pub vault_auth_role: Option<String>,
    /// `VAULT_AUTH_MOUNT`
    pub vault_auth_mount: Option<String>,
    /// `VAULT_PKI_ROLE`
    pub vault_pki_role: Option<String>,
    /// `VAULT_PKI_MOUNT`
    pub vault_pki_mount: Option<String>,
    /// `VAULT_NAMESPACE`
    pub vault_namespace: Option<String>,
    /// `VAULT_CACERT`
    pub vault_cacert: Option<String>,
    /// `CERT_COMMON_NAME`
    pub cert_common_name: Option<String>,
    /// `CERT_ALT_NAMES`
    pub cert_alt_names: Option<String>,
    /// `CERT_IP_SANS`
    pub cert_ip_sans: Option<String>,
    /// `CERT_TTL`
    pub cert_ttl: Option<String>,
    /// `CERT_DIR`
    pub cert_dir: Option<String>,
    /// `LISTEN_ADDR`, already read as a socket address.
    pub listen_addr: Setting<SocketAddress>,
    /// `BACKEND_ADDR`, already read as a socket address.
    pub backend_addr: Setting<SocketAddress>,
    /// `RENEWAL_THRESHOLD`, already read as a number and written in plain
    /// decimal notation.
    pub renewal_threshold: Setting<String>,
    /// `LOG_FORMAT`
    pub log_format: Option<String>,
}

/// The settings of one keeper.  Nothing changes them once they are made.
#[derive(Debug, Clone)]
pub struct Config {
    pub vault_addr: String,
    pub vault_auth_role: String,
    pub vault_auth_mount: String,
    pub vault_pki_role: String,
    pub vault_pki_mount: String,
    pub vault_namespace: Option<String>,
    pub vault_cacert: Option<String>,
    pub cert_common_name: String,
    pub cert_alt_names: Option<String>,
    pub cert_ip_sans: Option<String>,
    pub cert_ttl: String,
    pub cert_dir: String,
    pub listen_addr: SocketAddress,
    pub backend_addr: SocketAddress,
    pub renewal_threshold: RenewalThreshold,
    pub log_format: LogFormat,
}

/// A [`Setting`] with its texts as sequences of characters.
pub enum SettingView<V> {
    Unset,
    Value(V),
    Invalid(Seq<char>),
}

/// What an [`Environment`] holds, as sequences of characters.
pub struct EnvironmentView {
    pub vault_addr: Option<Seq<char>>,
    pub vault_auth_role: Option<Seq<char>>,
    pub vault_auth_mount: Option<Seq<char>>,
    pub vault_pki_role: Option<Seq<char>>,
    pub vault_pki_mount: Option<Seq<char>>,
    pub vault_namespace: Option<Seq<char>>,
    pub vault_cacert: Option<Seq<char>>,
    pub cert_common_name: Option<Seq<char>>,
    pub cert_alt_names: Option<Seq<char>>,
    pub cert_ip_sans: Option<Seq<char>>,
    pub cert_ttl: Option<Seq<char>>,
    pub cert_dir: Option<Seq<char>>,
    pub listen_addr: SettingView<SocketAddress>,
    pub backend_addr: SettingView<SocketAddress>,
    pub renewal_threshold: SettingView<Seq<char>>,
    pub log_format: Option<Seq<char>>,
}

/// What a [`Config`] holds, as sequences of characters and digits.
pub struct ConfigView {
    pub vault_addr: Seq<char>,
    pub vault_auth_role: Seq<char>,
    pub vault_auth_mount: Seq<char>,
    pub vault_pki_role: Seq<char>,
    pub vault_pki_mount: Seq<char>,
    pub vault_namespace: Option<Seq<char>>,
    pub vault_cacert: Option<Seq<char>>,
    pub cert_common_name: Seq<char>,
    pub cert_alt_names: Option<Seq<char>>,
    pub cert_ip_sans: Option<Seq<char>>,
    pub cert_ttl: Seq<char>,
    pub cert_dir: Seq<char>,
    pub listen_addr: SocketAddress,
    pub backend_addr: SocketAddress,
    /// The digits behind the decimal point of the threshold.
    pub renewal_threshold: Seq<u8>,
    pub log_format: LogFormat,
}

/// An address setting as the rules see it.
pub open spec fn address_setting(s: Setting<SocketAddress>) -> SettingView<SocketAddress> {
    match s {
        Setting::Unset => SettingView::Unset,
        Setting::Value(a) => SettingView::Value(a),
        Setting::Invalid(why) => SettingView::Invalid(why@),
    }
}

/// A text setting as the rules see it.
pub open spec fn text_setting(s: Setting<String>) -> SettingView<Seq<char>> {
    match s {
        Setting::Unset => SettingView::Unset,
        Setting::Value(t) => SettingView::Value(t@),
        Setting::Invalid(why) => SettingView::Invalid(why@),
    }
}

impl View for Environment {
    type V = EnvironmentView;

    open spec fn view(&self) -> EnvironmentView {
        EnvironmentView {
            vault_addr: opt_text(self.vault_addr),
            vault_auth_role: opt_text(self.vault_auth_role),
            vault_auth_mount: opt_text(self.vault_auth_mount),
            vault_pki_role: opt_text(self.vault_pki_role),
            vault_pki_mount: opt_text(self.vault_pki_mount),
            vault_namespace: opt_text(self.vault_namespace),
            vault_cacert: opt_text(self.vault_cacert),
            cert_common_name: opt_text(self.cert_common_name),
            cert_alt_names: opt_text(self.cert_alt_names),
            cert_ip_sans: opt_text(self.cert_ip_sans),
            cert_ttl: opt_text(self.cert_ttl),
            cert_dir: opt_text(self.cert_dir),
            listen_addr: address_setting(self.listen_addr),
            backend_addr: address_setting(self.backend_addr),
            renewal_threshold: text_setting(self.renewal_threshold),
            log_format: opt_text(self.log_format),
        }
    }
}

impl View for Config {
    type V = ConfigView;

    open spec fn view(&self) -> ConfigView {
        ConfigView {
            vault_addr: self.vault_addr@,
            vault_auth_role: self.vault_auth_role@,
            vault_auth_mount: self.vault_auth_mount@,
            vault_pki_role: self.vault_pki_role@,
            vault_pki_mount: self.vault_pki_mount@,
            vault_namespace: opt_text(self.vault_namespace),
            vault_cacert: opt_text(self.vault_cacert),
            cert_common_name: self.cert_common_name@,
            cert_alt_names: opt_text(self.cert_alt_names),
            cert_ip_sans: opt_text(self.cert_ip_sans),
            cert_ttl: self.cert_ttl@,
            cert_dir: self.cert_dir@,
            listen_addr: self.listen_addr,
            backend_addr: self.backend_addr,
            renewal_threshold: self.renewal_threshold@,
            log_format: self.log_format,
        }
    }
}

/// Where the listener binds when nothing else is asked: `0.0.0.0:8443`.
pub open spec fn default_listen_addr() -> SocketAddress {
    SocketAddress::V4 { octets: [0u8, 0u8, 0u8, 0u8], port: 8443 }
}

/// Where the backend is expected when nothing else is asked: `127.0.0.1:8080`.
pub open spec fn default_backend_addr() -> SocketAddress {
    SocketAddress::V4 { octets: [127u8, 0u8, 0u8, 1u8], port: 8080 }
}

/// The failure for a variable that must be set and is not.
pub open spec fn missing(name: Seq<char>) -> ErrorView {
    ErrorView::Config("required environment variable "@ + name + " is not set"@)
}

/// The failure for a variable whose text could not be read.
pub open spec fn unreadable(name: Seq<char>, why: Seq<char>) -> ErrorView {
    ErrorView::Config("invalid "@ + name + ": "@ + why)
}

/// The failure for a threshold that is not a number from 0 up to, not
/// including, 1.
pub open spec fn threshold_out_of_range() -> ErrorView {
    ErrorView::Config("RENEWAL_THRESHOLD must be between 0.0 and 1.0"@)
}

/// The failure for a log format that is neither of the two known.
pub open spec fn unknown_log_format(lower: Seq<char>) -> ErrorView {
    ErrorView::Config("invalid LOG_FORMAT '"@ + lower + "': must be 'json' or 'pretty'"@)
}

/// The value of a variable, or the given text where it is not set.
pub open spec fn or_default(value: Option<Seq<char>>, default: Seq<char>) -> Seq<char> {
    match value {
        Some(v) => v,
        None => default,
    }
}

/// The threshold as decimal text: what was read, or `0.66`.
pub open spec fn threshold_text(setting: SettingView<Seq<char>>) -> Seq<char> {
    match setting {
        SettingView::Value(t) => t,
        _ => "0.66"@,
    }
}

/// The address that was read, or the given one where the variable is not set.
pub open spec fn address_or(setting: SettingView<SocketAddress>, default: SocketAddress)
    -> SocketAddress {
    match setting {
        SettingView::Value(a) => a,
        _ => default,
    }
}

/// The log format named by `lower`, a text already in lowercase.
pub open spec fn log_format_named(lower: Seq<char>) -> Option<LogFormat> {
    if lower == "json"@ {
        Some(LogFormat::Json)
    } else if lower == "pretty"@ {
        Some(LogFormat::Pretty)
    } else {
        None
    }
}

/// The settings that an environment yields, or the first failure in the order
/// in which the variables are examined: the four that must be set, the two
/// addresses, the threshold, the log format.
pub open spec fn configured(env: EnvironmentView) -> Result<ConfigView, ErrorView> {
    let lower = lowercased(or_default(env.log_format, "json"@));
    if env.vault_addr is None {
        Err(missing("VAULT_ADDR"@))
    } else if env.vault_auth_role is None {
        Err(missing("VAULT_AUTH_ROLE"@))
    } else if env.vault_pki_role is None {
        Err(missing("VAULT_PKI_ROLE"@))
    } else if env.cert_common_name is None {
        Err(missing("CERT_COMMON_NAME"@))
    } else if env.listen_addr is Invalid {
        Err(unreadable("LISTEN_ADDR"@, env.listen_addr->Invalid_0))
    } else if env.backend_addr is Invalid {
        Err(unreadable("BACKEND_ADDR"@, env.backend_addr->Invalid_0))
    } else if env.renewal_threshold is Invalid {
        Err(unreadable("RENEWAL_THRESHOLD"@, env.renewal_threshold->Invalid_0))
    } else if decimal_fraction(threshold_text(env.renewal_threshold)) is None {
        Err(threshold_out_of_range())
    } else if log_format_named(lower) is None {
        Err(unknown_log_format(lower))
    } else {
        Ok(
            ConfigView {
                vault_addr: env.vault_addr->0,
                vault_auth_role: env.vault_auth_role->0,
                vault_auth_mount: or_default(env.vault_auth_mount, "kubernetes"@),
                vault_pki_role: env.vault_pki_role->0,
                vault_pki_mount: or_default(env.vault_pki_mount, "pki"@),
                vault_namespace: env.vault_namespace,
                vault_cacert: env.vault_cacert,
                cert_common_name: env.cert_common_name->0,
                cert_alt_names: env.cert_alt_names,
                cert_ip_sans: env.cert_ip_sans,
                cert_ttl: or_default(env.cert_ttl, "24h"@),
                cert_dir: or_default(env.cert_dir, "/certs"@),
                listen_addr: address_or(env.listen_addr, default_listen_addr()),
                backend_addr: address_or(env.backend_addr, default_backend_addr()),
                renewal_threshold: decimal_fraction(threshold_text(env.renewal_threshold))->0,
                log_format: log_format_named(lower)->0,
            },
        )
    }
}

/// Threshold bounds.  A threshold that is set to a number below 0, or to 1
/// or more, is rejected: the environment yields no settings, and where
/// nothing examined earlier is at fault, the failure says what the
/// threshold must be.
pub proof fn threshold_outside_unit_interval_is_rejected(env: EnvironmentView)
    requires
        env.renewal_threshold is Value,
        read_decimal(env.renewal_threshold->Value_0) is Some,
        !in_unit_interval(read_decimal(env.renewal_threshold->Value_0)->0),
    ensures
        configured(env) is Err,
        env.vault_addr is Some && env.vault_auth_role is Some && env.vault_pki_role is Some
            && env.cert_common_name is Some && !(env.listen_addr is Invalid) && !(
        env.backend_addr is Invalid) ==> configured(env) == Err::<ConfigView, ErrorView>(
            threshold_out_of_range(),
        ),
{
}

/// A threshold that is no number at all is rejected as well.
pub proof fn threshold_that_is_no_number_is_rejected(env: EnvironmentView)
    requires
        env.renewal_threshold is Value,
        read_decimal(env.renewal_threshold->Value_0) is None,
    ensures
        configured(env) is Err,
{
}

/// Settings are made only with a threshold in range: what they hold is the
/// fraction that was set, or that of the default.
pub proof fn settings_hold_the_threshold(env: EnvironmentView)
    requires
        configured(env) is Ok,
    ensures
        !(env.renewal_threshold is Invalid),
        decimal_fraction(threshold_text(env.renewal_threshold)) == Some(
            configured(env)->Ok_0.renewal_threshold,
        ),
{
}

fn required(value: Option<String>, name: &str) -> (got: Result<String, Error>)
    ensures
        match got {
            Ok(v) => opt_text(value) == Some(v@),
            Err(e) => value is None && e@ == missing(name@),
        },
{
    match value {
        Some(v) => Ok(v),
        None => Err(Error::Config(join3("required environment variable ", name, " is not set"))),
    }
}

fn text_or(value: Option<String>, default: &str) -> (got: String)
    ensures
        got@ == or_default(opt_text(value), default@),
{
    match value {
        Some(v) => v,
        None => String::from_str(default),
    }
}

fn address(setting: Setting<SocketAddress>, name: &str, default: SocketAddress) -> (got: Result<
    SocketAddress,
    Error,
>)
    ensures
        match got {
            Ok(a) => !(setting is Invalid) && a == address_or(address_setting(setting), default),
            Err(e) => setting is Invalid && e@ == unreadable(name@, setting->Invalid_0@),
        },
{
    match setting {
        Setting::Unset => Ok(default),
        Setting::Value(a) => Ok(a),
        Setting::Invalid(why) => {
            let head = join3("invalid ", name, ": ");
            Err(Error::Config(head.concat(why.as_str())))
        },
    }
}

fn threshold(setting: Setting<String>) -> (got: Result<RenewalThreshold, Error>)
    ensures
        match got {
            Ok(t) => !(setting is Invalid) && decimal_fraction(
                threshold_text(text_setting(setting)),
            ) == Some(t@),
            Err(e) => if setting is Invalid {
                e@ == unreadable("RENEWAL_THRESHOLD"@, setting->Invalid_0@)
            } else {
                decimal_fraction(threshold_text(text_setting(setting))) is None && e@
                    == threshold_out_of_range()
            },
        },
{
    let parsed = match setting {
        Setting::Unset => RenewalThreshold::from_decimal("0.66"),
        Setting::Value(t) => RenewalThreshold::from_decimal(t.as_str()),
        Setting::Invalid(why) => {
            let head = join3("invalid ", "RENEWAL_THRESHOLD", ": ");
            return Err(Error::Config(head.concat(why.as_str())));
        },
    };
    match parsed {
        Some(t) => Ok(t),
        None => Err(
            Error::Config(String::from_str("RENEWAL_THRESHOLD must be between 0.0 and 1.0")),
        ),
    }
}

fn log_format(value: Option<String>) -> (got: Result<LogFormat, Error>)
    ensures
        match got {
            Ok(f) => log_format_named(lowercased(or_default(opt_text(value), "json"@))) == Some(f),
            Err(e) => {
                let lower = lowercased(or_default(opt_text(value), "json"@));
                log_format_named(lower) is None && e@ == unknown_log_format(lower)
            },
        },
{
    let lower = match value {
        Some(v) => lowercase(v.as_str()),
        None => lowercase("json"),
    };
    match LogFormat::named(lower.as_str()) {
        Some(format) => Ok(format),
        None => Err(
            Error::Config(
                join3("invalid LOG_FORMAT '", lower.as_str(), "': must be 'json' or 'pretty'"),
            ),
        ),
    }
}

impl LogFormat {
    /// The log format with the given name, which is taken as it stands:
    /// `json` or `pretty`, in lowercase.
    pub fn named(lower: &str) -> (format: Option<LogFormat>)
        ensures
            format == log_format_named(lower@),
    {
        if same_text(lower, "json") {
            Some(LogFormat::Json)
        } else if same_text(lower, "pretty") {
            Some(LogFormat::Pretty)
        } else {
            None
        }
    }
}

impl Config {
    /// Makes the settings from what the environment holds.
    ///
    /// Four variables must be set.  The others have defaults.  The threshold
    /// must be a number from 0 up to, not including, 1, and the log format,
    /// whatever its case, `json` or `pretty`.  The first rule that is broken,
    /// in the order of [`configured`], decides the failure.
    pub fn from_env(env: Environment) -> (made: Result<Config, Error>)
        ensures
            match made {
                Ok(config) => configured(env@) == Ok::<ConfigView, ErrorView>(config@),
                Err(e) => configured(env@) == Err::<ConfigView, ErrorView>(e@),
            },
    {
        let vault_addr = match required(env.vault_addr, "VAULT_ADDR") {
            Ok(v) => v,
            Err(e) => {
                return Err(e);
            },
        };
        let vault_auth_role = match required(env.vault_auth_role, "VAULT_AUTH_ROLE") {
            Ok(v) => v,
            Err(e) => {
                return Err(e);
            },
        };
        let vault_pki_role = match required(env.vault_pki_role, "VAULT_PKI_ROLE") {
            Ok(v) => v,
            Err(e) => {
                return Err(e);
            },
        };
        let cert_common_name = match required(env.cert_common_name, "CERT_COMMON_NAME") {
            Ok(v) => v,
            Err(e) => {
                return Err(e);
            },
        };
        let vault_auth_mount = text_or(env.vault_auth_mount, "kubernetes");
        let vault_pki_mount = text_or(env.vault_pki_mount, "pki");
        let cert_ttl = text_or(env.cert_ttl, "24h");
        let cert_dir = text_or(env.cert_dir, "/certs");
        let listen_default = SocketAddress::V4 { octets: [0u8, 0u8, 0u8, 0u8], port: 8443 };
        let listen_addr = match address(env.listen_addr, "LISTEN_ADDR", listen_default) {
            Ok(a) => a,
            Err(e) => {
                return Err(e);
            },
        };
        let backend_default = SocketAddress::V4 { octets: [127u8, 0u8, 0u8, 1u8], port: 8080 };
        let backend_addr = match address(env.backend_addr, "BACKEND_ADDR", backend_default) {
            Ok(a) => a,
            Err(e) => {
                return Err(e);
            },
        };
        let renewal_threshold = match threshold(env.renewal_threshold) {
            Ok(t) => t,
            Err(e) => {
                return Err(e);
            },
        };
        let log_format = match log_format(env.log_format) {
            Ok(f) => f,
            Err(e) => {
                return Err(e);
            },
        };
        let config = Config {
            vault_addr,
            vault_auth_role,
            vault_auth_mount,
            vault_pki_role,
            vault_pki_mount,
            vault_namespace: env.vault_namespace,
            vault_cacert: env.vault_cacert,
            cert_common_name,
            cert_alt_names: env.cert_alt_names,
            cert_ip_sans: env.cert_ip_sans,
            cert_ttl,
            cert_dir,
            listen_addr,
            backend_addr,
            renewal_threshold,
            log_format,
        };
        Ok(config)
    }
}

} // verus!
