//! Startup settings: the three integer keys and their permitted ranges.

use vstd::prelude::*;

verus! {

/// Key holding the UDP port to listen on.
pub const KEY_LISTENING_PORT: &'static str = "listening_port";

/// Key holding the size, in megabytes, at which the active log file is rotated.
pub const KEY_LOG_MAX_SIZE_MB: &'static str = "log_max_size_mb";

/// Key holding how many rotated archives are retained.
pub const KEY_LOG_HISTORY_TO_KEEP: &'static str = "log_history_to_keep";

pub const MAX_LISTENING_PORT: i64 = 65535;

pub const MIN_LOG_MAX_SIZE_MB: i64 = 1;

pub const MAX_LOG_MAX_SIZE_MB: i64 = 100;

pub const MAX_LOG_HISTORY_TO_KEEP: i64 = 1000;

/// Relies on `byte_unit::n_mb_bytes`: `bytes` megabytes of 10^6 bytes each,
/// computed by one multiplication that must not overflow.
pub assume_specification[ byte_unit::n_mb_bytes ](bytes: u128) -> (r: u128)
    requires
        bytes * 1_000_000 <= u128::MAX,
    ensures
        r == bytes * 1_000_000,
;

/// Validated process settings; immutable once built.
pub struct AppConfig {
    pub listening_port: u16,
    pub log_max_size_mb: u128,
    pub log_history_to_keep: u32,
}

impl AppConfig {
    /// Every field lies in its permitted range.
    pub open spec fn valid(&self) -> bool {
        &&& MIN_LOG_MAX_SIZE_MB <= self.log_max_size_mb <= MAX_LOG_MAX_SIZE_MB
        &&& self.log_history_to_keep <= MAX_LOG_HISTORY_TO_KEEP
    }

    /// The size trigger in bytes: `log_max_size_mb` megabytes.
    pub fn trigger_bytes(&self) -> (r: u64)
        requires
            self.valid(),
        ensures
            r == self.log_max_size_mb * 1_000_000,
    {
        byte_unit::n_mb_bytes(self.log_max_size_mb) as u64
    }
}

/// The first setting found outside its permitted range.
#[derive(Debug, Clone, Copy, PartialEq, Eq, Structural)]
pub enum RangeError {
    ListeningPort,
    LogMaxSize,
    LogHistory,
}

impl RangeError {
    /// A human-readable explanation of the violated range.
    pub fn message(&self) -> (r: String)
        ensures
            r@ == range_message(*self),
    {
        match self {
            RangeError::ListeningPort => String::from_str("listening port must be between 0 - 65535"),
            RangeError::LogMaxSize => String::from_str("max log size must be between 1 - 100 (mb)"),
            RangeError::LogHistory => String::from_str("log history must be between 0 - 1000"),
        }
    }
}

pub open spec fn range_message(e: RangeError) -> Seq<char> {
    match e {
        RangeError::ListeningPort => "listening port must be between 0 - 65535"@,
        RangeError::LogMaxSize => "max log size must be between 1 - 100 (mb)"@,
        RangeError::LogHistory => "log history must be between 0 - 1000"@,
    }
}

/// The range violation reported for the given raw values, checked in the
/// order port, size, history; `None` when all three are in range.
pub open spec fn range_violation(port: int, max_size_mb: int, history: int) -> Option<RangeError> {
    if port < 0 || port > MAX_LISTENING_PORT {
        Some(RangeError::ListeningPort)
    } else if max_size_mb < MIN_LOG_MAX_SIZE_MB || max_size_mb > MAX_LOG_MAX_SIZE_MB {
        Some(RangeError::LogMaxSize)
    } else if history < 0 || history > MAX_LOG_HISTORY_TO_KEEP {
        Some(RangeError::LogHistory)
    } else {
        None
    }
}

/// Checks raw setting values against their ranges and builds the settings.
pub fn validate_config(listening_port: i64, log_max_size_mb: i64, log_history_to_keep: i64) -> (r:
    Result<AppConfig, RangeError>)
    ensures
        r is Ok <==> range_violation(
            listening_port as int,
            log_max_size_mb as int,
            log_history_to_keep as int,
        ) is None,
        r matches Err(e) ==> range_violation(
            listening_port as int,
            log_max_size_mb as int,
            log_history_to_keep as int,
        ) == Some(e),
        r matches Ok(c) ==> {
            &&& c.valid()
            &&& c.listening_port == listening_port
            &&& c.log_max_size_mb == log_max_size_mb
            &&& c.log_history_to_keep == log_history_to_keep
        },
{
    if listening_port < 0 || listening_port > MAX_LISTENING_PORT {
        return Err(RangeError::ListeningPort);
    }
    if log_max_size_mb < MIN_LOG_MAX_SIZE_MB || log_max_size_mb > MAX_LOG_MAX_SIZE_MB {
        return Err(RangeError::LogMaxSize);
    }
    if log_history_to_keep < 0 || log_history_to_keep > MAX_LOG_HISTORY_TO_KEEP {
        return Err(RangeError::LogHistory);
    }
    Ok(
        AppConfig {
            listening_port: listening_port as u16,
            log_max_size_mb: log_max_size_mb as u128,
            log_history_to_keep: log_history_to_keep as u32,
        },
    )
}

#[verifier::external_type_specification]
#[verifier::external_body]
pub struct ExConfig(config::Config);

#[verifier::external_type_specification]
#[verifier::external_body]
pub struct ExConfigError(config::ConfigError);

/// A key made of lower-case letters and `_` only: it names one top-level
/// entry, with no path separators or subscripts.
pub open spec fn plain_key(key: Seq<char>) -> bool {
    &&& key.len() > 0
    &&& forall|i: int| 0 <= i < key.len() ==> (('a' <= #[trigger] key[i] && key[i] <= 'z') || key[i] == '_')
}

/// The integer settings held by loaded settings: each key whose value
/// converts to an `i64`, with that value.
pub uninterp spec fn int_settings(cfg: config::Config) -> Map<Seq<char>, i64>;

/// Relies on `config::Config::get_int`: looks `key` up in the settings
/// already loaded into `cfg` and converts the value to an `i64`, or reports
/// that the key is missing or its value is no integer. The key is parsed as
/// a path, and a negative subscript larger than the array it indexes makes
/// the lookup panic; a plain key has no subscript.
pub assume_specification[ config::Config::get_int ](cfg: &config::Config, key: &str) -> (r: Result<
    i64,
    config::ConfigError,
>)
    requires
        plain_key(key@),
    ensures
        r is Ok <==> int_settings(*cfg).contains_key(key@),
        r matches Ok(v) ==> v == int_settings(*cfg)[key@],
;

/// All three keys hold integers in `cfg`.
pub open spec fn keys_present(cfg: config::Config) -> bool {
    &&& int_settings(cfg).contains_key(KEY_LISTENING_PORT@)
    &&& int_settings(cfg).contains_key(KEY_LOG_MAX_SIZE_MB@)
    &&& int_settings(cfg).contains_key(KEY_LOG_HISTORY_TO_KEEP@)
}

/// The range violation of the three values held in `cfg`, if any.
pub open spec fn settings_violation(cfg: config::Config) -> Option<RangeError> {
    range_violation(
        int_settings(cfg)[KEY_LISTENING_PORT@] as int,
        int_settings(cfg)[KEY_LOG_MAX_SIZE_MB@] as int,
        int_settings(cfg)[KEY_LOG_HISTORY_TO_KEEP@] as int,
    )
}

/// Why the settings could not be obtained.
pub enum SettingsError {
    /// A key was missing or did not hold an integer.
    Source(config::ConfigError),
    /// A value was outside its permitted range.
    Range(RangeError),
}

/// Reads the three keys from loaded settings and validates them.
pub fn app_config(cfg: &config::Config) -> (r: Result<AppConfig, SettingsError>)
    ensures
        r is Ok <==> keys_present(*cfg) && settings_violation(*cfg) is None,
        r matches Ok(c) ==> {
            &&& c.valid()
            &&& c.listening_port == int_settings(*cfg)[KEY_LISTENING_PORT@]
            &&& c.log_max_size_mb == int_settings(*cfg)[KEY_LOG_MAX_SIZE_MB@]
            &&& c.log_history_to_keep == int_settings(*cfg)[KEY_LOG_HISTORY_TO_KEEP@]
        },
        r matches Err(SettingsError::Source(_)) ==> !keys_present(*cfg),
        r matches Err(SettingsError::Range(e)) ==> keys_present(*cfg) && settings_violation(*cfg)
            == Some(e),
{
    proof {
        reveal_strlit("listening_port");
        reveal_strlit("log_max_size_mb");
        reveal_strlit("log_history_to_keep");
    }
    let listening_port = match cfg.get_int(KEY_LISTENING_PORT) {
        Ok(v) => v,
        Err(e) => return Err(SettingsError::Source(e)),
    };
    let log_max_size_mb = match cfg.get_int(KEY_LOG_MAX_SIZE_MB) {
        Ok(v) => v,
        Err(e) => return Err(SettingsError::Source(e)),
    };
    let log_history_to_keep = match cfg.get_int(KEY_LOG_HISTORY_TO_KEEP) {
        Ok(v) => v,
        Err(e) => return Err(SettingsError::Source(e)),
    };
    match validate_config(listening_port, log_max_size_mb, log_history_to_keep) {
        Ok(c) => Ok(c),
        Err(e) => Err(SettingsError::Range(e)),
    }
}

} // verus!
