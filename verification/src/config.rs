//! The configuration: what the `autospot.toml` file documented in the readme says, and which
//! of the things it can say are acceptable.

use crate::text::{eq_ignore_ascii_case, to_decimal, trim};
use crate::time::Duration;
use vstd::prelude::*;

verus! {

/// Name of the config file looked up next to the executable when no path is given.
pub const DEFAULT_FILE_NAME: &'static str = "autospot.toml";

/// The `uplink_adapter`/`hotspot_adapter` value that means "let Autospot resolve this
/// automatically instead of using a specific configured adapter".
pub const AUTO_ADAPTER: &'static str = "auto";

/// Is an adapter setting the [`AUTO_ADAPTER`] sentinel?
pub fn is_auto(value: &str) -> (r: bool)
    ensures
        r == crate::text::reads_like(value@, AUTO_ADAPTER@),
{
    eq_ignore_ascii_case(trim(value), AUTO_ADAPTER)
}

/// The whole configuration.
#[derive(Debug, Clone, PartialEq, Eq)]
pub struct Config {
    pub monitor: MonitorConfig,
    pub hotspot: HotspotConfig,
    pub companion: CompanionConfig,
    pub logging: LoggingConfig,
}

/// Why a configuration is not acceptable.
#[derive(Debug, Clone, PartialEq, Eq)]
pub enum ConfigError {
    /// The text is not TOML, or not TOML of the right shape, for the reason given.
    Syntax { reason: String },
    ZeroPollInterval,
    ZeroDisconnectThreshold,
    EmptySsid,
    /// The SSID is this many bytes long.
    SsidTooLong { len: usize },
    /// The passphrase is this many characters long.
    PassphraseLength { len: usize },
    EmptyUplinkAdapter,
    EmptyHotspotAdapter,
    SameAdapter,
    /// This setting does not name a level.
    UnknownLevel { key: &'static str, value: String },
}

/// What a [`ConfigError`] says.
pub ghost enum Fault {
    Syntax { reason: Seq<char> },
    ZeroPollInterval,
    ZeroDisconnectThreshold,
    EmptySsid,
    SsidTooLong { len: nat },
    PassphraseLength { len: nat },
    EmptyUplinkAdapter,
    EmptyHotspotAdapter,
    SameAdapter,
    UnknownLevel { key: Seq<char>, value: Seq<char> },
}

impl View for ConfigError {
    type V = Fault;

    open spec fn view(&self) -> Fault {
        match *self {
            ConfigError::Syntax { reason } => Fault::Syntax { reason: reason@ },
            ConfigError::ZeroPollInterval => Fault::ZeroPollInterval,
            ConfigError::ZeroDisconnectThreshold => Fault::ZeroDisconnectThreshold,
            ConfigError::EmptySsid => Fault::EmptySsid,
            ConfigError::SsidTooLong { len } => Fault::SsidTooLong { len: len as nat },
            ConfigError::PassphraseLength { len } => Fault::PassphraseLength { len: len as nat },
            ConfigError::EmptyUplinkAdapter => Fault::EmptyUplinkAdapter,
            ConfigError::EmptyHotspotAdapter => Fault::EmptyHotspotAdapter,
            ConfigError::SameAdapter => Fault::SameAdapter,
            ConfigError::UnknownLevel { key, value } => Fault::UnknownLevel {
                key: key@,
                value: value@,
            },
        }
    }
}

impl Fault {
    /// What the user is told.
    pub open spec fn message(self) -> Seq<char> {
        match self {
            Fault::Syntax { reason } => "config is not valid TOML: "@ + reason,
            Fault::ZeroPollInterval => "monitor.poll_interval_secs must be at least 1"@,
            Fault::ZeroDisconnectThreshold =>
                "monitor.disconnect_threshold_secs must be at least 1"@,
            Fault::EmptySsid => "hotspot.ssid must not be empty"@,
            Fault::SsidTooLong { len } => "hotspot.ssid must be at most 32 bytes, got "@
                + crate::text::decimal(len),
            Fault::PassphraseLength { len } => "hotspot.passphrase must be 8-63 characters, got "@
                + crate::text::decimal(len),
            Fault::EmptyUplinkAdapter => "hotspot.uplink_adapter must not be empty"@,
            Fault::EmptyHotspotAdapter => "hotspot.hotspot_adapter must not be empty"@,
            Fault::SameAdapter =>
                "hotspot.uplink_adapter and hotspot.hotspot_adapter must not both name the same adapter -- it can't be its own uplink and its own hotspot at once"@,
            Fault::UnknownLevel { key, value } => key
                + " must be one of error|warn|info|debug|trace, got '"@ + value + "'"@,
        }
    }
}

impl ConfigError {
    /// What to tell the user.
    pub fn message(&self) -> (r: String)
        ensures
            r@ == self@.message(),
    {
        match self {
            ConfigError::Syntax { reason } => {
                let mut r = "config is not valid TOML: ".to_string();
                r.append(reason.as_str());
                r
            },
            ConfigError::ZeroPollInterval =>
                "monitor.poll_interval_secs must be at least 1".to_string(),
            ConfigError::ZeroDisconnectThreshold =>
                "monitor.disconnect_threshold_secs must be at least 1".to_string(),
            ConfigError::EmptySsid => "hotspot.ssid must not be empty".to_string(),
            ConfigError::SsidTooLong { len } => {
                let mut r = "hotspot.ssid must be at most 32 bytes, got ".to_string();
                r.append(to_decimal(*len as u64).as_str());
                r
            },
            ConfigError::PassphraseLength { len } => {
                let mut r = "hotspot.passphrase must be 8-63 characters, got ".to_string();
                r.append(to_decimal(*len as u64).as_str());
                r
            },
            ConfigError::EmptyUplinkAdapter =>
                "hotspot.uplink_adapter must not be empty".to_string(),
            ConfigError::EmptyHotspotAdapter =>
                "hotspot.hotspot_adapter must not be empty".to_string(),
            ConfigError::SameAdapter =>
                "hotspot.uplink_adapter and hotspot.hotspot_adapter must not both name the same adapter -- it can't be its own uplink and its own hotspot at once".to_string(),
            ConfigError::UnknownLevel { key, value } => {
                let mut r = (*key).to_string();
                r.append(" must be one of error|warn|info|debug|trace, got '");
                r.append(value.as_str());
                r.append("'");
                r
            },
        }
    }
}

impl Config {
    /// What is wrong with this configuration, if anything: the first fault of its sections in
    /// the order monitor, hotspot, logging.
    pub open spec fn fault(self) -> Option<Fault> {
        if self.monitor.fault() is Some {
            self.monitor.fault()
        } else if self.hotspot.fault() is Some {
            self.hotspot.fault()
        } else {
            self.logging.fault()
        }
    }

    /// Accept a config that was read from a TOML text, or say what is wrong with it. `parsed`
    /// is what the text says, or why it says nothing.
    pub fn from_toml(parsed: Result<Config, String>) -> (r: Result<Config, ConfigError>)
        ensures
            match parsed {
                Err(reason) => r matches Err(e) && e@ == (Fault::Syntax { reason: reason@ }),
                Ok(config) => match config.fault() {
                    Some(fault) => r matches Err(e) && e@ == fault,
                    None => r == Ok::<Config, ConfigError>(config),
                },
            },
    {
        let config = match parsed {
            Ok(config) => config,
            Err(reason) => return Err(ConfigError::Syntax { reason }),
        };
        if let Err(e) = config.monitor.validate() {
            return Err(e);
        }
        if let Err(e) = config.hotspot.validate() {
            return Err(e);
        }
        if let Err(e) = config.logging.validate() {
            return Err(e);
        }
        Ok(config)
    }
}

// --- [monitor] -------------------------------------------------------------------

/// How Wi-Fi is watched.
#[derive(Debug, Clone, PartialEq, Eq)]
pub struct MonitorConfig {
    /// How often to sample Wi-Fi state.
    pub poll_interval_secs: u64,
    /// How long Wi-Fi must stay down before the hotspot is switched on.
    pub disconnect_threshold_secs: u64,
    /// Switch the hotspot back off once Wi-Fi returns.
    pub auto_disable_on_reconnect: bool,
}

/// The poll interval when none is set.
pub fn default_poll_interval_secs() -> (r: u64)
    ensures
        r == 5,
{
    5
}

/// The disconnect threshold when none is set: two minutes.
pub fn default_disconnect_threshold_secs() -> (r: u64)
    ensures
        r == 120,
{
    120
}

/// Switches are on when not set.
pub fn default_true() -> (r: bool)
    ensures
        r,
{
    true
}

impl Default for MonitorConfig {
    fn default() -> (m: Self)
        ensures
            m == (MonitorConfig {
                poll_interval_secs: 5,
                disconnect_threshold_secs: 120,
                auto_disable_on_reconnect: true,
            }),
    {
        Self {
            poll_interval_secs: default_poll_interval_secs(),
            disconnect_threshold_secs: default_disconnect_threshold_secs(),
            auto_disable_on_reconnect: default_true(),
        }
    }
}

impl MonitorConfig {
    /// How long to wait between polls, in nanoseconds.
    pub open spec fn polls_every(self) -> nat {
        (self.poll_interval_secs * crate::time::NANOS_PER_SEC) as nat
    }

    /// How long Wi-Fi must stay down before the hotspot goes up, in nanoseconds.
    pub open spec fn waits_for(self) -> nat {
        (self.disconnect_threshold_secs * crate::time::NANOS_PER_SEC) as nat
    }

    /// How long to wait between polls.
    pub fn poll_interval(&self) -> (d: Duration)
        ensures
            d@ == self.polls_every(),
    {
        Duration::from_secs(self.poll_interval_secs)
    }

    /// How long Wi-Fi must stay down before the hotspot goes up.
    pub fn disconnect_threshold(&self) -> (d: Duration)
        ensures
            d@ == self.waits_for(),
    {
        Duration::from_secs(self.disconnect_threshold_secs)
    }

    /// A zero interval would spin the watchdog loop; a zero threshold would make it
    /// fire before the first poll even completes.
    pub open spec fn fault(self) -> Option<Fault> {
        if self.poll_interval_secs == 0 {
            Some(Fault::ZeroPollInterval)
        } else if self.disconnect_threshold_secs == 0 {
            Some(Fault::ZeroDisconnectThreshold)
        } else {
            None
        }
    }

    /// Check the section -- see [`MonitorConfig::fault`].
    pub fn validate(&self) -> (r: Result<(), ConfigError>)
        ensures
            match r {
                Ok(()) => self.fault() is None,
                Err(e) => self.fault() == Some(e@),
            },
    {
        if self.poll_interval_secs == 0 {
            return Err(ConfigError::ZeroPollInterval);
        }
        if self.disconnect_threshold_secs == 0 {
            return Err(ConfigError::ZeroDisconnectThreshold);
        }
        Ok(())
    }
}

// --- [hotspot] -------------------------------------------------------------------

/// What hotspot to create, and whose connection it shares.
#[derive(Debug, Clone, PartialEq, Eq)]
pub struct HotspotConfig {
    pub ssid: String,
    pub passphrase: String,
    pub band: Band,
    /// Adapter whose connection is shared. Matched against the adapter's friendly name
    /// ("Ethernet"), its hardware description, or the network profile name,
    /// case-insensitively. The literal value `"auto"` instead picks, on every lookup,
    /// a wired Ethernet adapter over any other adapter type outright, regardless of
    /// connectivity; connectivity rank only breaks a tie between candidates of the same
    /// type. Either way, the hotspot's own virtual adapter and whatever `hotspot_adapter`
    /// resolves to are always skipped -- one adapter can't be both its own uplink and
    /// its own hotspot.
    pub uplink_adapter: String,
    /// Adapter Windows will use to broadcast the hotspot's own Wi-Fi access point.
    /// Resolved automatically ("auto", the default) when there is exactly one Wi-Fi
    /// adapter present; with two or more Wi-Fi adapters it's ambiguous which one Windows
    /// will actually use, so it must be set explicitly here (together with
    /// `uplink_adapter`, if that also needs pinning down). This is only used to keep
    /// `uplink_adapter` from ever resolving to the same adapter: one Wi-Fi radio can't
    /// reliably act as both a client and an access point at the same time, which is why
    /// a hotspot started this way tends to accept clients but never hand out an IP.
    pub hotspot_adapter: String,
}

/// The hotspot adapter when none is set.
pub fn default_hotspot_adapter() -> (r: String)
    ensures
        r@ == AUTO_ADAPTER@,
{
    AUTO_ADAPTER.to_string()
}

/// WPA2-PSK limits, enforced by Windows: an SSID is at most 32 bytes and a passphrase is
/// 8 to 63 characters. Checked here because Windows would otherwise only report a bare
/// invalid-argument error much later.
pub const SSID_MAX_BYTES: usize = 32;

/// The shortest passphrase, in characters -- see [`SSID_MAX_BYTES`].
pub const PASSPHRASE_MIN_CHARS: usize = 8;

/// The longest passphrase, in characters -- see [`SSID_MAX_BYTES`].
pub const PASSPHRASE_MAX_CHARS: usize = 63;

impl HotspotConfig {
    /// Is the uplink left to automatic selection?
    pub open spec fn auto_uplink(self) -> bool {
        crate::text::reads_like(self.uplink_adapter@, AUTO_ADAPTER@)
    }

    /// Is the hotspot adapter left to automatic detection?
    pub open spec fn auto_hotspot_adapter(self) -> bool {
        crate::text::reads_like(self.hotspot_adapter@, AUTO_ADAPTER@)
    }

    /// Is `uplink_adapter` set to the auto-selection sentinel?
    pub fn is_auto_uplink(&self) -> (r: bool)
        ensures
            r == self.auto_uplink(),
    {
        is_auto(self.uplink_adapter.as_str())
    }

    /// Is `hotspot_adapter` set to the auto-detection sentinel?
    pub fn is_auto_hotspot_adapter(&self) -> (r: bool)
        ensures
            r == self.auto_hotspot_adapter(),
    {
        is_auto(self.hotspot_adapter.as_str())
    }

    /// What is wrong with the section, if anything.
    ///
    /// Two "auto"s aren't a conflict -- neither is pinned down yet, and that is
    /// resolved (or reported) at runtime rather than here.
    pub open spec fn fault(self) -> Option<Fault> {
        let ssid_bytes = vstd::utf8::encode_utf8(self.ssid@).len();
        if ssid_bytes == 0 {
            Some(Fault::EmptySsid)
        } else if ssid_bytes > SSID_MAX_BYTES {
            Some(Fault::SsidTooLong { len: ssid_bytes })
        } else if !(PASSPHRASE_MIN_CHARS <= self.passphrase@.len() <= PASSPHRASE_MAX_CHARS) {
            Some(Fault::PassphraseLength { len: self.passphrase@.len() })
        } else if crate::text::trimmed(self.uplink_adapter@).len() == 0 {
            Some(Fault::EmptyUplinkAdapter)
        } else if crate::text::trimmed(self.hotspot_adapter@).len() == 0 {
            Some(Fault::EmptyHotspotAdapter)
        } else if !self.auto_uplink() && !self.auto_hotspot_adapter() && crate::text::ascii_lower(
            crate::text::trimmed(self.uplink_adapter@),
        ) == crate::text::ascii_lower(crate::text::trimmed(self.hotspot_adapter@)) {
            Some(Fault::SameAdapter)
        } else {
            None
        }
    }

    /// Check the section -- see [`HotspotConfig::fault`].
    pub fn validate(&self) -> (r: Result<(), ConfigError>)
        ensures
            match r {
                Ok(()) => self.fault() is None,
                Err(e) => self.fault() == Some(e@),
            },
    {
        let ssid_len: usize = self.ssid.as_str().as_bytes().len();
        if ssid_len == 0 {
            return Err(ConfigError::EmptySsid);
        }
        if ssid_len > SSID_MAX_BYTES {
            return Err(ConfigError::SsidTooLong { len: ssid_len });
        }
        let pass_len: usize = self.passphrase.as_str().unicode_len();
        if pass_len < PASSPHRASE_MIN_CHARS || pass_len > PASSPHRASE_MAX_CHARS {
            return Err(ConfigError::PassphraseLength { len: pass_len });
        }
        let uplink = trim(self.uplink_adapter.as_str());
        let hotspot = trim(self.hotspot_adapter.as_str());
        if uplink.unicode_len() == 0 {
            return Err(ConfigError::EmptyUplinkAdapter);
        }
        if hotspot.unicode_len() == 0 {
            return Err(ConfigError::EmptyHotspotAdapter);
        }
        let both_named = !self.is_auto_uplink() && !self.is_auto_hotspot_adapter();
        if both_named && eq_ignore_ascii_case(uplink, hotspot) {
            return Err(ConfigError::SameAdapter);
        }
        Ok(())
    }
}

/// Wi-Fi band for the access point.
#[derive(Debug, Clone, Copy, PartialEq, Eq, Structural)]
pub enum Band {
    Auto,
    TwoPointFourGigahertz,
    FiveGigahertz,
    SixGigahertz,
}

impl Default for Band {
    fn default() -> (b: Self)
        ensures
            b == Band::Auto,
    {
        Band::Auto
    }
}

// --- [companion] -----------------------------------------------------------------

/// Whether to report Wi-Fi/hotspot status to a companion microcontroller over serial, and
/// which USB device that is.
#[derive(Debug, Clone, Copy, PartialEq, Eq)]
pub struct CompanionConfig {
    pub enabled: bool,
    pub vid: Option<u16>,
    pub pid: Option<u16>,
}

impl Default for CompanionConfig {
    fn default() -> (c: Self)
        ensures
            c == (CompanionConfig { enabled: false, vid: None, pid: None }),
    {
        CompanionConfig { enabled: false, vid: None, pid: None }
    }
}

// --- [logging] -------------------------------------------------------------------

/// What is logged, and where to.
#[derive(Debug, Clone, PartialEq, Eq)]
pub struct LoggingConfig {
    /// Level for the rotated log file. Defaults to `error` so routine status lines
    /// don't pile up on disk -- the console is the primary place output is read.
    pub file_level: String,
    /// Level for the console. Defaults to `info` so the status line is visible while
    /// the app runs in the foreground.
    pub stdout_level: String,
    /// Level for the rotated log file when running as the Windows service. There is no
    /// console in that mode, so the file is the only place output is read -- defaults
    /// to `info`, matching what `stdout_level` would otherwise have shown live.
    pub service_level: String,
    /// Log file path. A relative path is resolved against the log directory of whichever
    /// mode is running -- see `logging::Mode`.
    pub path: String,
}

/// The file level when none is set.
pub fn default_file_log_level() -> (r: String)
    ensures
        r@ == "error"@,
{
    "error".to_string()
}

/// The console level when none is set.
pub fn default_stdout_log_level() -> (r: String)
    ensures
        r@ == "info"@,
{
    "info".to_string()
}

/// The service's file level when none is set.
pub fn default_service_log_level() -> (r: String)
    ensures
        r@ == "info"@,
{
    "info".to_string()
}

/// The log file when none is set.
pub fn default_log_path() -> (r: String)
    ensures
        r@ == "autospot.log"@,
{
    "autospot.log".to_string()
}

impl Default for LoggingConfig {
    fn default() -> (l: Self)
        ensures
            l.file_level@ == "error"@,
            l.stdout_level@ == "info"@,
            l.service_level@ == "info"@,
            l.path@ == "autospot.log"@,
    {
        Self {
            file_level: default_file_log_level(),
            stdout_level: default_stdout_log_level(),
            service_level: default_service_log_level(),
            path: default_log_path(),
        }
    }
}

impl LoggingConfig {
    /// The first level setting that names no level, if there is one.
    pub open spec fn fault(self) -> Option<Fault> {
        if level_named(self.file_level@) is None {
            Some(Fault::UnknownLevel { key: "logging.file_level"@, value: self.file_level@ })
        } else if level_named(self.stdout_level@) is None {
            Some(Fault::UnknownLevel { key: "logging.stdout_level"@, value: self.stdout_level@ })
        } else if level_named(self.service_level@) is None {
            Some(Fault::UnknownLevel { key: "logging.service_level"@, value: self.service_level@ })
        } else {
            None
        }
    }

    /// Check the section -- see [`LoggingConfig::fault`].
    pub fn validate(&self) -> (r: Result<(), ConfigError>)
        ensures
            match r {
                Ok(()) => self.fault() is None,
                Err(e) => self.fault() == Some(e@),
            },
    {
        if let Err(e) = check_level("logging.file_level", &self.file_level) {
            return Err(e);
        }
        if let Err(e) = check_level("logging.stdout_level", &self.stdout_level) {
            return Err(e);
        }
        check_level("logging.service_level", &self.service_level)
    }
}

/// Check that `value`, the setting of `key`, names a level.
fn check_level(key: &'static str, value: &String) -> (r: Result<(), ConfigError>)
    ensures
        match r {
            Ok(()) => level_named(value@) is Some,
            Err(e) => level_named(value@) is None && e@ == (Fault::UnknownLevel {
                key: key@,
                value: value@,
            }),
        },
{
    match parse_level(value.as_str()) {
        Some(_) => Ok(()),
        None => Err(ConfigError::UnknownLevel { key, value: value.as_str().to_string() }),
    }
}

/// How much is logged, from least to most.
#[derive(Debug, Clone, Copy, PartialEq, Eq, Structural)]
pub enum Level {
    Error,
    Warn,
    Info,
    Debug,
    Trace,
}

/// The level that `level` names, blanks around it and the case of letters aside.
pub open spec fn level_named(level: Seq<char>) -> Option<Level> {
    if crate::text::reads_like(level, "error"@) {
        Some(Level::Error)
    } else if crate::text::reads_like(level, "warn"@) || crate::text::reads_like(
        level,
        "warning"@,
    ) {
        Some(Level::Warn)
    } else if crate::text::reads_like(level, "info"@) {
        Some(Level::Info)
    } else if crate::text::reads_like(level, "debug"@) {
        Some(Level::Debug)
    } else if crate::text::reads_like(level, "trace"@) {
        Some(Level::Trace)
    } else {
        None
    }
}

/// Map a config level string onto a level. Returns `None` if unrecognised.
pub fn parse_level(level: &str) -> (r: Option<Level>)
    ensures
        r == level_named(level@),
{
    let level = trim(level);
    if eq_ignore_ascii_case(level, "error") {
        Some(Level::Error)
    } else if eq_ignore_ascii_case(level, "warn") || eq_ignore_ascii_case(level, "warning") {
        Some(Level::Warn)
    } else if eq_ignore_ascii_case(level, "info") {
        Some(Level::Info)
    } else if eq_ignore_ascii_case(level, "debug") {
        Some(Level::Debug)
    } else if eq_ignore_ascii_case(level, "trace") {
        Some(Level::Trace)
    } else {
        None
    }
}

// --- laws ------------------------------------------------------------------------

/// A config that is accepted can be used: the loop does not spin, the countdown takes time,
/// Windows takes the SSID and the passphrase, both adapters are named, and every level is
/// one.
pub proof fn law_an_accepted_config_is_usable(config: Config)
    requires
        config.fault() is None,
    ensures
        config.monitor.poll_interval_secs >= 1,
        config.monitor.disconnect_threshold_secs >= 1,
        1 <= vstd::utf8::encode_utf8(config.hotspot.ssid@).len() <= 32,
        8 <= config.hotspot.passphrase@.len() <= 63,
        crate::text::trimmed(config.hotspot.uplink_adapter@).len() > 0,
        crate::text::trimmed(config.hotspot.hotspot_adapter@).len() > 0,
        level_named(config.logging.file_level@) is Some,
        level_named(config.logging.stdout_level@) is Some,
        level_named(config.logging.service_level@) is Some,
{
}

/// In a config that is accepted, the uplink and the hotspot adapter read the same only where
/// both are left to automatic choice.
pub proof fn law_no_adapter_is_its_own_uplink(config: Config)
    requires
        config.fault() is None,
        crate::text::ascii_lower(crate::text::trimmed(config.hotspot.uplink_adapter@))
            == crate::text::ascii_lower(crate::text::trimmed(config.hotspot.hotspot_adapter@)),
    ensures
        config.hotspot.auto_uplink(),
        config.hotspot.auto_hotspot_adapter(),
{
}

/// Every default that a section has is acceptable.
pub proof fn law_defaults_are_acceptable(monitor: MonitorConfig, logging: LoggingConfig)
    requires
        monitor == (MonitorConfig {
            poll_interval_secs: 5,
            disconnect_threshold_secs: 120,
            auto_disable_on_reconnect: true,
        }),
        logging.file_level@ == "error"@,
        logging.stdout_level@ == "info"@,
        logging.service_level@ == "info"@,
    ensures
        monitor.fault() is None,
        logging.fault() is None,
{
    reveal_strlit("error");
    reveal_strlit("info");
    crate::text::lemma_plain_word_is_trimmed("error"@);
    crate::text::lemma_plain_word_is_trimmed("info"@);
}

/// "auto" and the names of the levels are spelled in small letters, and no two of the latter
/// are the same.
proof fn lemma_words()
    ensures
        crate::text::ascii_lower(AUTO_ADAPTER@) == "auto"@,
        crate::text::ascii_lower("error"@) == "error"@,
        crate::text::ascii_lower("warn"@) == "warn"@,
        crate::text::ascii_lower("warning"@) == "warning"@,
        crate::text::ascii_lower("info"@) == "info"@,
        crate::text::ascii_lower("debug"@) == "debug"@,
        crate::text::ascii_lower("trace"@) == "trace"@,
        "error"@[0] == 'e',
        "warn"@[0] == 'w',
        "warning"@[0] == 'w',
        "info"@[0] == 'i',
        "debug"@[0] == 'd',
        "trace"@[0] == 't',
{
    reveal_strlit("auto");
    reveal_strlit("error");
    reveal_strlit("warn");
    reveal_strlit("warning");
    reveal_strlit("info");
    reveal_strlit("debug");
    reveal_strlit("trace");
    crate::text::lemma_small_letters_stay("auto"@);
    crate::text::lemma_small_letters_stay("error"@);
    crate::text::lemma_small_letters_stay("warn"@);
    crate::text::lemma_small_letters_stay("warning"@);
    crate::text::lemma_small_letters_stay("info"@);
    crate::text::lemma_small_letters_stay("debug"@);
    crate::text::lemma_small_letters_stay("trace"@);
}

/// An adapter setting is left to automatic choice if and only if it reads "auto", blanks
/// around it and case aside.
pub proof fn law_auto_is_a_word(hotspot: HotspotConfig)
    ensures
        hotspot.auto_uplink() <==> crate::text::ascii_lower(
            crate::text::trimmed(hotspot.uplink_adapter@),
        ) == "auto"@,
        hotspot.auto_hotspot_adapter() <==> crate::text::ascii_lower(
            crate::text::trimmed(hotspot.hotspot_adapter@),
        ) == "auto"@,
{
    lemma_words();
}

/// The names of the levels, blanks around them and case aside, and no others, name a level.
pub proof fn law_the_names_of_the_levels(level: Seq<char>)
    ensures
        ({
            let word = crate::text::ascii_lower(crate::text::trimmed(level));
            &&& level_named(level) == Some(Level::Error) <==> word == "error"@
            &&& level_named(level) == Some(Level::Warn) <==> word == "warn"@ || word == "warning"@
            &&& level_named(level) == Some(Level::Info) <==> word == "info"@
            &&& level_named(level) == Some(Level::Debug) <==> word == "debug"@
            &&& level_named(level) == Some(Level::Trace) <==> word == "trace"@
        }),
{
    lemma_words();
}

/// A config that keeps within the limits is accepted: the poll interval and the threshold are
/// at least a second, the SSID has one to 32 bytes and the passphrase eight to 63 characters,
/// both adapters are set, they do not read the same unless that is "auto", and every level is
/// one of the known names.
pub proof fn law_a_config_within_the_limits_is_accepted(config: Config)
    requires
        config.monitor.poll_interval_secs >= 1,
        config.monitor.disconnect_threshold_secs >= 1,
        1 <= vstd::utf8::encode_utf8(config.hotspot.ssid@).len() <= 32,
        8 <= config.hotspot.passphrase@.len() <= 63,
        crate::text::trimmed(config.hotspot.uplink_adapter@).len() > 0,
        crate::text::trimmed(config.hotspot.hotspot_adapter@).len() > 0,
        crate::text::ascii_lower(crate::text::trimmed(config.hotspot.uplink_adapter@))
            != crate::text::ascii_lower(crate::text::trimmed(config.hotspot.hotspot_adapter@))
            || crate::text::ascii_lower(crate::text::trimmed(config.hotspot.uplink_adapter@))
            == "auto"@,
        forall|level: Seq<char>|
            level == config.logging.file_level@ || level == config.logging.stdout_level@ || level
                == config.logging.service_level@ ==> ({
                let word = #[trigger] crate::text::ascii_lower(crate::text::trimmed(level));
                ||| word == "error"@
                ||| word == "warn"@
                ||| word == "warning"@
                ||| word == "info"@
                ||| word == "debug"@
                ||| word == "trace"@
            }),
    ensures
        config.fault() is None,
{
    lemma_words();
    law_auto_is_a_word(config.hotspot);
    law_the_names_of_the_levels(config.logging.file_level@);
    law_the_names_of_the_levels(config.logging.stdout_level@);
    law_the_names_of_the_levels(config.logging.service_level@);
}

/// What a config is refused for is so, and everything that is looked at before it is in order.
pub proof fn law_a_config_is_refused_for_its_first_fault(config: Config)
    ensures
        ({
            let monitor = config.monitor;
            let hotspot = config.hotspot;
            let ssid_bytes = vstd::utf8::encode_utf8(hotspot.ssid@).len();
            let pass_chars = hotspot.passphrase@.len();
            let uplink = crate::text::ascii_lower(crate::text::trimmed(hotspot.uplink_adapter@));
            let own = crate::text::ascii_lower(crate::text::trimmed(hotspot.hotspot_adapter@));
            let timed = monitor.poll_interval_secs > 0 && monitor.disconnect_threshold_secs > 0;
            let named = timed && 0 < ssid_bytes <= 32;
            let locked = named && 8 <= pass_chars <= 63;
            let placed = locked && uplink.len() > 0 && own.len() > 0 && (uplink != own || uplink
                == "auto"@);
            match config.fault() {
                None => placed,
                Some(Fault::Syntax { .. }) => false,
                Some(Fault::ZeroPollInterval) => monitor.poll_interval_secs == 0,
                Some(Fault::ZeroDisconnectThreshold) => monitor.poll_interval_secs > 0
                    && monitor.disconnect_threshold_secs == 0,
                Some(Fault::EmptySsid) => timed && ssid_bytes == 0,
                Some(Fault::SsidTooLong { len }) => timed && len == ssid_bytes && len > 32,
                Some(Fault::PassphraseLength { len }) => named && len == pass_chars && (len < 8
                    || len > 63),
                Some(Fault::EmptyUplinkAdapter) => locked && uplink.len() == 0,
                Some(Fault::EmptyHotspotAdapter) => locked && uplink.len() > 0 && own.len() == 0,
                Some(Fault::SameAdapter) => locked && uplink.len() > 0 && uplink == own && uplink
                    != "auto"@,
                Some(Fault::UnknownLevel { key, value }) => {
                    &&& placed
                    &&& level_named(value) is None
                    &&& {
                        ||| key == "logging.file_level"@ && value == config.logging.file_level@
                        ||| key == "logging.stdout_level"@ && value
                            == config.logging.stdout_level@ && level_named(
                            config.logging.file_level@,
                        ) is Some
                        ||| key == "logging.service_level"@ && value
                            == config.logging.service_level@ && level_named(
                            config.logging.file_level@,
                        ) is Some && level_named(config.logging.stdout_level@) is Some
                    }
                },
            }
        }),
{
    lemma_words();
    law_auto_is_a_word(config.hotspot);
}

/// A message names what it is about: a length that is wrong, the reason of a parser, and the
/// setting and the value that name no level.
pub proof fn law_a_message_names_its_subject(
    len: nat,
    reason: Seq<char>,
    key: Seq<char>,
    value: Seq<char>,
)
    ensures
        ({
            let number = crate::text::decimal(len);
            let long = (Fault::SsidTooLong { len }).message();
            let wrong = (Fault::PassphraseLength { len }).message();
            let syntax = (Fault::Syntax { reason }).message();
            let level = (Fault::UnknownLevel { key, value }).message();
            &&& long.len() >= number.len() && long.skip(long.len() - number.len()) == number
            &&& wrong.len() >= number.len() && wrong.skip(wrong.len() - number.len()) == number
            &&& syntax.len() >= reason.len() && syntax.skip(syntax.len() - reason.len()) == reason
            &&& crate::text::has_prefix(level, key)
            &&& exists|at: int|
                0 <= at && at + value.len() <= level.len() && #[trigger] level.subrange(
                    at,
                    at + value.len(),
                ) == value
        }),
{
    let number = crate::text::decimal(len);
    let long = (Fault::SsidTooLong { len }).message();
    let wrong = (Fault::PassphraseLength { len }).message();
    let syntax = (Fault::Syntax { reason }).message();
    let level = (Fault::UnknownLevel { key, value }).message();
    assert(long.skip(long.len() - number.len()) =~= number);
    assert(wrong.skip(wrong.len() - number.len()) =~= number);
    assert(syntax.skip(syntax.len() - reason.len()) =~= reason);
    assert(level.take(key.len() as int) =~= key);
    let at = (key.len() + " must be one of error|warn|info|debug|trace, got '"@.len()) as int;
    assert(level.subrange(at, at + value.len()) =~= value);
}

/// The two times of a config are whole seconds, as many as are configured.
pub proof fn law_times_are_configured_in_seconds(monitor: MonitorConfig)
    ensures
        monitor.polls_every() / 1_000_000_000 == monitor.poll_interval_secs,
        monitor.polls_every() % 1_000_000_000 == 0,
        monitor.waits_for() / 1_000_000_000 == monitor.disconnect_threshold_secs,
        monitor.waits_for() % 1_000_000_000 == 0,
{
}

} // verus!
