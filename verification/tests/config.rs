//! The configuration.

use autospot::config::{
    default_disconnect_threshold_secs, default_file_log_level, default_hotspot_adapter,
    default_log_path, default_poll_interval_secs, default_service_log_level,
    default_stdout_log_level, default_true, is_auto, parse_level, Band, CompanionConfig, Config,
    ConfigError, HotspotConfig, Level, LoggingConfig, MonitorConfig, AUTO_ADAPTER,
    DEFAULT_FILE_NAME, SSID_MAX_BYTES,
};
use autospot::time::Duration;

const FULL: &str = r#"
[monitor]
poll_interval_secs = 5
disconnect_threshold_secs = 120
auto_disable_on_reconnect = true

[hotspot]
ssid = "MyFallbackHotspot"
passphrase = "changeme123"
band = "Auto"
uplink_adapter = "Ethernet"

[logging]
file_level = "warn"
stdout_level = "debug"
service_level = "trace"
path = "autospot.log"
"#;

fn text_or(table: &toml::Table, key: &str, default: String) -> String {
    match table.get(key) {
        Some(value) => value.as_str().unwrap().to_string(),
        None => default,
    }
}

fn number_or(table: &toml::Table, key: &str, default: u64) -> u64 {
    match table.get(key) {
        Some(value) => value.as_integer().unwrap() as u64,
        None => default,
    }
}

fn section(table: &toml::Table, name: &str) -> toml::Table {
    match table.get(name) {
        Some(value) => value.as_table().unwrap().clone(),
        None => toml::Table::new(),
    }
}

/// A setting that has no default.
fn required(table: &toml::Table, key: &str) -> String {
    table.get(key).unwrap().as_str().unwrap().to_string()
}

fn band(table: &toml::Table) -> Band {
    match table.get("band") {
        Some(value) => match value.as_str().unwrap() {
            "Auto" => Band::Auto,
            "TwoPointFourGigahertz" | "2.4GHz" | "2.4" => Band::TwoPointFourGigahertz,
            "FiveGigahertz" | "5GHz" | "5" => Band::FiveGigahertz,
            "SixGigahertz" | "6GHz" | "6" => Band::SixGigahertz,
            other => panic!("no band: {other}"),
        },
        None => Band::default(),
    }
}

/// What a TOML text says, with the library's defaults for what it does not say.
fn read(text: &str) -> Config {
    let table: toml::Table = toml::from_str(text).unwrap();
    let monitor = section(&table, "monitor");
    let hotspot = section(&table, "hotspot");
    let logging = section(&table, "logging");
    Config {
        monitor: MonitorConfig {
            poll_interval_secs: number_or(
                &monitor,
                "poll_interval_secs",
                default_poll_interval_secs(),
            ),
            disconnect_threshold_secs: number_or(
                &monitor,
                "disconnect_threshold_secs",
                default_disconnect_threshold_secs(),
            ),
            auto_disable_on_reconnect: match monitor.get("auto_disable_on_reconnect") {
                Some(value) => value.as_bool().unwrap(),
                None => default_true(),
            },
        },
        hotspot: HotspotConfig {
            ssid: required(&hotspot, "ssid"),
            passphrase: required(&hotspot, "passphrase"),
            band: band(&hotspot),
            uplink_adapter: required(&hotspot, "uplink_adapter"),
            hotspot_adapter: text_or(&hotspot, "hotspot_adapter", default_hotspot_adapter()),
        },
        companion: CompanionConfig::default(),
        logging: LoggingConfig {
            file_level: text_or(&logging, "file_level", default_file_log_level()),
            stdout_level: text_or(&logging, "stdout_level", default_stdout_log_level()),
            service_level: text_or(&logging, "service_level", default_service_log_level()),
            path: text_or(&logging, "path", default_log_path()),
        },
    }
}

fn from_toml(text: &str) -> Result<Config, ConfigError> {
    Config::from_toml(Ok(read(text)))
}

/// The minimal valid config -- only `[hotspot]` is required -- with `extra` lines
/// appended. Tests that need to change one of the required keys spell the whole
/// config out instead.
fn minimal(extra: &str) -> Result<Config, ConfigError> {
    from_toml(&format!(
        r#"
[hotspot]
ssid = "Fallback"
passphrase = "password1"
uplink_adapter = "Ethernet"
{extra}
"#
    ))
}

/// The error message from a config that must not be accepted.
fn error(extra: &str) -> String {
    minimal(extra).unwrap_err().message()
}

/// The error message from a `[hotspot]`-only config that must not be accepted.
fn hotspot_error(section: &str) -> String {
    from_toml(&format!("[hotspot]\n{section}\n"))
        .unwrap_err()
        .message()
}

#[test]
fn parses_the_documented_example() {
    let cfg = from_toml(FULL).unwrap();
    assert_eq!(cfg.monitor.poll_interval_secs, 5);
    assert_eq!(cfg.monitor.disconnect_threshold_secs, 120);
    assert!(cfg.monitor.auto_disable_on_reconnect);
    assert_eq!(cfg.hotspot.ssid, "MyFallbackHotspot");
    assert_eq!(cfg.hotspot.passphrase, "changeme123");
    assert_eq!(cfg.hotspot.band, Band::Auto);
    assert_eq!(cfg.hotspot.uplink_adapter, "Ethernet");
    assert_eq!(cfg.logging.file_level, "warn");
    assert_eq!(cfg.logging.stdout_level, "debug");
    assert_eq!(cfg.logging.service_level, "trace");
    assert_eq!(cfg.logging.path, "autospot.log");
}

#[test]
fn only_hotspot_section_is_required() {
    let cfg = minimal("").unwrap();
    assert_eq!(cfg.monitor, MonitorConfig::default());
    assert_eq!(cfg.logging, LoggingConfig::default());
    assert_eq!(cfg.monitor.poll_interval_secs, 5);
    assert_eq!(cfg.monitor.disconnect_threshold_secs, 120);
    assert_eq!(cfg.hotspot.band, Band::Auto);
}

#[test]
fn rejects_short_passphrase() {
    let err = hotspot_error(
        r#"
ssid = "Fallback"
passphrase = "short"
uplink_adapter = "Ethernet"
"#,
    );
    assert!(err.contains("8-63"), "{err}");
}

#[test]
fn rejects_oversized_ssid() {
    let err = hotspot_error(&format!(
        r#"
ssid = "{}"
passphrase = "password1"
uplink_adapter = "Ethernet"
"#,
        "x".repeat(SSID_MAX_BYTES + 1)
    ));
    assert!(err.contains("32 bytes"), "{err}");
}

#[test]
fn rejects_zero_poll_interval() {
    let err = error("\n[monitor]\npoll_interval_secs = 0");
    assert!(err.contains("poll_interval_secs"), "{err}");
}

#[test]
fn rejects_an_unknown_level_naming_the_offending_key() {
    for key in ["file_level", "stdout_level", "service_level"] {
        let err = error(&format!("\n[logging]\n{key} = \"verbose\""));
        assert!(err.contains(&format!("logging.{key}")), "{err}");
    }
}

#[test]
fn logging_levels_default_to_error_for_file_and_info_for_stdout_and_service() {
    let cfg = minimal("").unwrap();
    assert_eq!(cfg.logging.file_level, "error");
    assert_eq!(cfg.logging.stdout_level, "info");
    assert_eq!(cfg.logging.service_level, "info");
}

#[test]
fn recognises_the_auto_sentinel_case_and_space_insensitively() {
    for value in ["auto", "Auto", "AUTO", "  auto  "] {
        assert!(is_auto(value), "{value:?}");
    }
    assert!(!is_auto("Ethernet"));
    assert!(!from_toml(FULL).unwrap().hotspot.is_auto_uplink());
}

#[test]
fn rejects_an_empty_adapter_name() {
    let err = hotspot_error(
        r#"
ssid = "Fallback"
passphrase = "password1"
uplink_adapter = "   "
"#,
    );
    assert!(err.contains("uplink_adapter"), "{err}");
    assert!(minimal(r#"hotspot_adapter = "   ""#).is_err());
}

#[test]
fn hotspot_adapter_defaults_to_auto() {
    let cfg = from_toml(FULL).unwrap();
    assert!(cfg.hotspot.is_auto_hotspot_adapter());
}

#[test]
fn rejects_uplink_adapter_and_hotspot_adapter_naming_the_same_adapter() {
    let err = hotspot_error(
        r#"
ssid = "Fallback"
passphrase = "password1"
uplink_adapter = "WiFi"
hotspot_adapter = "WiFi"
"#,
    );
    assert!(err.contains("must not both name"), "{err}");
}

#[test]
fn allows_uplink_adapter_and_hotspot_adapter_to_both_be_auto() {
    // "auto" naming "auto" isn't the same-adapter conflict -- it just means neither
    // is pinned down yet, which is resolved (or fails) at runtime, not config load.
    assert!(
        from_toml(
            r#"
[hotspot]
ssid = "Fallback"
passphrase = "password1"
uplink_adapter = "auto"
hotspot_adapter = "auto"
"#,
        )
        .is_ok()
    );
}

#[test]
fn level_strings_map_to_tracing_levels() {
    assert_eq!(parse_level("INFO"), Some(Level::Info));
    assert_eq!(parse_level(" debug "), Some(Level::Debug));
    assert_eq!(parse_level("nope"), None);
}

#[test]
fn companion_defaults_to_disabled() {
    let cfg = from_toml(FULL).unwrap();
    assert_eq!(cfg.companion, CompanionConfig::default());
    assert!(!cfg.companion.enabled);
}

#[test]
fn durations_come_from_the_monitor_section() {
    let monitor = from_toml(FULL).unwrap().monitor;
    assert_eq!(monitor.poll_interval(), Duration::from_secs(5));
    assert_eq!(monitor.disconnect_threshold(), Duration::from_secs(120));
}

#[test]
fn every_level_has_a_name() {
    assert_eq!(parse_level("error"), Some(Level::Error));
    assert_eq!(parse_level("Warn"), Some(Level::Warn));
    assert_eq!(parse_level("warning"), Some(Level::Warn));
    assert_eq!(parse_level("trace"), Some(Level::Trace));
    assert_eq!(parse_level(""), None);
}

#[test]
fn every_fault_has_its_message() {
    assert_eq!(
        Config::from_toml(Err("expected `=`".to_string()))
            .unwrap_err()
            .message(),
        "config is not valid TOML: expected `=`"
    );
    assert_eq!(
        error("\n[monitor]\npoll_interval_secs = 0\ndisconnect_threshold_secs = 0"),
        "monitor.poll_interval_secs must be at least 1"
    );
    assert_eq!(
        error("\n[monitor]\ndisconnect_threshold_secs = 0"),
        "monitor.disconnect_threshold_secs must be at least 1"
    );
    assert_eq!(
        hotspot_error("ssid = \"\"\npassphrase = \"short\"\nuplink_adapter = \"\""),
        "hotspot.ssid must not be empty"
    );
    // The limit counts bytes, of which this letter has two.
    assert_eq!(
        hotspot_error(&format!(
            "ssid = \"{}\"\npassphrase = \"password1\"\nuplink_adapter = \"x\"",
            "\u{e9}".repeat(17)
        )),
        "hotspot.ssid must be at most 32 bytes, got 34"
    );
    assert_eq!(
        hotspot_error("ssid = \"a\"\npassphrase = \"short\"\nuplink_adapter = \"x\""),
        "hotspot.passphrase must be 8-63 characters, got 5"
    );
    assert_eq!(
        hotspot_error(&format!(
            "ssid = \"a\"\npassphrase = \"{}\"\nuplink_adapter = \"x\"",
            "p".repeat(64)
        )),
        "hotspot.passphrase must be 8-63 characters, got 64"
    );
    assert_eq!(
        hotspot_error("ssid = \"a\"\npassphrase = \"password1\"\nuplink_adapter = \" \""),
        "hotspot.uplink_adapter must not be empty"
    );
    assert_eq!(
        error("hotspot_adapter = \" \""),
        "hotspot.hotspot_adapter must not be empty"
    );
    assert_eq!(
        error("hotspot_adapter = \" ETHERNET \""),
        "hotspot.uplink_adapter and hotspot.hotspot_adapter must not both name the same adapter \
         -- it can't be its own uplink and its own hotspot at once"
    );
    assert_eq!(
        error("\n[logging]\nstdout_level = \"loud\""),
        "logging.stdout_level must be one of error|warn|info|debug|trace, got 'loud'"
    );
}

#[test]
fn the_limits_themselves_are_accepted() {
    let accepted = |ssid: String, passphrase: String| {
        from_toml(&format!(
            "[hotspot]\nssid = \"{ssid}\"\npassphrase = \"{passphrase}\"\nuplink_adapter = \"x\""
        ))
        .is_ok()
    };
    assert!(accepted("x".repeat(32), "p".repeat(8)));
    assert!(accepted("x".to_string(), "p".repeat(63)));
    // The passphrase counts characters, not bytes.
    assert!(accepted("x".to_string(), "\u{e9}".repeat(63)));
}

#[test]
fn the_band_is_kept() {
    let cfg = minimal("band = \"FiveGigahertz\"").unwrap();
    assert_eq!(cfg.hotspot.band, Band::FiveGigahertz);
    let cfg = minimal("band = \"2.4GHz\"").unwrap();
    assert_eq!(cfg.hotspot.band, Band::TwoPointFourGigahertz);
}

#[test]
fn well_known_names_stay() {
    assert_eq!(DEFAULT_FILE_NAME, "autospot.toml");
    assert_eq!(AUTO_ADAPTER, "auto");
}
