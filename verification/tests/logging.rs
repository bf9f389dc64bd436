//! Where log output goes.

use autospot::config::{
    Band, CompanionConfig, Config, HotspotConfig, Level, LoggingConfig, MonitorConfig,
};
use autospot::logging::{
    level, log_directory, log_file_name, resolve_path, stdout_level, Mode,
};
use autospot::paths::{is_absolute_path, join};

#[test]
fn an_absolute_log_path_ignores_the_mode_directory() {
    let configured = "C:\\logs\\autospot.log";
    assert_eq!(
        resolve_path(configured, "C:\\ProgramData\\autospot\\logs"),
        configured
    );
}

#[test]
fn a_relative_log_path_lands_under_the_mode_directory() {
    assert_eq!(
        resolve_path("autospot.log", "C:\\base"),
        "C:\\base\\autospot.log"
    );
}

fn config(file_level: &str, service_level: &str) -> Config {
    Config {
        monitor: MonitorConfig::default(),
        hotspot: HotspotConfig {
            ssid: "Fallback".to_string(),
            passphrase: "password1".to_string(),
            band: Band::Auto,
            uplink_adapter: "Ethernet".to_string(),
            hotspot_adapter: "auto".to_string(),
        },
        companion: CompanionConfig::default(),
        logging: LoggingConfig {
            file_level: file_level.to_string(),
            service_level: service_level.to_string(),
            ..LoggingConfig::default()
        },
    }
}

#[test]
fn console_and_service_modes_read_different_levels() {
    let cfg = config("warn", "debug");
    assert_eq!(Mode::Console.file_level(&cfg), Level::Warn);
    assert_eq!(Mode::Service.file_level(&cfg), Level::Debug);
}

#[test]
fn each_mode_logs_under_its_own_directory() {
    for root in [None, Some("C:\\Users\\me"), Some("C:\\ProgramData\\")] {
        let console = Mode::Console.log_dir(root);
        let service = Mode::Service.log_dir(root);
        if root.is_some() {
            assert_ne!(console, service);
        }
        for dir in [console, service] {
            assert!(dir.ends_with("\\logs") || dir == ".", "{dir:?}");
        }
    }
    assert_eq!(
        Mode::Console.log_dir(Some("C:\\Users\\me")),
        "C:\\Users\\me\\Documents\\autospot\\logs"
    );
    assert_eq!(
        Mode::Service.log_dir(Some("C:\\ProgramData")),
        "C:\\ProgramData\\autospot\\logs"
    );
    assert_eq!(Mode::Console.root_variable(), "USERPROFILE");
    assert_eq!(Mode::Service.root_variable(), "ProgramData");
    assert!(Mode::Console.logs_to_console());
    assert!(!Mode::Service.logs_to_console());
}

#[test]
fn levels_fall_back() {
    let cfg = config("nope", "nope");
    assert_eq!(Mode::Console.file_level(&cfg), Level::Error);
    assert_eq!(Mode::Service.file_level(&cfg), Level::Info);
    assert_eq!(stdout_level(&cfg), Level::Info);
    assert_eq!(level("trace", Level::Error), Level::Trace);
}

#[test]
fn a_log_file_needs_a_name_and_may_lack_a_directory() {
    assert_eq!(log_directory(None), ".");
    assert_eq!(log_directory(Some("")), ".");
    assert_eq!(log_directory(Some("C:\\logs")), "C:\\logs");
    assert_eq!(log_file_name(Some("a.log")), Ok("a.log"));
    assert_eq!(log_file_name(None), Err("logging.path has no file name"));
}

#[test]
fn absolute_paths_have_a_prefix_and_a_root() {
    for path in [
        "C:\\windows",
        "c:/windows",
        "\\\\server\\share",
        "\\\\server\\share\\x",
        "\\\\?\\C:\\x",
        "\\\\.\\COM42",
    ] {
        assert!(is_absolute_path(path), "{path}");
    }
    for path in [
        "",
        "autospot.log",
        "c:temp",
        "C:",
        "\\temp",
        "/temp",
        "\\\\server",
        "\\\\server\\",
        "1:\\x",
        "logs\\C:\\x",
    ] {
        assert!(!is_absolute_path(path), "{path}");
    }
}

#[test]
fn verbatim_paths_are_normalised() {
    let base = "\\\\?\\C:\\base\\dir";
    assert_eq!(join(base, "a\\b"), "\\\\?\\C:\\base\\dir\\a\\b");
    assert_eq!(join(base, "./a//b"), "\\\\?\\C:\\base\\dir\\a\\b");
    assert_eq!(join(base, "..\\a"), "\\\\?\\C:\\base\\a");
    assert_eq!(join(base, "../../../a"), "\\\\?\\C:\\a");
    assert_eq!(join(base, "/x"), "\\\\?\\C:\\x");
    assert_eq!(join(base, ""), "\\\\?\\C:\\base\\dir\\");
    assert_eq!(join("\\\\?\\C:", "a"), "\\\\?\\C:\\a");
    assert_eq!(
        join("\\\\?\\UNC\\server\\share\\d", "..\\..\\a"),
        "\\\\?\\UNC\\server\\share\\a"
    );
    assert_eq!(join(base, "D:\\x"), "D:\\x");
}

#[test]
fn a_slash_may_follow_a_verbatim_prefix() {
    assert_eq!(join("\\\\?\\C:/foo", "\\x"), "\\\\?\\C:\\x");
    assert_eq!(join("\\\\?\\C:/foo", "x"), "\\\\?\\C:\\foo\\x");
    // Behind the prefix a slash is part of a name.
    assert_eq!(join("\\\\?\\C:\\a/b", ".."), "\\\\?\\C:\\");
    assert_eq!(
        join("\\\\?\\UNC/server\\share\\d", "\\x"),
        "\\\\?\\UNC/server\\share\\x"
    );
    assert_eq!(join("\\\\?\\C:/foo/", ""), "\\\\?\\C:/foo/");
    assert_eq!(join("\\\\?\\C:x/foo", "\\y"), "\\\\?\\C:x/foo\\y");
}

#[test]
fn paths_are_joined_the_way_windows_does() {
    assert_eq!(join("C:\\base", "a\\b"), "C:\\base\\a\\b");
    assert_eq!(join("C:\\base\\", "a"), "C:\\base\\a");
    assert_eq!(join("C:/base/", "a"), "C:/base/a");
    assert_eq!(join("C:", "a"), "C:a");
    assert_eq!(join("", "a"), "a");
    assert_eq!(join(".", "a"), ".\\a");
    assert_eq!(join("C:\\base", ""), "C:\\base\\");
    assert_eq!(join("C:\\base", "D:\\x"), "D:\\x");
    assert_eq!(join("C:\\base", "D:x"), "D:x");
    assert_eq!(join("C:\\base", "\\x"), "C:\\x");
    assert_eq!(join("\\\\server\\share\\d", "/x"), "\\\\server\\share/x");
    assert_eq!(join("base", "\\x"), "\\x");
    assert_eq!(join("C:\\base", "\\\\server\\share\\x"), "\\\\server\\share\\x");
}
