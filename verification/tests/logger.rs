use clipse::logger::{
    error, get_current_log_level, info, is_known_level, log, render_line, should_log, success,
    warning, LogConfig, LogLevel, TIMESTAMP_PATTERN,
};

fn config(level: &str) -> LogConfig {
    LogConfig { level: level.to_string() }
}

#[test]
fn default_level_writes_everything() {
    let standard = LogConfig::default();
    assert_eq!(standard.level, "all");
    for level in [LogLevel::Info, LogLevel::Success, LogLevel::Error, LogLevel::Warning] {
        assert!(should_log(&level, &standard));
    }
}

#[test]
fn off_writes_nothing() {
    for level in [LogLevel::Info, LogLevel::Success, LogLevel::Error, LogLevel::Warning] {
        assert!(!should_log(&level, &config("off")));
        assert!(log(level, "m", &config("off")).is_none());
    }
}

#[test]
fn one_level_writes_only_itself() {
    let levels = [
        ("info", LogLevel::Info),
        ("success", LogLevel::Success),
        ("error", LogLevel::Error),
        ("warning", LogLevel::Warning),
    ];
    for (name, chosen) in levels {
        for (_, level) in levels {
            assert_eq!(should_log(&level, &config(name)), level == chosen);
        }
    }
}

#[test]
fn unknown_level_writes_everything() {
    for name in ["", "verbose", "OFF", "Info", " off"] {
        assert!(should_log(&LogLevel::Error, &config(name)));
        assert!(should_log(&LogLevel::Info, &config(name)));
    }
}

#[test]
fn known_levels_are_six() {
    for name in ["off", "info", "success", "error", "warning", "all"] {
        assert!(is_known_level(name));
    }
    for name in ["", "warn", "ALL", "debug", "off "] {
        assert!(!is_known_level(name));
    }
}

#[test]
fn line_holds_time_level_and_message() {
    assert_eq!(
        render_line("2024-05-01 12:00:00.123", LogLevel::Info, "Service is running..."),
        "[2024-05-01 12:00:00.123 - INFO] Service is running..."
    );
    assert_eq!(render_line("t", LogLevel::Success, "ok"), "[t - SUCCESS] ok");
    assert_eq!(render_line("t", LogLevel::Error, ""), "[t - ERROR] ");
    assert_eq!(render_line("", LogLevel::Warning, "w"), "[ - WARN] w");
}

#[test]
fn log_stamps_the_line_with_the_time_of_day() {
    let line = log(LogLevel::Info, "Hotkey pressed!", &config("all")).expect("a line");
    assert!(line.starts_with('['));
    assert!(line.ends_with(" - INFO] Hotkey pressed!"));
    let stamp = &line[1..line.len() - " - INFO] Hotkey pressed!".len()];
    assert_eq!(stamp.len(), 23);
    let bytes = stamp.as_bytes();
    for (i, b) in bytes.iter().enumerate() {
        match i {
            4 | 7 => assert_eq!(*b, b'-'),
            10 => assert_eq!(*b, b' '),
            13 | 16 => assert_eq!(*b, b':'),
            19 => assert_eq!(*b, b'.'),
            _ => assert!(b.is_ascii_digit()),
        }
    }
    assert_eq!(TIMESTAMP_PATTERN, "%Y-%m-%d %H:%M:%S%.3f");
}

#[test]
fn each_level_has_its_function() {
    let all = config("all");
    assert!(info("a", &all).expect("a line").ends_with(" - INFO] a"));
    assert!(success("b", &all).expect("a line").ends_with(" - SUCCESS] b"));
    assert!(error("c", &all).expect("a line").ends_with(" - ERROR] c"));
    assert!(warning("d", &all).expect("a line").ends_with(" - WARN] d"));
    let only_errors = config("error");
    assert!(info("a", &only_errors).is_none());
    assert!(success("b", &only_errors).is_none());
    assert!(error("c", &only_errors).is_some());
    assert!(warning("d", &only_errors).is_none());
}

#[test]
fn current_level_is_the_configured_one() {
    assert_eq!(get_current_log_level(&config("warning")), "warning");
    assert_eq!(get_current_log_level(&LogConfig::default()), "all");
}
