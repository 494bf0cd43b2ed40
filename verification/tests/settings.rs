use std::time::Duration;
use terminal_tomato::config::{default_true, resolve_config, validate_config, Config, ConfigLoad};
use terminal_tomato::text::{format_clock, format_duration, is_blank, is_white_space_char};

fn sample_config() -> Config {
    Config {
        work_minutes: 50,
        short_break_minutes: 10,
        long_break_minutes: 30,
        long_break_every: 3,
        auto_start_breaks: false,
        auto_start_work: true,
        show_seconds: true,
        sound_path: "ding.mp3".to_string(),
        log_dir: "mylogs".to_string(),
    }
}

fn assert_default(config: &Config) {
    assert_eq!(config.work_minutes, 25);
    assert_eq!(config.short_break_minutes, 5);
    assert_eq!(config.long_break_minutes, 15);
    assert_eq!(config.long_break_every, 4);
    assert!(config.auto_start_breaks);
    assert!(config.auto_start_work);
    assert!(config.show_seconds);
    assert_eq!(config.sound_path, "");
    assert_eq!(config.log_dir, "logs");
}

#[test]
fn format_duration_minutes_seconds() {
    let duration = Duration::from_secs(125);
    assert_eq!(format_duration(duration), "02:05");
}

#[test]
fn invalid_config_falls_back_to_defaults() {
    let config = Config {
        work_minutes: 0,
        short_break_minutes: 5,
        long_break_minutes: 15,
        long_break_every: 4,
        auto_start_breaks: true,
        auto_start_work: true,
        show_seconds: true,
        sound_path: String::new(),
        log_dir: "logs".to_string(),
    };

    let (validated, message) = validate_config(config);
    assert_eq!(validated.work_minutes, 25);
    assert!(message.is_some());
}

#[test]
fn format_duration_ignores_fractions_of_a_second() {
    assert_eq!(format_duration(Duration::from_millis(59_999)), "00:59");
    assert_eq!(format_duration(Duration::from_secs(0)), "00:00");
}

#[test]
fn clock_face_values() {
    assert_eq!(format_clock(0), "00:00");
    assert_eq!(format_clock(9), "00:09");
    assert_eq!(format_clock(59), "00:59");
    assert_eq!(format_clock(60), "01:00");
    assert_eq!(format_clock(1500), "25:00");
    assert_eq!(format_clock(3599), "59:59");
    assert_eq!(format_clock(5999), "99:59");
    assert_eq!(format_clock(6000), "100:00");
    assert_eq!(format_clock(u64::MAX), "307445734561825860:15");
}

#[test]
fn clock_face_is_five_wide_under_a_hundred_minutes() {
    for secs in [0u64, 1, 61, 600, 3601, 5999] {
        let face = format_clock(secs);
        assert_eq!(face.len(), 5);
        assert_eq!(face.as_bytes()[2], b':');
    }
}

#[test]
fn blank_text() {
    assert!(is_blank(""));
    assert!(is_blank(" \t\r\n\u{0B}\u{0C}"));
    assert!(is_blank("\u{85}\u{A0}\u{1680}\u{2000}\u{200A}\u{2028}\u{2029}\u{202F}\u{205F}\u{3000}"));
    assert!(!is_blank(" logs "));
    assert!(!is_blank("\u{200B}"));
    assert!(!is_blank("\u{180E}"));
}

#[test]
fn white_space_matches_std() {
    for code in 0u32..0x3100 {
        if let Some(c) = char::from_u32(code) {
            assert_eq!(is_white_space_char(c), c.is_whitespace(), "code point {code:#x}");
        }
    }
}

#[test]
fn default_settings() {
    assert_default(&Config::default());
    assert!(default_true());
}

#[test]
fn valid_config_is_kept() {
    let (checked, note) = validate_config(sample_config());
    assert!(note.is_none());
    assert_eq!(checked.work_minutes, 50);
    assert_eq!(checked.short_break_minutes, 10);
    assert_eq!(checked.long_break_minutes, 30);
    assert_eq!(checked.long_break_every, 3);
    assert!(!checked.auto_start_breaks);
    assert!(checked.auto_start_work);
    assert_eq!(checked.sound_path, "ding.mp3");
    assert_eq!(checked.log_dir, "mylogs");
}

#[test]
fn each_invalid_field_falls_back() {
    let mut zero_short = sample_config();
    zero_short.short_break_minutes = 0;
    let mut zero_long = sample_config();
    zero_long.long_break_minutes = 0;
    let mut zero_every = sample_config();
    zero_every.long_break_every = 0;
    let mut blank_dir = sample_config();
    blank_dir.log_dir = " \t ".to_string();
    let mut empty_dir = sample_config();
    empty_dir.log_dir = String::new();
    for config in [zero_short, zero_long, zero_every, blank_dir, empty_dir] {
        let (checked, note) = validate_config(config);
        assert_default(&checked);
        assert_eq!(note.as_deref(), Some("config.toml invalid; using defaults"));
    }
}

#[test]
fn checked_settings_stay_checked() {
    let mut bad = sample_config();
    bad.work_minutes = 0;
    let (once, _) = validate_config(bad);
    let (twice, note) = validate_config(once);
    assert!(note.is_none());
    assert_default(&twice);
}

#[test]
fn resolving_the_load_outcome() {
    let (config, note) = resolve_config(ConfigLoad::Missing);
    assert_default(&config);
    assert_eq!(note.as_deref(), Some("config.toml not found; using defaults"));

    let (config, note) = resolve_config(ConfigLoad::Unreadable("permission denied".to_string()));
    assert_default(&config);
    assert_eq!(note.as_deref(), Some("config.toml read error: permission denied; using defaults"));

    let (config, note) = resolve_config(ConfigLoad::Malformed("expected `=`".to_string()));
    assert_default(&config);
    assert_eq!(note.as_deref(), Some("config.toml parse error: expected `=`; using defaults"));

    let (config, note) = resolve_config(ConfigLoad::Parsed(sample_config()));
    assert_eq!(config.work_minutes, 50);
    assert!(note.is_none());

    let mut bad = sample_config();
    bad.long_break_every = 0;
    let (config, note) = resolve_config(ConfigLoad::Parsed(bad));
    assert_default(&config);
    assert_eq!(note.as_deref(), Some("config.toml invalid; using defaults"));
}

#[test]
fn clock_face_with_and_without_seconds() {
    assert_eq!(terminal_tomato::text::format_face(125, true), "02:05");
    assert_eq!(terminal_tomato::text::format_face(125, false), "02");
    assert_eq!(terminal_tomato::text::format_face(59, false), "00");
    assert_eq!(terminal_tomato::text::format_face(6000, false), "100");
}

#[test]
fn clock_face_reads_back() {
    for secs in [0u64, 7, 59, 60, 61, 125, 3599, 3600, 5999, 6000, 359_999, 1_000_000, u64::MAX] {
        let face = format_duration(Duration::from_secs(secs));
        let (m, s) = face.rsplit_once(':').unwrap();
        assert!(m.len() >= 2);
        assert_eq!(s.len(), 2);
        assert!(m.chars().chain(s.chars()).all(|c| c.is_ascii_digit()));
        let minutes: u64 = m.parse().unwrap();
        let seconds: u64 = s.parse().unwrap();
        assert!(seconds < 60);
        assert_eq!(minutes * 60 + seconds, secs);
    }
}
