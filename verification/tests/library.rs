use magnet::audio::{
    complete_samples, dropped_frames_after, frame_fits, queue_capacity, validate_analysis_config, AnalysisConfig,
    WINDOW_FRAMES,
};
use magnet::clock::{millis_or_zero, now_ms, timestamp_ms};
use magnet::library::{demo_library, parse_duration, parse_u32_text, split_text};
use magnet::text::{contains_text, decimal_string, trim_text};

#[test]
fn durations_are_minutes_and_seconds() {
    assert_eq!(parse_duration("5:21"), 321_000);
    assert_eq!(parse_duration("0:07"), 7_000);
    assert_eq!(parse_duration("5"), 0);
    assert_eq!(parse_duration("1:2:3"), 0);
    assert_eq!(parse_duration("x:30"), 0);
    assert_eq!(parse_duration("+1:+1"), 61_000);
}

#[test]
fn numbers_parse_like_std() {
    for text in ["0", "42", "+7", "4294967295", "4294967296", "", "+", "-1", "1a", " 1"] {
        assert_eq!(parse_u32_text(text), text.parse::<u32>().ok(), "{text}");
    }
}

#[test]
fn splitting_matches_std() {
    for (text, sep) in [("a, b, c", ", "), ("oskar med k, kris., mondaé", ", "), ("", ":"), (":a::", ":"), ("aaa", "aa")] {
        let expected: Vec<String> = text.split(sep).map(str::to_owned).collect();
        assert_eq!(split_text(text, sep), expected);
    }
}

#[test]
fn demo_library_is_numbered_and_split_by_artist() {
    let library = demo_library();
    assert_eq!(library.len(), 16);
    assert_eq!(library[0].id, "1");
    assert_eq!(library[15].id, "16");
    assert_eq!(library[1].artists, ["oskar med k", "kris.", "mondaé"]);
    assert_eq!(library[1].duration_ms, 158_000);
    assert_eq!(library[15].title, "Right As Rain");
    assert_eq!(library[0].saved, Some(true));
    assert!(library[1..].iter().all(|t| t.saved == Some(false)));
    assert!(library.iter().all(|t| t.album == "August 2026"));
}

#[test]
fn text_helpers_match_std() {
    for text in ["", "  a b\t", "\u{3000}x\u{2028}", "none"] {
        assert_eq!(trim_text(text), text.trim());
    }
    assert!(contains_text("could not load playlists", "could not load"));
    assert!(!contains_text("could not", "could not load"));
    assert_eq!(decimal_string(0), "0");
    assert_eq!(decimal_string(u128::MAX), u128::MAX.to_string());
}

#[test]
fn rejects_invalid_worker_configuration() {
    let invalid = AnalysisConfig {
        queue_frames: WINDOW_FRAMES - 1,
        ..AnalysisConfig::default()
    };
    assert!(validate_analysis_config(&invalid).is_err());
}

#[test]
fn analysis_configuration_checks_each_field() {
    let config = AnalysisConfig::default();
    assert_eq!((config.sample_rate, config.channels, config.queue_frames), (44_100, 2, 16_384));
    assert!(validate_analysis_config(&config).is_ok());
    assert_eq!(queue_capacity(&config), 32_768);
    let silent = AnalysisConfig { sample_rate: 0, ..config };
    assert_eq!(validate_analysis_config(&silent).unwrap_err(), "analysis sample rate must be non-zero");
    let mute = AnalysisConfig { channels: 0, ..config };
    assert_eq!(validate_analysis_config(&mute).unwrap_err(), "analysis channel count must be non-zero");
    let small = AnalysisConfig { queue_frames: 10, ..config };
    assert_eq!(validate_analysis_config(&small).unwrap_err(), "analysis queue must hold at least 2048 audio frames");
}

#[test]
fn the_bus_counts_whole_frames() {
    assert_eq!(complete_samples(7, 2), 6);
    assert!(frame_fits(4, 2, 2));
    assert!(!frame_fits(4, 3, 2));
    assert_eq!(dropped_frames_after(6, 2, 2), 1);
}

#[test]
fn clock_readings_are_after_the_epoch() {
    assert!(now_ms() > 1_600_000_000_000);
    assert!(timestamp_ms() > 1_600_000_000_000);
    assert_eq!(millis_or_zero(None), 0);
    assert_eq!(millis_or_zero(Some(5)), 5);
}
