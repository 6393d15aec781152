//! The timestamp codec, configuration derivation, output naming and
//! captions.

use tree_migration::compositor::color_text;
use tree_migration::config::RawSettings;
use tree_migration::error::Error;
use tree_migration::frame::Color;
use tree_migration::namer::output_file_name;
use tree_migration::timecodec::parse_date;

fn raw(
    start: (u32, u32, u32),
    end: (u32, u32, u32),
    duration: i64,
    night_times: (u32, u32),
    night_duration: i64,
) -> RawSettings {
    RawSettings {
        images_path: String::from("in"),
        roi: (0, 0, 1, 1),
        location: String::from("Loc"),
        camera: String::from("Cam"),
        file_name: String::from("%Y%m%d_%H%M%S"),
        start_date: start,
        end_date: end,
        duration,
        night_times,
        night_color: Color { red: 0, green: 0, blue: 0 },
        night_duration,
    }
}

#[test]
fn parse_date_reads_the_stem_and_formats_the_caption() {
    let (stamp, caption) = parse_date("20230101_060000", "%Y%m%d_%H%M%S").unwrap();
    assert_eq!(stamp, 1672552800);
    assert_eq!(caption, "01.01.2023, 06:00:00");
}

#[test]
fn parse_date_rejects_a_stem_that_does_not_match() {
    let err = parse_date("snapshot-1", "%Y%m%d_%H%M%S").unwrap_err();
    match &err {
        Error::FilenameFormat(stem) => assert_eq!(stem, "snapshot-1"),
        other => panic!("unexpected error {:?}", other.message()),
    }
    assert_eq!(err.message(), "File: \"snapshot-1\" has wrong name format");
}

#[test]
fn parse_date_rejects_a_partial_match() {
    assert!(parse_date("20230101_060000x", "%Y%m%d_%H%M%S").is_err());
}

#[test]
fn parse_date_accepts_instants_before_the_epoch() {
    let (stamp, caption) = parse_date("19500101_120000", "%Y%m%d_%H%M%S").unwrap();
    assert_eq!(stamp, -631108800);
    assert_eq!(caption, "01.01.1950, 12:00:00");
}

#[test]
fn parse_date_covers_every_four_digit_year() {
    let (first, _) = parse_date("00000101_000000", "%Y%m%d_%H%M%S").unwrap();
    assert_eq!(first, -62167219200); // 0000-01-01 00:00:00 UTC
    let (last, _) = parse_date("99991231_235959", "%Y%m%d_%H%M%S").unwrap();
    assert_eq!(last, 253402300799); // 9999-12-31 23:59:59 UTC
}

#[test]
fn output_name_is_filesystem_safe_and_deterministic() {
    let name = output_file_name("Loc", "Cam", 1672552800, Some("jpg")).unwrap();
    assert_eq!(name, "Loc-Cam20230101T060000Z.jpg");
    assert!(!name.contains(':'));
    assert!(!name.contains(' '));
}

#[test]
fn output_name_renders_pre_epoch_years_with_four_digits() {
    let name = output_file_name("Loc", "Cam", -631108800, Some("png")).unwrap();
    assert_eq!(name, "Loc-Cam19500101T120000Z.png");
}

#[test]
fn output_name_without_an_extension_is_refused() {
    let err = output_file_name("Loc", "Cam", 1672552800, None).unwrap_err();
    assert!(matches!(err, Error::MissingExtension));
}

#[test]
fn schedule_of_derives_instants_seconds_and_night_window() {
    let schedule = raw((2023, 1, 1), (2023, 1, 2), 360, (20, 6), 120).schedule_of().unwrap();
    assert_eq!(schedule.start_date, 1672531200); // 2023-01-01 00:00:00 UTC
    assert_eq!(schedule.end_date, 1672703999); // 2023-01-02 23:59:59 UTC
    assert_eq!(schedule.duration, 21600);
    assert_eq!(schedule.night_times, Some((72000, 21600)));
    assert_eq!(schedule.night_duration, 7200);
    assert!(!schedule.skip_night);
}

#[test]
fn schedule_of_accepts_dates_before_the_epoch() {
    let schedule = raw((1950, 1, 1), (1950, 1, 2), 360, (20, 6), 120).schedule_of().unwrap();
    assert_eq!(schedule.start_date, -631152000); // 1950-01-01 00:00:00 UTC
    assert_eq!(schedule.end_date, -630979201); // 1950-01-02 23:59:59 UTC
}

#[test]
fn schedule_of_equal_night_hours_disable_the_window() {
    let schedule = raw((2023, 1, 1), (2023, 1, 1), 60, (9, 9), 120).schedule_of().unwrap();
    assert_eq!(schedule.night_times, None);
}

#[test]
fn schedule_of_zero_night_duration_selects_skip_night() {
    let schedule = raw((2023, 1, 1), (2023, 1, 1), 60, (20, 6), 0).schedule_of().unwrap();
    assert!(schedule.skip_night);
    assert_eq!(schedule.night_duration, 0);
}

#[test]
fn schedule_of_rejects_invalid_fields() {
    let cases = [
        raw((2023, 1, 1), (2023, 1, 2), 0, (20, 6), 120), // zero grid step
        raw((2023, 1, 1), (2023, 1, 2), -5, (20, 6), 120), // negative grid step
        raw((2023, 1, 1), (2023, 1, 2), 360, (25, 6), 120), // night hour out of range
        raw((2023, 1, 1), (2023, 1, 2), 360, (20, 6), -1), // negative night cadence
        raw((2023, 2, 30), (2023, 3, 1), 360, (20, 6), 120), // no such date
        raw((2023, 1, 2), (2023, 1, 1), 360, (20, 6), 120), // start after end
    ];
    for case in cases {
        let err = case.schedule_of().unwrap_err();
        assert!(matches!(err, Error::ConfigInvalid(_)));
        assert!(err.message().starts_with("Invalid configuration: "));
    }
}

#[test]
fn color_text_renders_the_debug_caption() {
    assert_eq!(color_text(&Color { red: 10, green: 20, blue: 30 }), "Rgb([10, 20, 30])");
    assert_eq!(color_text(&Color { red: 0, green: 255, blue: 7 }), "Rgb([0, 255, 7])");
}

#[test]
fn missing_extension_message() {
    assert_eq!(Error::MissingExtension.message(), "Could not obtain the file extension");
}

#[test]
fn help_names_the_usage() {
    assert_eq!(
        tree_migration::help(),
        "usage: forest-green <configuration_file> [--forest_green]\n"
    );
}
