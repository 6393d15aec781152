//! The night-window state machine and the scheduling walk.

use tree_migration::catalog::{SourceCatalog, SourceListing};
use tree_migration::scheduler::{
    classify_night, NightState, Schedule, ScheduleCursor, StepAction, StepInput,
};

fn listing(path: &str, stem: &str, ext: &str) -> SourceListing {
    SourceListing {
        path: String::from(path),
        stem: String::from(stem),
        extension: String::from(ext),
    }
}

fn night_schedule() -> Schedule {
    Schedule {
        start_date: 1672531200, // 2023-01-01 00:00:00 UTC
        end_date: 1672617600,   // 2023-01-02 00:00:00 UTC
        duration: 21600,        // 360 min
        night_times: Some((72000, 21600)), // 20:00 .. 06:00
        night_duration: 7200,   // 120 min
        skip_night: false,
    }
}

fn scenario_catalog() -> SourceCatalog {
    let listings = vec![
        listing("in/20230101_060000.jpg", "20230101_060000", "jpg"),
        listing("in/20230101_120000.jpg", "20230101_120000", "jpg"),
        listing("in/20230101_220000.jpg", "20230101_220000", "jpg"),
    ];
    SourceCatalog::build(listings, "%Y%m%d_%H%M%S").unwrap()
}

#[test]
fn night_classification_window_crossing_midnight() {
    let w = Some((72000i64, 21600i64)); // 20:00 .. 06:00
    assert!(classify_night(&w, 82800)); // 23:00
    assert!(classify_night(&w, 18000)); // 05:00
    assert!(!classify_night(&w, 21600)); // 06:00
    assert!(!classify_night(&w, 71940)); // 19:59
    assert!(!classify_night(&None, 82800)); // disabled window: always day
}

#[test]
fn step_enters_night_and_keeps_night_cadence() {
    let schedule = night_schedule();
    let mut cursor = ScheduleCursor { current: 1672603200, night: NightState::Day }; // 20:00
    let action = cursor.step(&schedule, StepInput::Decoded { index: 2, width: 10, height: 5 });
    assert_eq!(action, StepAction::RenderNight { index: 2, width: 10, height: 5 });
    assert_eq!(cursor.current, 1672610400); // 22:00
    // anchor: next day's 06:00 lies less than 24 h ahead
    assert_eq!(cursor.night, NightState::NightActive { anchor_end: 1672639200 });
}

#[test]
fn step_catch_up_never_overshoots_by_more_than_one_grid_step() {
    let schedule = night_schedule();
    // 05:00, anchored to 06:00: the 120-minute night step would overshoot,
    // so the cursor catches up in 360-minute grid steps.
    let mut cursor = ScheduleCursor {
        current: 1672635600,
        night: NightState::NightActive { anchor_end: 1672639200 },
    };
    let action = cursor.step(&schedule, StepInput::Decoded { index: 0, width: 1, height: 1 });
    assert_eq!(action, StepAction::RenderNight { index: 0, width: 1, height: 1 });
    assert_eq!(cursor.night, NightState::Day);
    // one grid step past 05:00 reaches 11:00, within one step of the anchor
    assert_eq!(cursor.current, 1672657200);
    assert!(cursor.current <= 1672639200 + schedule.duration);
}

#[test]
fn step_skips_on_decode_failure_and_keeps_state() {
    let schedule = night_schedule();
    let mut cursor = ScheduleCursor {
        current: 1672610400,
        night: NightState::NightActive { anchor_end: 1672639200 },
    };
    let action = cursor.step(&schedule, StepInput::DecodeFailed);
    assert_eq!(action, StepAction::Skip);
    assert_eq!(cursor.current, 1672610400 + 21600);
    assert_eq!(cursor.night, NightState::NightActive { anchor_end: 1672639200 });
}

#[test]
fn step_skip_night_mode_advances_by_grid_step_without_rendering() {
    let mut schedule = night_schedule();
    schedule.night_duration = 0;
    schedule.skip_night = true;
    let mut cursor = ScheduleCursor { current: 1672603200, night: NightState::Day }; // 20:00
    let action = cursor.step(&schedule, StepInput::Decoded { index: 1, width: 4, height: 4 });
    assert_eq!(action, StepAction::Skip);
    assert_eq!(cursor.current, 1672603200 + 21600);
    assert_eq!(cursor.night, NightState::Day);
}

#[test]
fn plan_walks_the_scenario_day() {
    // Three sources at 06:00, 12:00 and 22:00; grid 360 min from midnight.
    let catalog = scenario_catalog();
    let schedule = night_schedule();
    let walk = tree_migration::scheduler::plan(&catalog, &schedule, 100, 50);
    let expected = vec![
        // midnight: no source precedes the cursor yet, nothing is written
        (1672531200, StepAction::Skip),
        (1672552800, StepAction::RenderDay { index: 0 }), // 06:00 -> 06:00 source
        (1672574400, StepAction::RenderDay { index: 1 }), // 12:00 -> 12:00 source
        (1672596000, StepAction::RenderDay { index: 1 }), // 18:00 -> still 12:00 source
    ];
    assert_eq!(walk, expected);
}

#[test]
fn plan_renders_night_placeholders_at_night_cadence_until_catch_up() {
    let catalog = scenario_catalog();
    let mut schedule = night_schedule();
    schedule.end_date = 1672703999; // 2023-01-02 23:59:59 UTC
    let walk = tree_migration::scheduler::plan(&catalog, &schedule, 100, 50);
    let expected = vec![
        (1672531200, StepAction::Skip),
        (1672552800, StepAction::RenderDay { index: 0 }),
        (1672574400, StepAction::RenderDay { index: 1 }),
        (1672596000, StepAction::RenderDay { index: 1 }),
        // night placeholders every 120 min, each captioned with its own instant
        (1672617600, StepAction::RenderNight { index: 2, width: 100, height: 50 }), // 00:00
        (1672624800, StepAction::RenderNight { index: 2, width: 100, height: 50 }), // 02:00
        (1672632000, StepAction::RenderNight { index: 2, width: 100, height: 50 }), // 04:00
        // 06:00 is day again
        (1672639200, StepAction::RenderDay { index: 2 }),
        (1672660800, StepAction::RenderDay { index: 2 }), // 12:00
        (1672682400, StepAction::RenderDay { index: 2 }), // 18:00
    ];
    assert_eq!(walk, expected);
    // termination bound: fewer than 1 + (end - start) / min_advance steps
    let min_advance = 7200; // night cadence, finer than the grid step
    assert!(((walk.len() as i64) - 1) * min_advance < schedule.end_date - schedule.start_date);
}

#[test]
fn plan_is_empty_for_an_empty_range() {
    let catalog = scenario_catalog();
    let mut schedule = night_schedule();
    schedule.end_date = schedule.start_date;
    let walk = tree_migration::scheduler::plan(&catalog, &schedule, 8, 8);
    assert!(walk.is_empty());
}
