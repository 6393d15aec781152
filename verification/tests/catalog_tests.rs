//! Catalog construction and nearest-preceding selection.

use tree_migration::catalog::{SourceCatalog, SourceFrame, SourceListing};
use tree_migration::error::Error;

fn frame(stamp: i64) -> SourceFrame {
    SourceFrame {
        path: String::from("p"),
        extension: String::from("jpg"),
        stamp,
        caption: String::from(""),
    }
}

#[test]
fn select_returns_the_nearest_preceding_entry() {
    // 08:00, 12:00, 16:00 as seconds of the day
    let catalog = SourceCatalog { frames: vec![frame(28800), frame(43200), frame(57600)] };
    assert_eq!(catalog.select(48600), Some(1)); // 13:30 -> 12:00
    assert_eq!(catalog.select(28800), Some(0)); // exact hit
    assert_eq!(catalog.select(100000), Some(2)); // after the last
    assert_eq!(catalog.select(28799), None); // before the first
}

#[test]
fn select_prefers_the_later_of_equal_timestamps() {
    let catalog = SourceCatalog { frames: vec![frame(100), frame(200), frame(200), frame(300)] };
    assert_eq!(catalog.select(250), Some(2));
}

#[test]
fn build_parses_every_stem_in_listing_order() {
    let listings = vec![
        SourceListing {
            path: String::from("in/20230101_060000.jpg"),
            stem: String::from("20230101_060000"),
            extension: String::from("jpg"),
        },
        SourceListing {
            path: String::from("in/20230101_120000.png"),
            stem: String::from("20230101_120000"),
            extension: String::from("png"),
        },
    ];
    let catalog = SourceCatalog::build(listings, "%Y%m%d_%H%M%S").unwrap();
    assert_eq!(catalog.frames.len(), 2);
    assert_eq!(catalog.frames[0].stamp, 1672552800);
    assert_eq!(catalog.frames[0].path, "in/20230101_060000.jpg");
    assert_eq!(catalog.frames[0].extension, "jpg");
    assert_eq!(catalog.frames[0].caption, "01.01.2023, 06:00:00");
    assert_eq!(catalog.frames[1].stamp, 1672574400);
}

#[test]
fn build_refuses_the_run_on_the_first_bad_stem() {
    let listings = vec![
        SourceListing {
            path: String::from("in/20230101_060000.jpg"),
            stem: String::from("20230101_060000"),
            extension: String::from("jpg"),
        },
        SourceListing {
            path: String::from("in/notes.txt"),
            stem: String::from("notes"),
            extension: String::from("txt"),
        },
    ];
    let err = SourceCatalog::build(listings, "%Y%m%d_%H%M%S").unwrap_err();
    match err {
        Error::FilenameFormat(stem) => assert_eq!(stem, "notes"),
        other => panic!("unexpected error {:?}", other.message()),
    }
}
