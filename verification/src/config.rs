//! The run configuration: raw configuration-file values validated and
//! derived into the immutable `Config` a run works from.
//!
//! Loading the configuration file, checking the filesystem and loading the
//! font are the driver's work; this module holds the rules: which raw
//! values are valid, and what the derived fields are.

use vstd::prelude::*;

use crate::error::Error;
use crate::font::CaptionFont;
use crate::frame::Color;
use crate::scheduler::Schedule;
use crate::timecodec::{civil_stamp, supported, ymd_hms_stamp, MAX_STAMP, MIN_STAMP};

verus! {

/// Largest accepted duration field, in minutes: keeps durations within
/// `MAX_STAMP` once converted to seconds.
pub const MAX_MINUTES: i64 = 4223371679;

/// The region-of-interest rectangle the diagnostic mean colour is taken
/// over.
#[derive(Clone, Copy, PartialEq, Eq, Structural, Debug)]
pub struct Roi {
    pub x: u32,
    pub y: u32,
    pub width: u32,
    pub height: u32,
}

/// The plain values of the configuration file, as the driver hands them
/// over: paths as strings, dates as `(year, month, day)`, durations in
/// minutes, night times as hours of the day.
pub struct RawSettings {
    pub images_path: String,
    pub roi: (i32, i32, i32, i32),
    pub location: String,
    pub camera: String,
    pub file_name: String,
    pub start_date: (u32, u32, u32),
    pub end_date: (u32, u32, u32),
    pub duration: i64,
    pub night_times: (u32, u32),
    pub night_color: Color,
    pub night_duration: i64,
}

/// The validated, immutable configuration of a run.
pub struct Config {
    /// Directory the source frames are listed from.
    pub input_path: String,
    /// Directory the outputs are written to: `<input_path>/Output`.
    pub output_path: String,
    /// Diagnostic region of interest.
    pub roi: Roi,
    /// Caption font and drawing parameters.
    pub font: CaptionFont,
    /// Location string for captions and output names.
    pub location: String,
    /// Camera string for captions and output names.
    pub camera: String,
    /// strptime pattern the source filename stems are parsed with.
    pub file_name: String,
    /// The scheduling parameters.
    pub schedule: Schedule,
    /// Colour of night placeholder frames.
    pub night_color: Color,
}

impl RawSettings {
    /// The instant of the start date at 00:00:00 UTC, as the calendar
    /// defines it.
    pub open spec fn spec_start_stamp(self) -> Option<i64> {
        civil_stamp(self.start_date.0, self.start_date.1, self.start_date.2, 0, 0, 0)
    }

    /// The instant of the end date at 23:59:59 UTC.
    pub open spec fn spec_end_stamp(self) -> Option<i64> {
        civil_stamp(self.end_date.0, self.end_date.1, self.end_date.2, 23, 59, 59)
    }

    /// Validity of the scheduling fields: real calendar dates in the
    /// supported range and order, a positive grid step, a non-negative
    /// night cadence, and night hours below 24 where the window is
    /// enabled.
    pub open spec fn schedule_valid(self) -> bool {
        &&& (self.night_times.0 == self.night_times.1 || (self.night_times.0 < 24
            && self.night_times.1 < 24))
        &&& 0 <= self.night_duration <= MAX_MINUTES
        &&& 0 < self.duration <= MAX_MINUTES
        &&& match self.spec_start_stamp() {
            Some(s) => supported(s),
            None => false,
        }
        &&& match self.spec_end_stamp() {
            Some(s) => supported(s),
            None => false,
        }
        &&& self.spec_start_stamp()->0 <= self.spec_end_stamp()->0
    }

    /// Validity of the raw values: a valid schedule and a non-negative
    /// region of interest.
    pub open spec fn valid(self) -> bool {
        &&& self.schedule_valid()
        &&& self.roi.0 >= 0 && self.roi.1 >= 0 && self.roi.2 >= 0 && self.roi.3 >= 0
    }

    /// The schedule the raw scheduling fields derive to: dates become
    /// instants, durations become seconds, equal night hours disable the
    /// night window, and a zero night cadence selects skip-night mode.
    /// Every invalid raw value is a `ConfigInvalid` error.
    pub fn schedule_of(&self) -> (r: Result<Schedule, Error>)
        ensures
            self.schedule_valid() <==> r is Ok,
            match r {
                Ok(s) => {
                    &&& s.wf()
                    &&& Some(s.start_date) == self.spec_start_stamp()
                    &&& Some(s.end_date) == self.spec_end_stamp()
                    &&& s.duration == self.duration * 60
                    &&& s.night_duration == self.night_duration * 60
                    &&& (s.skip_night <==> self.night_duration == 0)
                    &&& s.night_times == (if self.night_times.0 == self.night_times.1 {
                        Option::<(i64, i64)>::None
                    } else {
                        Some(
                            (
                                (self.night_times.0 * 3600) as i64,
                                (self.night_times.1 * 3600) as i64,
                            ),
                        )
                    })
                },
                Err(e) => e matches Error::ConfigInvalid(_),
            },
    {
        let night_times: Option<(i64, i64)> = if self.night_times.0 == self.night_times.1 {
            None
        } else if self.night_times.0 < 24 && self.night_times.1 < 24 {
            Some(((self.night_times.0 as i64) * 3600, (self.night_times.1 as i64) * 3600))
        } else {
            return Err(
                Error::ConfigInvalid(String::from_str("night_times hours must be below 24")),
            );
        };
        if !(0 <= self.night_duration && self.night_duration <= MAX_MINUTES) {
            return Err(
                Error::ConfigInvalid(String::from_str("night_duration is out of range")),
            );
        }
        if !(0 < self.duration && self.duration <= MAX_MINUTES) {
            return Err(Error::ConfigInvalid(String::from_str("duration is out of range")));
        }
        let start_date = match ymd_hms_stamp(
            self.start_date.0,
            self.start_date.1,
            self.start_date.2,
            0,
            0,
            0,
        ) {
            Some(s) if MIN_STAMP <= s && s <= MAX_STAMP => s,
            _ => {
                return Err(
                    Error::ConfigInvalid(String::from_str("start_date is not a supported date")),
                );
            },
        };
        let end_date = match ymd_hms_stamp(
            self.end_date.0,
            self.end_date.1,
            self.end_date.2,
            23,
            59,
            59,
        ) {
            Some(s) if MIN_STAMP <= s && s <= MAX_STAMP => s,
            _ => {
                return Err(
                    Error::ConfigInvalid(String::from_str("end_date is not a supported date")),
                );
            },
        };
        if start_date > end_date {
            return Err(
                Error::ConfigInvalid(String::from_str("start_date lies after end_date")),
            );
        }
        Ok(
            Schedule {
                start_date,
                end_date,
                duration: self.duration * 60,
                night_times,
                night_duration: self.night_duration * 60,
                skip_night: self.night_duration == 0,
            },
        )
    }
}

impl Config {
    /// A configuration is well-formed when its schedule is.
    pub open spec fn wf(self) -> bool {
        self.schedule.wf()
    }

    /// Validates raw configuration values and derives the run's
    /// configuration: dates become instants, durations become seconds,
    /// equal night hours disable the night window, a zero night cadence
    /// selects skip-night mode, and the output directory is derived from
    /// the input directory. Every invalid raw value is a `ConfigInvalid`
    /// error.
    pub fn from(raw: RawSettings, font: CaptionFont) -> (r: Result<Config, Error>)
        ensures
            raw.valid() <==> r is Ok,
            match r {
                Ok(c) => {
                    &&& c.wf()
                    &&& c.input_path@ == raw.images_path@
                    &&& c.output_path@ == raw.images_path@ + "/Output"@
                    &&& c.roi == (Roi {
                        x: raw.roi.0 as u32,
                        y: raw.roi.1 as u32,
                        width: raw.roi.2 as u32,
                        height: raw.roi.3 as u32,
                    })
                    &&& c.location == raw.location
                    &&& c.camera == raw.camera
                    &&& c.file_name == raw.file_name
                    &&& c.night_color == raw.night_color
                    &&& Some(c.schedule.start_date) == raw.spec_start_stamp()
                    &&& Some(c.schedule.end_date) == raw.spec_end_stamp()
                    &&& c.schedule.duration == raw.duration * 60
                    &&& c.schedule.night_duration == raw.night_duration * 60
                    &&& (c.schedule.skip_night <==> raw.night_duration == 0)
                    &&& c.schedule.night_times == (if raw.night_times.0 == raw.night_times.1 {
                        Option::<(i64, i64)>::None
                    } else {
                        Some(
                            (
                                (raw.night_times.0 * 3600) as i64,
                                (raw.night_times.1 * 3600) as i64,
                            ),
                        )
                    })
                },
                Err(e) => e matches Error::ConfigInvalid(_),
            },
    {
        let schedule = match raw.schedule_of() {
            Ok(s) => s,
            Err(e) => {
                return Err(e);
            },
        };
        if !(raw.roi.0 >= 0 && raw.roi.1 >= 0 && raw.roi.2 >= 0 && raw.roi.3 >= 0) {
            return Err(Error::ConfigInvalid(String::from_str("roi must be non-negative")));
        }
        let output_path = String::from_str(raw.images_path.as_str()).concat("/Output");
        Ok(
            Config {
                input_path: raw.images_path,
                output_path,
                roi: Roi {
                    x: raw.roi.0 as u32,
                    y: raw.roi.1 as u32,
                    width: raw.roi.2 as u32,
                    height: raw.roi.3 as u32,
                },
                font,
                location: raw.location,
                camera: raw.camera,
                file_name: raw.file_name,
                schedule,
                night_color: raw.night_color,
            },
        )
    }
}

} // verus!
