//! Errors produced by the verified core.
//!
//! Decoding, encoding and filesystem failures are reported by the unverified
//! driver with its own error type; the variants here are the ones the core's
//! own rules can raise.

use vstd::prelude::*;

verus! {

/// An error raised by the verified core.
#[derive(Debug)]
pub enum Error {
    /// A configuration field is missing, malformed or out of the supported
    /// range. Fatal at startup, before any frame is processed.
    ConfigInvalid(String),
    /// A source filename's stem does not match the configured timestamp
    /// pattern, or encodes an instant outside the supported range. Fatal for
    /// the whole run: the catalog refuses to build.
    FilenameFormat(String),
    /// A source path carries no file extension, so no output name can be
    /// derived from it.
    MissingExtension,
}

impl Error {
    /// Human-readable message, used by the driver when it reports the error.
    pub fn message(&self) -> (r: String)
        ensures
            match self {
                Error::ConfigInvalid(m) => r@ == "Invalid configuration: "@ + m@,
                Error::FilenameFormat(stem) => r@ == "File: \""@ + stem@
                    + "\" has wrong name format"@,
                Error::MissingExtension => r@ == "Could not obtain the file extension"@,
            },
    {
        match self {
            Error::ConfigInvalid(m) => String::from_str("Invalid configuration: ").concat(
                m.as_str(),
            ),
            Error::FilenameFormat(stem) => String::from_str("File: \"").concat(
                stem.as_str(),
            ).concat("\" has wrong name format"),
            Error::MissingExtension => String::from_str("Could not obtain the file extension"),
        }
    }
}

} // verus!
