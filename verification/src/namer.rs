//! Output naming: the deterministic path an annotated frame is written to.

use vstd::prelude::*;

use crate::config::Config;
use crate::error::Error;
use crate::timecodec::{format_token, token_of, MAX_STAMP, MIN_STAMP};

verus! {

/// The output file name for the frame due at `stamp`:
/// `<location>-<camera><token>.<extension>`, where the token is the
/// filesystem-safe rendering of the timestamp. The extension is the
/// selected source file's; a source without one is a `MissingExtension`
/// error.
pub fn output_file_name(location: &str, camera: &str, stamp: i64, extension: Option<&str>) -> (r:
    Result<String, Error>)
    requires
        MIN_STAMP <= stamp <= MAX_STAMP,
    ensures
        match r {
            Ok(name) => {
                &&& extension is Some
                &&& name@ == location@ + "-"@ + camera@ + token_of(stamp) + "."@ + extension->0@
            },
            Err(e) => {
                &&& extension is None
                &&& e is MissingExtension
            },
        },
{
    match extension {
        Some(ext) => {
            let token = format_token(stamp);
            Ok(
                String::from_str(location).concat("-").concat(camera).concat(
                    token.as_str(),
                ).concat(".").concat(ext),
            )
        },
        None => Err(Error::MissingExtension),
    }
}

/// The output path for the frame due at `stamp`: the run's output
/// directory joined with the output file name.
pub fn output_file_path(config: &Config, extension: Option<&str>, stamp: i64) -> (r: Result<
    String,
    Error,
>)
    requires
        MIN_STAMP <= stamp <= MAX_STAMP,
    ensures
        match r {
            Ok(p) => {
                &&& extension is Some
                &&& p@ == config.output_path@ + "/"@ + config.location@ + "-"@ + config.camera@
                    + token_of(stamp) + "."@ + extension->0@
            },
            Err(e) => {
                &&& extension is None
                &&& e is MissingExtension
            },
        },
{
    let name = match output_file_name(
        config.location.as_str(),
        config.camera.as_str(),
        stamp,
        extension,
    ) {
        Ok(name) => name,
        Err(e) => {
            return Err(e);
        },
    };
    let ghost ext_view = extension->0@;
    let r = String::from_str(config.output_path.as_str()).concat("/").concat(name.as_str());
    proof {
        assert(r@ =~= config.output_path@ + "/"@ + config.location@ + "-"@ + config.camera@
            + token_of(stamp) + "."@ + ext_view);
    }
    Ok(r)
}

} // verus!
