//! Job control. No conversion engine stands behind these commands: they
//! accept their arguments and report success.

use vstd::prelude::*;

verus! {

/// Reports that the converter binary is available. Always `Ok(true)`.
pub fn check_ffmpeg() -> (result: Result<bool, String>)
    ensures
        result == Ok::<bool, String>(true),
{
    Ok(true)
}

/// Accepts a request to start converting. Always succeeds, whatever the
/// arguments, and does nothing.
pub fn start_conversion(ffmpeg_path: String, output_dir: String) -> (result: Result<(), String>)
    ensures
        result is Ok,
{
    Ok(())
}

/// Accepts a request to stop converting. Always succeeds, and does nothing.
pub fn stop_conversion() -> (result: Result<(), String>)
    ensures
        result is Ok,
{
    Ok(())
}

} // verus!
