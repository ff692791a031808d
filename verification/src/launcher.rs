//! The decision behind launching: whether a path names a valid executable,
//! from what the filesystem reports about it.
use vstd::prelude::*;
use crate::text::ends_with_ci;
use crate::text::str_ends_with_ci;

verus! {

/// Launches the installed program.
pub struct Launcher;

/// A path names a valid executable when it exists as a regular file and the
/// platform deems it runnable: the owner's execute bit on Unix, an `.exe`
/// name on Windows.
pub open spec fn spec_executable_valid(
    exists: bool,
    is_file: bool,
    platform_runnable: bool,
) -> bool {
    exists && is_file && platform_runnable
}

impl Launcher {
    /// Decides whether an executable may be launched, from what the
    /// filesystem reports: existence, regular-file status, and the
    /// platform's own runnability test.
    pub fn validate_executable(exists: bool, is_file: bool, platform_runnable: bool) -> (r: bool)
        ensures
            r == spec_executable_valid(exists, is_file, platform_runnable),
    {
        if !exists {
            return false;
        }
        if !is_file {
            return false;
        }
        platform_runnable
    }

    /// The Windows runnability test: the file name ends in `.exe`,
    /// whatever its case.
    pub fn has_exe_extension(file_name: &str) -> (r: bool)
        ensures
            r == ends_with_ci(file_name@, ".exe"@),
    {
        str_ends_with_ci(file_name, ".exe")
    }
}

} // verus!
