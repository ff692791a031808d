//! Cache-file naming and cached-file validation for the download engine.
use vstd::prelude::*;
use vstd::string::StringExecFns;
use crate::text::starts_with;
use crate::text::str_starts_with;

verus! {

/// Performs resumable downloads and manages the update cache.
pub struct Downloader;

/// A cached file is trusted when it exists, matches the expected size when
/// one is known, is non-empty, is at least a plausible minimum size (1 KiB),
/// and a probe read of its first bytes succeeded.
pub open spec fn spec_validate_cached_file(
    exists: bool,
    file_size: u64,
    expected_size: Option<u64>,
    read_ok: bool,
) -> bool {
    &&& exists
    &&& (expected_size matches Some(e) ==> file_size == e)
    &&& file_size != 0
    &&& file_size >= 1024
    &&& read_ok
}

impl Downloader {
    /// Decides whether a cached file can be trusted, from what the
    /// filesystem reports about it: whether it exists, its length, the
    /// expected length when one is known, and whether a probe read of its
    /// first bytes succeeded.
    pub fn validate_cached_file(
        exists: bool,
        file_size: u64,
        expected_size: Option<u64>,
        read_ok: bool,
    ) -> (r: bool)
        ensures
            r == spec_validate_cached_file(exists, file_size, expected_size, read_ok),
    {
        if !exists {
            return false;
        }
        if let Some(expected) = expected_size {
            if file_size != expected {
                return false;
            }
        }
        if file_size == 0 {
            return false;
        }
        if file_size < 1024 {
            return false;
        }
        read_ok
    }

    /// The cache file name for a release: the cache directory, a slash,
    /// then the version tag and the original file name.
    pub fn get_cache_filepath(cache_dir: &str, version: &str, original_filename: &str) -> (r:
        String)
        ensures
            r@ == cache_dir@ + "/v"@ + version@ + "_"@ + original_filename@,
    {
        let mut out = String::new();
        out.append(cache_dir);
        out.append("/v");
        out.append(version);
        out.append("_");
        out.append(original_filename);
        proof {
            assert(out@ =~= cache_dir@ + "/v"@ + version@ + "_"@ + original_filename@);
        }
        out
    }

    /// The cache directory's name.
    pub fn get_cache_directory() -> (r: String)
        ensures
            r@ == "update_cache"@,
    {
        "update_cache".to_owned()
    }

    /// A cache file belongs to the current version exactly when its name
    /// carries the version tag that `get_cache_filepath` gives it.
    pub fn is_current_version_file(filename: &str, current_version: &str) -> (r: bool)
        ensures
            r == starts_with(filename@, "v"@ + current_version@ + "_"@),
    {
        let mut prefix = String::new();
        prefix.append("v");
        prefix.append(current_version);
        prefix.append("_");
        proof {
            assert(prefix@ =~= "v"@ + current_version@ + "_"@);
        }
        str_starts_with(filename, prefix.as_str())
    }
}

} // verus!
