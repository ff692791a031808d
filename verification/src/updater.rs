//! Release evaluation: deciding from a release tag and its assets whether
//! an update is available and which archive to download.
use vstd::prelude::*;
use vstd::string::StrSliceExecFns;
use crate::text::ends_with;
use crate::text::first_not_char;
use crate::text::str_ends_with;

verus! {

/// The outcome of an update check.
#[derive(Debug, Clone)]
pub struct UpdateInfo {
    pub latest_version: String,
    pub download_url: String,
    pub is_available: bool,
}

/// One downloadable asset of a release.
#[derive(Debug, Clone)]
pub struct ReleaseAsset {
    pub name: String,
    pub browser_download_url: String,
}

/// A parsed version: the numeric triple, and whether the pre-release part
/// is empty.
#[derive(Debug, Clone, Copy, PartialEq, Eq, Structural)]
pub struct SemVer {
    pub major: u64,
    pub minor: u64,
    pub patch: u64,
    pub pre_empty: bool,
}

/// What `semver::Version::parse` returns for a given text: the parsed
/// numbers when the text is a valid version, `None` otherwise.  The result
/// depends on the text alone.
pub uninterp spec fn parsed_version_of(s: Seq<char>) -> Option<SemVer>;

/// Relies on `semver::Version::parse`: parses a SemVer 2.0.0 version
/// string, yielding its major, minor and patch numbers and whether its
/// pre-release part is empty.
#[verifier::external_body]
fn parse_semver(s: &str) -> (r: Option<SemVer>)
    ensures
        r == parsed_version_of(s@),
{
    match semver::Version::parse(s) {
        Ok(v) => Some(
            SemVer { major: v.major, minor: v.minor, patch: v.patch, pre_empty: v.pre.is_empty() },
        ),
        Err(_) => None,
    }
}

/// `a` precedes `b`: the numeric triples are ordered lexicographically,
/// and with equal triples a pre-release precedes the plain release.  Two
/// versions with equal triples that both carry pre-release parts are not
/// ordered here (their pre-release text is not compared).
pub open spec fn version_precedes(a: SemVer, b: SemVer) -> bool {
    ||| a.major < b.major
    ||| (a.major == b.major && a.minor < b.minor)
    ||| (a.major == b.major && a.minor == b.minor && a.patch < b.patch)
    ||| (a.major == b.major && a.minor == b.minor && a.patch == b.patch && !a.pre_empty
        && b.pre_empty)
}

impl SemVer {
    /// Does this version precede the other?
    pub fn precedes(&self, other: &SemVer) -> (r: bool)
        ensures
            r == version_precedes(*self, *other),
    {
        if self.major != other.major {
            self.major < other.major
        } else if self.minor != other.minor {
            self.minor < other.minor
        } else if self.patch != other.patch {
            self.patch < other.patch
        } else {
            !self.pre_empty && other.pre_empty
        }
    }
}

/// A release tag with every leading `v` removed.
pub open spec fn strip_leading_v(s: Seq<char>) -> Seq<char> {
    s.subrange(first_not_char(s, 'v', 0), s.len() as int)
}

/// Removes every leading `v` from a release tag ("v1.3.0" gives "1.3.0").
pub fn normalize_tag(tag: &str) -> (r: String)
    ensures
        r@ == strip_leading_v(tag@),
{
    let len = tag.unicode_len();
    let mut i: usize = 0;
    while i < len && tag.get_char(i) == 'v'
        invariant
            len == tag@.len(),
            0 <= i <= len,
            first_not_char(tag@, 'v', 0) == first_not_char(tag@, 'v', i as int),
        decreases len - i,
    {
        i += 1;
    }
    let rest = tag.substring_char(i, len);
    rest.to_owned()
}

/// The preference tiers of archive formats, most preferred first.
pub open spec fn asset_matches_tier(name: Seq<char>, tier: int) -> bool {
    if tier == 0 {
        ends_with(name, ".7z"@)
    } else if tier == 1 {
        ends_with(name, ".zip"@)
    } else if tier == 2 {
        ends_with(name, ".tar.gz"@) || ends_with(name, ".tgz"@)
    } else {
        ends_with(name, ".tar.zst"@) || ends_with(name, ".tar.zstd"@)
    }
}

/// The first asset at or after `from` whose name matches the tier; the
/// asset count when none does.
pub open spec fn first_match_in_tier(assets: Seq<ReleaseAsset>, tier: int, from: int) -> int
    decreases assets.len() - from,
{
    if from < 0 || from >= assets.len() {
        assets.len() as int
    } else if asset_matches_tier(assets[from].name@, tier) {
        from
    } else {
        first_match_in_tier(assets, tier, from + 1)
    }
}

/// The chosen asset: the first match of the most preferred tier that has
/// any match; the asset count when no tier matches.
pub open spec fn chosen_asset_index(assets: Seq<ReleaseAsset>) -> int {
    if first_match_in_tier(assets, 0, 0) < assets.len() {
        first_match_in_tier(assets, 0, 0)
    } else if first_match_in_tier(assets, 1, 0) < assets.len() {
        first_match_in_tier(assets, 1, 0)
    } else if first_match_in_tier(assets, 2, 0) < assets.len() {
        first_match_in_tier(assets, 2, 0)
    } else {
        first_match_in_tier(assets, 3, 0)
    }
}

/// Scans the assets for the first name matching the given tier.
fn scan_tier(assets: &Vec<ReleaseAsset>, tier: u8) -> (r: usize)
    requires
        tier <= 3,
    ensures
        r == first_match_in_tier(assets@, tier as int, 0),
        r <= assets@.len(),
{
    let mut i: usize = 0;
    let n = assets.len();
    while i < n
        invariant
            n == assets@.len(),
            0 <= i <= n,
            first_match_in_tier(assets@, tier as int, 0) == first_match_in_tier(
                assets@,
                tier as int,
                i as int,
            ),
        decreases n - i,
    {
        let name = assets[i].name.as_str();
        let matched = if tier == 0 {
            str_ends_with(name, ".7z")
        } else if tier == 1 {
            str_ends_with(name, ".zip")
        } else if tier == 2 {
            str_ends_with(name, ".tar.gz") || str_ends_with(name, ".tgz")
        } else {
            str_ends_with(name, ".tar.zst") || str_ends_with(name, ".tar.zstd")
        };
        if matched {
            return i;
        }
        i += 1;
    }
    n
}

/// Manages update checks against a release feed.
pub struct UpdateManager;

impl UpdateManager {
    /// Is the latest version newer than the current one?  Errs, with a
    /// message saying which, when either text fails to parse.
    pub fn compare_versions(current: &str, latest: &str) -> (r: Result<bool, String>)
        ensures
            parsed_version_of(current@) is None ==> (r matches Err(e) && e@
                == "Failed to parse current version"@),
            parsed_version_of(current@) is Some ==> (parsed_version_of(latest@) is None ==> (
            r matches Err(e) && e@ == "Failed to parse latest version"@)),
            (parsed_version_of(current@) matches Some(a) ==> (parsed_version_of(latest@)
                matches Some(b) ==> r matches Ok(v) && v == version_precedes(a, b))),
    {
        let cur = match parse_semver(current) {
            Some(v) => v,
            None => {
                return Err("Failed to parse current version".to_owned());
            },
        };
        let lat = match parse_semver(latest) {
            Some(v) => v,
            None => {
                return Err("Failed to parse latest version".to_owned());
            },
        };
        Ok(cur.precedes(&lat))
    }

    /// Picks the download URL of the preferred asset: `.7z` first, then
    /// `.zip`, then `.tar.gz`/`.tgz`, then `.tar.zst`/`.tar.zstd`.
    pub fn find_preferred_asset(assets: &Vec<ReleaseAsset>) -> (r: Option<String>)
        ensures
            chosen_asset_index(assets@) <= assets@.len(),
            chosen_asset_index(assets@) == assets@.len() <==> r is None,
            chosen_asset_index(assets@) < assets@.len() ==> (r matches Some(u) && u@
                == assets@[chosen_asset_index(assets@)].browser_download_url@),
    {
        let i0 = scan_tier(assets, 0);
        if i0 < assets.len() {
            return Some(assets[i0].browser_download_url.clone());
        }
        let i1 = scan_tier(assets, 1);
        if i1 < assets.len() {
            return Some(assets[i1].browser_download_url.clone());
        }
        let i2 = scan_tier(assets, 2);
        if i2 < assets.len() {
            return Some(assets[i2].browser_download_url.clone());
        }
        let i3 = scan_tier(assets, 3);
        if i3 < assets.len() {
            return Some(assets[i3].browser_download_url.clone());
        }
        None
    }

    /// Evaluates a fetched release against the current version: normalizes
    /// the tag, compares versions, and picks the preferred asset's URL when
    /// an update is available (empty when none is found or no update is
    /// due).
    pub fn check_for_updates(current_version: &str, tag_name: &str, assets: &Vec<ReleaseAsset>)
        -> (r: Result<UpdateInfo, String>)
        ensures
            parsed_version_of(current_version@) is None ==> (r matches Err(e) && e@
                == "Failed to parse current version"@),
            parsed_version_of(current_version@) is Some ==> (parsed_version_of(
                strip_leading_v(tag_name@),
            ) is None ==> (r matches Err(e) && e@ == "Failed to parse latest version"@)),
            (parsed_version_of(current_version@) matches Some(a) ==> (parsed_version_of(
                strip_leading_v(tag_name@),
            ) matches Some(b) ==> (r matches Ok(info) && {
                &&& info.latest_version@ == strip_leading_v(tag_name@)
                &&& info.is_available == version_precedes(a, b)
                &&& (!version_precedes(a, b) ==> info.download_url@ == Seq::<char>::empty())
                &&& (version_precedes(a, b) ==> info.download_url@ == if chosen_asset_index(
                    assets@,
                ) < assets@.len() {
                    assets@[chosen_asset_index(assets@)].browser_download_url@
                } else {
                    Seq::<char>::empty()
                })
            }))),
    {
        let latest_version = normalize_tag(tag_name);
        let is_available = match Self::compare_versions(current_version, latest_version.as_str()) {
            Ok(v) => v,
            Err(e) => {
                return Err(e);
            },
        };
        let download_url = if is_available {
            match Self::find_preferred_asset(assets) {
                Some(u) => u,
                None => String::new(),
            }
        } else {
            String::new()
        };
        Ok(UpdateInfo { latest_version, download_url, is_available })
    }
}

} // verus!
