use updater_core::updater::normalize_tag;
use updater_core::updater::ReleaseAsset;
use updater_core::updater::SemVer;
use updater_core::updater::UpdateManager;

fn asset(name: &str, url: &str) -> ReleaseAsset {
    ReleaseAsset {
        name: name.to_string(),
        browser_download_url: url.to_string(),
    }
}

#[test]
fn test_update_available_for_newer_tag() {
    // Current "1.2.0" against latest tag "v1.3.0": an update is available.
    let assets = vec![asset("app.7z", "https://example.invalid/app.7z")];
    let info = UpdateManager::check_for_updates("1.2.0", "v1.3.0", &assets).unwrap();
    assert!(info.is_available);
    assert_eq!(info.latest_version, "1.3.0");
    assert_eq!(info.download_url, "https://example.invalid/app.7z");

    // Current "1.3.0" against the same tag: no update.
    let info = UpdateManager::check_for_updates("1.3.0", "v1.3.0", &assets).unwrap();
    assert!(!info.is_available);
    assert_eq!(info.download_url, "");
}

#[test]
fn test_compare_versions() {
    assert_eq!(UpdateManager::compare_versions("1.2.0", "1.3.0").unwrap(), true);
    assert_eq!(UpdateManager::compare_versions("1.3.0", "1.3.0").unwrap(), false);
    assert_eq!(UpdateManager::compare_versions("2.0.0", "1.9.9").unwrap(), false);
    assert_eq!(UpdateManager::compare_versions("1.9.9", "2.0.0").unwrap(), true);
    assert_eq!(UpdateManager::compare_versions("1.2.3", "1.2.4").unwrap(), true);
}

#[test]
fn test_compare_versions_with_prerelease() {
    assert_eq!(UpdateManager::compare_versions("1.0.0-alpha", "1.0.0").unwrap(), true);
    assert_eq!(UpdateManager::compare_versions("1.0.0", "1.0.0-alpha").unwrap(), false);
}

#[test]
fn test_compare_versions_parse_errors() {
    assert_eq!(
        UpdateManager::compare_versions("not-a-version", "1.0.0").unwrap_err(),
        "Failed to parse current version"
    );
    assert_eq!(
        UpdateManager::compare_versions("1.0.0", "garbage").unwrap_err(),
        "Failed to parse latest version"
    );
    // Two numeric components are not a full version.
    assert_eq!(
        UpdateManager::compare_versions("1.0", "1.0.0").unwrap_err(),
        "Failed to parse current version"
    );
}

#[test]
fn test_normalize_tag() {
    assert_eq!(normalize_tag("v1.3.0"), "1.3.0");
    assert_eq!(normalize_tag("1.3.0"), "1.3.0");
    assert_eq!(normalize_tag("vv2.0.0"), "2.0.0");
    assert_eq!(normalize_tag(""), "");
}

#[test]
fn test_semver_precedes() {
    let a = SemVer { major: 1, minor: 2, patch: 0, pre_empty: true };
    let b = SemVer { major: 1, minor: 3, patch: 0, pre_empty: true };
    assert!(a.precedes(&b));
    assert!(!b.precedes(&a));
    assert!(!a.precedes(&a));

    let pre = SemVer { major: 1, minor: 2, patch: 0, pre_empty: false };
    assert!(pre.precedes(&a));
    assert!(!a.precedes(&pre));
}

#[test]
fn test_find_preferred_asset_prefers_7z() {
    let assets = vec![
        asset("notes.txt", "u0"),
        asset("app.zip", "u1"),
        asset("app.7z", "u2"),
        asset("other.7z", "u3"),
    ];
    assert_eq!(UpdateManager::find_preferred_asset(&assets).unwrap(), "u2");
}

#[test]
fn test_find_preferred_asset_fallbacks() {
    let zip_only = vec![asset("app.zip", "z")];
    assert_eq!(UpdateManager::find_preferred_asset(&zip_only).unwrap(), "z");

    let targz = vec![asset("app.tar.gz", "t"), asset("app.tgz", "t2")];
    assert_eq!(UpdateManager::find_preferred_asset(&targz).unwrap(), "t");

    let tarzst = vec![asset("app.tar.zst", "s")];
    assert_eq!(UpdateManager::find_preferred_asset(&tarzst).unwrap(), "s");

    let none = vec![asset("readme.md", "r")];
    assert!(UpdateManager::find_preferred_asset(&none).is_none());
}

#[test]
fn test_no_asset_means_empty_url() {
    let assets = vec![asset("readme.md", "r")];
    let info = UpdateManager::check_for_updates("1.0.0", "v1.1.0", &assets).unwrap();
    assert!(info.is_available);
    assert_eq!(info.download_url, "");
}
