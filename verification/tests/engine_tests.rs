use updater_core::engine::classify_response_status;
use updater_core::engine::accept_ranges_advertises_bytes;
use updater_core::engine::compute_total_size;
use updater_core::engine::parse_content_range_total;
use updater_core::engine::progress_percent;
use updater_core::engine::range_probe_confirms;
use updater_core::engine::ProgressInfo;
use updater_core::engine::ResponseAction;
use updater_core::downloader::Downloader;

#[test]
fn test_ranged_resume_answered_with_full_body_restarts() {
    assert_eq!(classify_response_status(true, 200), ResponseAction::RestartFromZero);
    assert_eq!(classify_response_status(true, 416), ResponseAction::RestartFromZero);
}

#[test]
fn test_ranged_resume_answered_with_partial_content_proceeds() {
    assert_eq!(classify_response_status(true, 206), ResponseAction::Proceed);
    assert_eq!(classify_response_status(true, 204), ResponseAction::Proceed);
}

#[test]
fn test_failure_statuses_fail_the_attempt() {
    assert_eq!(classify_response_status(true, 404), ResponseAction::Fail);
    assert_eq!(classify_response_status(true, 500), ResponseAction::Fail);
    assert_eq!(classify_response_status(false, 404), ResponseAction::Fail);
    assert_eq!(classify_response_status(false, 503), ResponseAction::Fail);
}

#[test]
fn test_plain_request_success_proceeds() {
    assert_eq!(classify_response_status(false, 200), ResponseAction::Proceed);
    assert_eq!(classify_response_status(false, 206), ResponseAction::Proceed);
}

#[test]
fn test_disk_space_threshold() {
    assert!(updater_core::engine::disk_space_sufficient(100 * 1024 * 1024));
    assert!(updater_core::engine::disk_space_sufficient(u64::MAX));
    assert!(!updater_core::engine::disk_space_sufficient(100 * 1024 * 1024 - 1));
    assert!(!updater_core::engine::disk_space_sufficient(0));
}

#[test]
fn test_accept_ranges_header() {
    assert!(accept_ranges_advertises_bytes("bytes"));
    assert!(accept_ranges_advertises_bytes("Bytes"));
    assert!(accept_ranges_advertises_bytes("none, bytes"));
    assert!(!accept_ranges_advertises_bytes("none"));
    assert!(!accept_ranges_advertises_bytes(""));
}

#[test]
fn test_range_probe_confirmation() {
    assert!(range_probe_confirms(206));
    assert!(!range_probe_confirms(200));
    assert!(!range_probe_confirms(416));
}

#[test]
fn test_parse_content_range_total() {
    assert_eq!(parse_content_range_total("bytes 0-99/1234"), 1234);
    assert_eq!(parse_content_range_total("bytes */10000"), 10000);
    assert_eq!(parse_content_range_total("bytes 4194304-10485759/10485760"), 10485760);
    assert_eq!(parse_content_range_total("bytes 0-99/*"), 0);
    assert_eq!(parse_content_range_total("bytes 0-99/"), 0);
    assert_eq!(parse_content_range_total("no slash here"), 0);
    assert_eq!(parse_content_range_total(""), 0);
    assert_eq!(parse_content_range_total("bytes 0-0/99999999999999999999999999"), 0);
    // u64 parsing accepts one leading plus sign, like the standard parser.
    assert_eq!(parse_content_range_total("bytes 0-0/+5"), 5);
    assert_eq!(parse_content_range_total("bytes 0-0/++5"), 0);
    assert_eq!(parse_content_range_total("bytes 0-0/18446744073709551615"), u64::MAX);
    assert_eq!(parse_content_range_total("bytes 0-0/18446744073709551616"), 0);
    // Only the field between the first and second slash counts.
    assert_eq!(parse_content_range_total("a/77/99"), 77);
}

#[test]
fn test_compute_total_size() {
    assert_eq!(compute_total_size(Some(600), 400, None), 1000);
    assert_eq!(compute_total_size(Some(600), 400, Some("bytes 0-0/5")), 1000);
    assert_eq!(compute_total_size(None, 0, Some("bytes 400-999/1000")), 1000);
    assert_eq!(compute_total_size(None, 400, None), 0);
    assert_eq!(compute_total_size(None, 0, Some("garbage")), 0);
}

#[test]
fn test_progress_percent() {
    assert_eq!(progress_percent(0, 0), 0);
    assert_eq!(progress_percent(123, 0), 0);
    assert_eq!(progress_percent(50, 200), 25);
    assert_eq!(progress_percent(200, 200), 100);
    assert_eq!(progress_percent(1, 3), 33);
}

#[test]
fn test_progress_samples() {
    let tick = ProgressInfo::progress_sample(50, 200, 2, 1024);
    assert_eq!(tick.percentage, 25);
    assert_eq!(tick.downloaded, 50);
    assert_eq!(tick.total, 200);
    assert_eq!(tick.retry_count, 2);
    assert!(!tick.is_retrying);
    assert!(tick.retry_reason.is_none());

    let retry = ProgressInfo::retry_sample(3, "connection reset".to_string());
    assert_eq!(retry.percentage, 0);
    assert_eq!(retry.retry_count, 3);
    assert!(retry.is_retrying);
    assert_eq!(retry.retry_reason.as_deref(), Some("connection reset"));

    let done = ProgressInfo::completion_sample(200, 200, 0, 2048);
    assert_eq!(done.percentage, 100);
    assert!(!done.is_retrying);
}

#[test]
fn test_validate_cached_file_sizes() {
    // A 0-byte file is rejected; a 500-byte file is below the minimum
    // plausible size; a 2000-byte file with the right expected size passes.
    assert!(!Downloader::validate_cached_file(true, 0, None, true));
    assert!(!Downloader::validate_cached_file(true, 500, None, true));
    assert!(Downloader::validate_cached_file(true, 2000, Some(2000), true));
}

#[test]
fn test_validate_cached_file_other_rules() {
    assert!(!Downloader::validate_cached_file(false, 2000, None, true));
    assert!(!Downloader::validate_cached_file(true, 2000, Some(3000), true));
    assert!(!Downloader::validate_cached_file(true, 2000, None, false));
    assert!(Downloader::validate_cached_file(true, 2000, None, true));
    assert!(Downloader::validate_cached_file(true, 1024, None, true));
    assert!(!Downloader::validate_cached_file(true, 1023, None, true));
}

#[test]
fn test_cache_naming() {
    assert_eq!(Downloader::get_cache_directory(), "update_cache");
    assert_eq!(
        Downloader::get_cache_filepath("update_cache", "1.2.3", "app.7z"),
        "update_cache/v1.2.3_app.7z"
    );
}

#[test]
fn test_current_version_file() {
    assert!(Downloader::is_current_version_file("v1.2.3_app.7z", "1.2.3"));
    assert!(!Downloader::is_current_version_file("v1.2.2_app.7z", "1.2.3"));
    assert!(!Downloader::is_current_version_file("app.7z", "1.2.3"));
}
