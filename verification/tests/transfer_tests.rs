use updater_core::retry::RetryManager;
use updater_core::transfer::run_attempt;
use updater_core::transfer::run_download;
use updater_core::transfer::AttemptPlan;
use updater_core::transfer::DownloadError;
use updater_core::transfer::ServerModel;

const MIB: usize = 1024 * 1024;

fn server(content: Vec<u8>, advertises: bool, honors: bool, probe_fails: bool) -> ServerModel {
    ServerModel {
        content,
        advertises_ranges: advertises,
        honors_ranges: honors,
        probe_fails,
    }
}

fn patterned(n: usize) -> Vec<u8> {
    let mut v = Vec::with_capacity(n);
    for i in 0..n {
        v.push((i % 251) as u8);
    }
    v
}

#[test]
fn test_interrupted_download_resumes_from_offset() {
    // A 10 MiB file interrupted after 4 MiB with a connection-reset
    // message; the probe confirms range support; the second attempt
    // requests the bytes from 4194304 on; the final size is 10 MiB and the
    // two attempts together write exactly 10 MiB of distinct byte ranges.
    let content = patterned(10 * MIB);
    let sv = server(content.clone(), true, true, false);
    let mut disk: Vec<u8> = Vec::new();

    let first = run_attempt(
        &mut disk,
        &sv,
        false,
        AttemptPlan { fail_after: Some(4 * MIB), clean_end: false },
    );
    assert_eq!(first.write_start, 0);
    assert_eq!(first.bytes_written, 4 * MIB);
    assert_eq!(first.outcome.unwrap_err(), "connection reset by peer");
    assert_eq!(disk.len(), 4 * MIB);

    let second = run_attempt(
        &mut disk,
        &sv,
        true,
        AttemptPlan { fail_after: None, clean_end: false },
    );
    assert_eq!(second.write_start, 4194304);
    assert_eq!(second.bytes_written, 6 * MIB);
    assert!(second.outcome.is_ok());
    assert_eq!(disk.len(), 10 * MIB);
    assert_eq!(first.bytes_written + second.bytes_written, 10 * MIB);
    assert_eq!(disk, content);
}

#[test]
fn test_full_body_answer_to_ranged_request_restarts() {
    // The server answers the ranged resume request with 200 and the full
    // body: the engine deletes the partial file, restarts at offset zero,
    // and completes with the full content.
    let content = patterned(100_000);
    let sv = server(content.clone(), true, false, false);
    let mut disk: Vec<u8> = content[..40_000].to_vec();

    let report = run_attempt(
        &mut disk,
        &sv,
        true,
        AttemptPlan { fail_after: None, clean_end: false },
    );
    assert_eq!(report.write_start, 0);
    assert_eq!(report.bytes_written, 100_000);
    assert!(report.outcome.is_ok());
    assert_eq!(disk, content);
}

#[test]
fn test_probe_denial_restarts_from_zero() {
    // The server neither advertises nor honors ranges: a resume attempt
    // never appends; it restarts from zero and ends with the full content.
    let content = patterned(50_000);
    let sv = server(content.clone(), false, false, false);
    let mut disk: Vec<u8> = content[..20_000].to_vec();

    let report = run_attempt(
        &mut disk,
        &sv,
        true,
        AttemptPlan { fail_after: None, clean_end: false },
    );
    assert_eq!(report.write_start, 0);
    assert!(report.outcome.is_ok());
    assert_eq!(disk.len(), sv.content.len());
    assert_eq!(disk, content);
}

#[test]
fn test_unanswered_probe_resumes_optimistically() {
    let content = patterned(30_000);
    let sv = server(content.clone(), false, true, true);
    let mut disk: Vec<u8> = content[..10_000].to_vec();

    let report = run_attempt(
        &mut disk,
        &sv,
        true,
        AttemptPlan { fail_after: None, clean_end: false },
    );
    assert_eq!(report.write_start, 10_000);
    assert!(report.outcome.is_ok());
    assert_eq!(disk, content);
}

#[test]
fn test_disk_length_accounts_for_written_bytes_across_attempts() {
    // After every attempt, the on-disk length equals the write offset plus
    // the bytes persisted, so the next attempt resumes from exactly there.
    let content = patterned(9_000);
    let sv = server(content.clone(), true, true, false);
    let mut disk: Vec<u8> = Vec::new();

    let mut resume = false;
    for cut in [Some(2_000), Some(3_500), None] {
        let before = disk.len();
        let report = run_attempt(&mut disk, &sv, resume, AttemptPlan { fail_after: cut, clean_end: false });
        assert_eq!(report.write_start, before);
        assert_eq!(disk.len(), report.write_start + report.bytes_written);
        resume = true;
    }
    assert_eq!(disk, content);
}

#[test]
fn test_run_download_retries_and_completes() {
    let content = patterned(10 * MIB);
    let sv = server(content.clone(), true, true, false);
    let mut disk: Vec<u8> = Vec::new();
    let manager = RetryManager::for_network_operations();

    let plan = vec![AttemptPlan { fail_after: Some(4 * MIB), clean_end: false }];
    let result = run_download(&mut disk, &sv, false, &plan, &manager);
    assert_eq!(result.unwrap(), 1);
    assert_eq!(disk, content);
}

#[test]
fn test_run_download_exhausts_retries() {
    let content = patterned(10_000);
    let sv = server(content.clone(), true, true, false);
    let mut disk: Vec<u8> = Vec::new();
    let manager = RetryManager::for_network_operations();

    let cut = AttemptPlan { fail_after: Some(1_000), clean_end: false };
    let plan = vec![cut, cut, cut, cut, cut, cut];
    let result = run_download(&mut disk, &sv, false, &plan, &manager);
    match result {
        Err(DownloadError::Exhausted { message }) => {
            assert_eq!(message, "connection reset by peer");
        }
        _ => panic!("expected exhaustion after the retry budget is spent"),
    }
    assert!(disk.len() < content.len());
}

#[test]
fn test_run_download_stops_on_non_retryable_error() {
    // A stream that ends cleanly short of the expected total is reported as
    // premature termination, which matches no retry keyword: no retry.
    let content = patterned(10_000);
    let sv = server(content.clone(), true, true, false);
    let mut disk: Vec<u8> = Vec::new();
    let manager = RetryManager::for_network_operations();

    let plan = vec![AttemptPlan { fail_after: Some(1_000), clean_end: true }];
    let result = run_download(&mut disk, &sv, false, &plan, &manager);
    match result {
        Err(DownloadError::Fatal { message }) => {
            assert_eq!(message, "download ended prematurely");
        }
        _ => panic!("expected a fatal error on the first attempt"),
    }
    assert_eq!(disk.len(), 1_000);
}

#[test]
fn test_run_download_resumes_prior_partial_file() {
    // The destination file left by an earlier run is the resumption anchor:
    // with the resume hint set, the first attempt appends from its length.
    let content = patterned(5_000);
    let sv = server(content.clone(), true, true, false);
    let mut disk: Vec<u8> = content[..2_000].to_vec();
    let manager = RetryManager::for_network_operations();

    let plan: Vec<AttemptPlan> = Vec::new();
    let result = run_download(&mut disk, &sv, true, &plan, &manager);
    assert_eq!(result.unwrap(), 0);
    assert_eq!(disk, content);
}

#[test]
fn test_run_download_wraps_failure_on_last_attempt_as_exhaustion() {
    // Even a non-retryable failure is reported as exhaustion when it lands
    // on the last permitted attempt.
    let content = patterned(10_000);
    let sv = server(content.clone(), true, true, false);
    let mut disk: Vec<u8> = Vec::new();
    let manager = RetryManager::for_network_operations();

    let reset = AttemptPlan { fail_after: Some(1_000), clean_end: false };
    let premature = AttemptPlan { fail_after: Some(1_000), clean_end: true };
    let plan = vec![reset, reset, reset, reset, reset, premature];
    let result = run_download(&mut disk, &sv, false, &plan, &manager);
    match result {
        Err(DownloadError::Exhausted { message }) => {
            assert_eq!(message, "download ended prematurely");
        }
        _ => panic!("expected the final attempt's failure to be wrapped as exhaustion"),
    }
}

#[test]
fn test_run_download_without_range_support_restarts_each_attempt() {
    let content = patterned(8_000);
    let sv = server(content.clone(), false, false, false);
    let mut disk: Vec<u8> = Vec::new();
    let manager = RetryManager::for_network_operations();

    let plan = vec![AttemptPlan { fail_after: Some(3_000), clean_end: false }];
    let result = run_download(&mut disk, &sv, false, &plan, &manager);
    assert_eq!(result.unwrap(), 1);
    assert_eq!(disk.len(), content.len());
    assert_eq!(disk, content);
}
