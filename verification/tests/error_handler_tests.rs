use updater_core::error_handler::ErrorCategory;
use updater_core::error_handler::ErrorHandler;

fn chain(msgs: &[&str]) -> Vec<String> {
    msgs.iter().map(|m| m.to_string()).collect()
}

#[test]
fn test_network_error_categorization() {
    let info = ErrorHandler::categorize_error(&chain(&["Connection timeout occurred"]));

    assert_eq!(info.category, ErrorCategory::Network);
    assert!(info.is_retryable);
    assert!(info.user_message.contains("timed out"));
}

#[test]
fn test_permission_error_categorization() {
    let info = ErrorHandler::categorize_error(&chain(&["Permission denied when accessing file"]));

    assert_eq!(info.category, ErrorCategory::Permission);
    assert!(!info.is_retryable);
    assert!(info.user_message.contains("Permission denied"));
}

#[test]
fn test_filesystem_error_categorization() {
    let info = ErrorHandler::categorize_error(&chain(&["No space left on device"]));

    assert_eq!(info.category, ErrorCategory::FileSystem);
    assert!(!info.is_retryable);
    assert!(info.user_message.contains("disk space"));
}

#[test]
fn test_archive_error_categorization() {
    let info = ErrorHandler::categorize_error(&chain(&["Failed to extract zstd archive"]));

    assert_eq!(info.category, ErrorCategory::Archive);
    assert!(info.is_retryable);
    assert!(info.user_message.contains("extract"));
}

#[test]
fn test_unknown_error_categorization() {
    let info = ErrorHandler::categorize_error(&chain(&["Some random error message"]));

    assert_eq!(info.category, ErrorCategory::Unknown);
    assert!(!info.is_retryable);
    assert!(info.user_message.contains("unexpected"));
}

#[test]
fn test_network_submessages() {
    let refused = ErrorHandler::categorize_error(&chain(&["Connection refused by host"]));
    assert_eq!(refused.category, ErrorCategory::Network);
    assert_eq!(refused.user_message, "Could not connect to the download server.");

    let dns = ErrorHandler::categorize_error(&chain(&["DNS lookup error"]));
    assert_eq!(dns.category, ErrorCategory::Network);
    assert_eq!(dns.user_message, "Could not resolve the download server address.");

    let gateway = ErrorHandler::categorize_error(&chain(&["HTTP 503 returned"]));
    assert_eq!(gateway.category, ErrorCategory::Network);
    assert_eq!(gateway.user_message, "The download server is temporarily unavailable.");

    let generic = ErrorHandler::categorize_error(&chain(&["network is down"]));
    assert_eq!(generic.category, ErrorCategory::Network);
    assert_eq!(
        generic.user_message,
        "A network error occurred while downloading the update."
    );
}

#[test]
fn test_validation_error_categorization() {
    let info = ErrorHandler::categorize_error(&chain(&["Downloaded file is corrupt"]));
    assert_eq!(info.category, ErrorCategory::Validation);
    assert!(info.is_retryable);
    assert_eq!(info.user_message, "The downloaded file appears to be corrupted.");
}

#[test]
fn test_configuration_error_categorization() {
    let info = ErrorHandler::categorize_error(&chain(&["required field missing"]));
    assert_eq!(info.category, ErrorCategory::Configuration);
    assert!(!info.is_retryable);
    assert_eq!(info.user_message, "Required configuration is missing or incomplete.");
}

#[test]
fn test_category_priority_network_first() {
    // Mentions both a network keyword and an archive keyword: the network
    // category wins because it is checked first.
    let info = ErrorHandler::categorize_error(&chain(&["connection lost while reading archive"]));
    assert_eq!(info.category, ErrorCategory::Network);
}

#[test]
fn test_empty_chain_is_unknown() {
    let info = ErrorHandler::categorize_error(&Vec::new());
    assert_eq!(info.category, ErrorCategory::Unknown);
    assert!(!info.is_retryable);
    assert_eq!(info.technical_details, "");
}

#[test]
fn test_chain_matching_and_details_join() {
    let info = ErrorHandler::categorize_error(&chain(&[
        "Failed to start download",
        "connection reset by peer",
    ]));
    assert_eq!(info.category, ErrorCategory::Network);
    assert!(info.is_retryable);
    assert_eq!(
        info.technical_details,
        "Failed to start download | connection reset by peer"
    );
}
