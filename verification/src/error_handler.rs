//! Error classification: maps an error's causal chain (as plain text
//! messages) to a category, a user-facing message, a recovery suggestion,
//! and a retryable flag.  Matching is keyword-based, ASCII-case-insensitive,
//! over every message of the chain, with a fixed priority order:
//! network, filesystem, permission, validation, configuration, archive,
//! unknown — first match wins.
use vstd::prelude::*;
use vstd::string::StringExecFns;
use crate::text::contains_ci;
use crate::text::str_contains_ci;

verus! {

/// Categories an error can fall into.
#[derive(Debug, Clone, Copy, PartialEq, Eq, Structural)]
pub enum ErrorCategory {
    Network,
    FileSystem,
    Permission,
    Validation,
    Configuration,
    Archive,
    Unknown,
}

/// Enhanced error information with user-friendly details.
#[derive(Debug, Clone)]
pub struct ErrorInfo {
    pub category: ErrorCategory,
    pub user_message: String,
    pub technical_details: String,
    pub recovery_suggestion: String,
    pub is_retryable: bool,
}

/// Categorizes error chains and provides user-friendly messages.
pub struct ErrorHandler;

/// Some message of the chain contains the keyword,
/// ASCII-case-insensitively.
pub open spec fn chain_has(chain: Seq<Seq<char>>, kw: Seq<char>) -> bool {
    exists|m: int| 0 <= m < chain.len() && contains_ci(chain[m], kw)
}

pub open spec fn is_network_chain(chain: Seq<Seq<char>>) -> bool {
    ||| chain_has(chain, "network"@)
    ||| chain_has(chain, "connection"@)
    ||| chain_has(chain, "timeout"@)
    ||| chain_has(chain, "timed out"@)
    ||| chain_has(chain, "dns"@)
    ||| chain_has(chain, "host"@)
    ||| chain_has(chain, "unreachable"@)
    ||| chain_has(chain, "refused"@)
    ||| chain_has(chain, "reset"@)
    ||| chain_has(chain, "broken pipe"@)
    ||| chain_has(chain, "502"@)
    ||| chain_has(chain, "503"@)
    ||| chain_has(chain, "504"@)
    ||| chain_has(chain, "gateway timeout"@)
    ||| chain_has(chain, "service unavailable"@)
    ||| chain_has(chain, "bad gateway"@)
}

pub open spec fn is_filesystem_chain(chain: Seq<Seq<char>>) -> bool {
    ||| chain_has(chain, "no such file"@)
    ||| chain_has(chain, "file not found"@)
    ||| chain_has(chain, "directory not found"@)
    ||| chain_has(chain, "disk"@)
    ||| chain_has(chain, "space"@)
    ||| chain_has(chain, "full"@)
    ||| chain_has(chain, "read-only"@)
    ||| chain_has(chain, "invalid path"@)
    ||| chain_has(chain, "path too long"@)
    ||| chain_has(chain, "io error"@)
}

pub open spec fn is_permission_chain(chain: Seq<Seq<char>>) -> bool {
    ||| chain_has(chain, "permission denied"@)
    ||| chain_has(chain, "access denied"@)
    ||| chain_has(chain, "unauthorized"@)
    ||| chain_has(chain, "forbidden"@)
    ||| chain_has(chain, "cannot write"@)
    ||| chain_has(chain, "cannot read"@)
    ||| chain_has(chain, "cannot create"@)
}

pub open spec fn is_validation_chain(chain: Seq<Seq<char>>) -> bool {
    ||| chain_has(chain, "validation"@)
    ||| chain_has(chain, "invalid"@)
    ||| chain_has(chain, "corrupt"@)
    ||| chain_has(chain, "checksum"@)
    ||| chain_has(chain, "integrity"@)
    ||| chain_has(chain, "malformed"@)
}

pub open spec fn is_configuration_chain(chain: Seq<Seq<char>>) -> bool {
    ||| chain_has(chain, "config"@)
    ||| chain_has(chain, "configuration"@)
    ||| chain_has(chain, "setting"@)
    ||| chain_has(chain, "missing"@)
    ||| chain_has(chain, "not configured"@)
}

pub open spec fn is_archive_chain(chain: Seq<Seq<char>>) -> bool {
    ||| chain_has(chain, "extract"@)
    ||| chain_has(chain, "archive"@)
    ||| chain_has(chain, "zip"@)
    ||| chain_has(chain, "7z"@)
    ||| chain_has(chain, "tar"@)
    ||| chain_has(chain, "compression"@)
    ||| chain_has(chain, "decompression"@)
    ||| chain_has(chain, "zstd"@)
    ||| chain_has(chain, "zst"@)
}

/// The category of an error chain: the first matching category in priority
/// order.
pub open spec fn spec_category(chain: Seq<Seq<char>>) -> ErrorCategory {
    if is_network_chain(chain) {
        ErrorCategory::Network
    } else if is_filesystem_chain(chain) {
        ErrorCategory::FileSystem
    } else if is_permission_chain(chain) {
        ErrorCategory::Permission
    } else if is_validation_chain(chain) {
        ErrorCategory::Validation
    } else if is_configuration_chain(chain) {
        ErrorCategory::Configuration
    } else if is_archive_chain(chain) {
        ErrorCategory::Archive
    } else {
        ErrorCategory::Unknown
    }
}

/// Network and the re-download categories (validation, archive) are
/// retryable; the rest are not.
pub open spec fn spec_retryable(chain: Seq<Seq<char>>) -> bool {
    match spec_category(chain) {
        ErrorCategory::Network => true,
        ErrorCategory::FileSystem => false,
        ErrorCategory::Permission => false,
        ErrorCategory::Validation => true,
        ErrorCategory::Configuration => false,
        ErrorCategory::Archive => true,
        ErrorCategory::Unknown => false,
    }
}

pub open spec fn network_user_message(chain: Seq<Seq<char>>) -> Seq<char> {
    if chain_has(chain, "timeout"@) || chain_has(chain, "timed out"@) {
        "The connection timed out while downloading the update."@
    } else if chain_has(chain, "refused"@) || chain_has(chain, "unreachable"@) {
        "Could not connect to the download server."@
    } else if chain_has(chain, "dns"@) {
        "Could not resolve the download server address."@
    } else if chain_has(chain, "502"@) || chain_has(chain, "503"@) || chain_has(chain, "504"@) {
        "The download server is temporarily unavailable."@
    } else {
        "A network error occurred while downloading the update."@
    }
}

pub open spec fn network_recovery_suggestion(chain: Seq<Seq<char>>) -> Seq<char> {
    if chain_has(chain, "timeout"@) || chain_has(chain, "timed out"@) {
        "Check your internet connection and try again. If the problem persists, try clearing the cache."@
    } else if chain_has(chain, "refused"@) || chain_has(chain, "unreachable"@) {
        "Check your internet connection and firewall settings. The server may be temporarily unavailable."@
    } else if chain_has(chain, "dns"@) {
        "Check your internet connection and DNS settings. Try again in a few minutes."@
    } else if chain_has(chain, "502"@) || chain_has(chain, "503"@) || chain_has(chain, "504"@) {
        "This is usually temporary. Try again in a few minutes."@
    } else {
        "Check your internet connection and try again. If the problem persists, try clearing the cache."@
    }
}

pub open spec fn filesystem_user_message(chain: Seq<Seq<char>>) -> Seq<char> {
    if chain_has(chain, "space"@) || chain_has(chain, "full"@) {
        "Not enough disk space to complete the operation."@
    } else if chain_has(chain, "file not found"@) || chain_has(chain, "directory not found"@) {
        "A required file or directory could not be found."@
    } else if chain_has(chain, "read-only"@) {
        "Cannot write to the selected location because it's read-only."@
    } else {
        "A file system error occurred."@
    }
}

pub open spec fn filesystem_recovery_suggestion(chain: Seq<Seq<char>>) -> Seq<char> {
    if chain_has(chain, "space"@) || chain_has(chain, "full"@) {
        "Free up some disk space and try again."@
    } else if chain_has(chain, "file not found"@) || chain_has(chain, "directory not found"@) {
        "Check your installation path settings and try again."@
    } else if chain_has(chain, "read-only"@) {
        "Choose a different installation directory or change the folder permissions."@
    } else {
        "Check your installation path and disk space, then try again."@
    }
}

pub open spec fn permission_user_message(chain: Seq<Seq<char>>) -> Seq<char> {
    if chain_has(chain, "permission denied"@) || chain_has(chain, "access denied"@) {
        "Permission denied when accessing the installation directory."@
    } else if chain_has(chain, "unauthorized"@) || chain_has(chain, "forbidden"@) {
        "Access to the installation directory is forbidden."@
    } else {
        "Insufficient permissions to complete the operation."@
    }
}

pub open spec fn permission_recovery_suggestion(chain: Seq<Seq<char>>) -> Seq<char> {
    if chain_has(chain, "permission denied"@) || chain_has(chain, "access denied"@) {
        "Run the launcher as administrator or choose a different installation directory."@
    } else if chain_has(chain, "unauthorized"@) || chain_has(chain, "forbidden"@) {
        "Check folder permissions or run the launcher as administrator."@
    } else {
        "Run the launcher as administrator or check folder permissions."@
    }
}

pub open spec fn validation_user_message(chain: Seq<Seq<char>>) -> Seq<char> {
    if chain_has(chain, "corrupt"@) || chain_has(chain, "integrity"@) {
        "The downloaded file appears to be corrupted."@
    } else if chain_has(chain, "checksum"@) {
        "The downloaded file failed integrity verification."@
    } else {
        "The file or data failed validation."@
    }
}

pub open spec fn validation_recovery_suggestion(chain: Seq<Seq<char>>) -> Seq<char> {
    if chain_has(chain, "corrupt"@) || chain_has(chain, "integrity"@) {
        "Clear the cache and try downloading again. If the problem persists, the server file may be corrupted."@
    } else if chain_has(chain, "checksum"@) {
        "Clear the cache and try downloading again."@
    } else {
        "Clear the cache and try again. If the problem persists, contact support."@
    }
}

pub open spec fn configuration_user_message(chain: Seq<Seq<char>>) -> Seq<char> {
    if chain_has(chain, "missing"@) || chain_has(chain, "not configured"@) {
        "Required configuration is missing or incomplete."@
    } else {
        "There's an issue with the application configuration."@
    }
}

pub open spec fn configuration_recovery_suggestion(chain: Seq<Seq<char>>) -> Seq<char> {
    "Check your settings and reconfigure if necessary."@
}

pub open spec fn archive_user_message(chain: Seq<Seq<char>>) -> Seq<char> {
    if chain_has(chain, "zstd"@) || chain_has(chain, "zst"@) {
        "Failed to extract the archive. The compression format may not be supported."@
    } else if chain_has(chain, "extract"@) {
        "Failed to extract the downloaded archive."@
    } else {
        "An error occurred while processing the archive."@
    }
}

pub open spec fn archive_recovery_suggestion(chain: Seq<Seq<char>>) -> Seq<char> {
    if chain_has(chain, "zstd"@) || chain_has(chain, "zst"@) {
        "Clear the cache and try downloading again. If the problem persists, the archive format may be unsupported."@
    } else if chain_has(chain, "extract"@) {
        "The file may be corrupted. Clear the cache and try downloading again."@
    } else {
        "Clear the cache and try downloading again."@
    }
}

/// The user-facing message for an error chain.
pub open spec fn spec_user_message(chain: Seq<Seq<char>>) -> Seq<char> {
    match spec_category(chain) {
        ErrorCategory::Network => network_user_message(chain),
        ErrorCategory::FileSystem => filesystem_user_message(chain),
        ErrorCategory::Permission => permission_user_message(chain),
        ErrorCategory::Validation => validation_user_message(chain),
        ErrorCategory::Configuration => configuration_user_message(chain),
        ErrorCategory::Archive => archive_user_message(chain),
        ErrorCategory::Unknown => "An unexpected error occurred."@,
    }
}

/// The recovery suggestion for an error chain.
pub open spec fn spec_recovery_suggestion(chain: Seq<Seq<char>>) -> Seq<char> {
    match spec_category(chain) {
        ErrorCategory::Network => network_recovery_suggestion(chain),
        ErrorCategory::FileSystem => filesystem_recovery_suggestion(chain),
        ErrorCategory::Permission => permission_recovery_suggestion(chain),
        ErrorCategory::Validation => validation_recovery_suggestion(chain),
        ErrorCategory::Configuration => configuration_recovery_suggestion(chain),
        ErrorCategory::Archive => archive_recovery_suggestion(chain),
        ErrorCategory::Unknown => "Try again. If the problem persists, contact support."@,
    }
}

/// The technical details of a chain: its messages joined by " | ".
pub open spec fn join_chain(chain: Seq<Seq<char>>) -> Seq<char>
    decreases chain.len(),
{
    if chain.len() == 0 {
        Seq::empty()
    } else if chain.len() == 1 {
        chain[0]
    } else {
        join_chain(chain.drop_last()) + " | "@ + chain.last()
    }
}

/// Does some message of the chain contain the keyword
/// (ASCII-case-insensitively)?
pub fn chain_contains(chain: &Vec<String>, kw: &str) -> (r: bool)
    ensures
        r == chain_has(chain.deep_view(), kw@),
{
    let mut m: usize = 0;
    while m < chain.len()
        invariant
            0 <= m <= chain@.len(),
            forall|m0: int| 0 <= m0 < m ==> !contains_ci(chain.deep_view()[m0], kw@),
        decreases chain@.len() - m,
    {
        if str_contains_ci(chain[m].as_str(), kw) {
            proof {
                assert(chain.deep_view()[m as int] == chain@[m as int]@);
            }
            return true;
        }
        m += 1;
    }
    false
}

/// Joins the chain's messages with " | " for technical details.
pub fn join_messages(chain: &Vec<String>) -> (r: String)
    ensures
        r@ == join_chain(chain.deep_view()),
{
    let ghost gchain = chain.deep_view();
    let mut out = String::new();
    let mut m: usize = 0;
    while m < chain.len()
        invariant
            gchain == chain.deep_view(),
            gchain.len() == chain@.len(),
            0 <= m <= chain@.len(),
            out@ == join_chain(gchain.take(m as int)),
        decreases chain@.len() - m,
    {
        if m > 0 {
            out.append(" | ");
        }
        out.append(chain[m].as_str());
        proof {
            assert(gchain[m as int] == chain@[m as int]@);
            let prev = gchain.take(m as int);
            let cur = gchain.take(m as int + 1);
            assert(cur.drop_last() =~= prev);
            assert(cur.last() == gchain[m as int]);
            if m == 0 {
                assert(out@ =~= join_chain(cur));
            } else {
                assert(out@ =~= join_chain(cur));
            }
        }
        m += 1;
    }
    proof {
        assert(gchain.take(chain@.len() as int) =~= gchain);
    }
    out
}

impl ErrorHandler {
    pub fn is_network_error(chain: &Vec<String>) -> (r: bool)
        ensures
            r == is_network_chain(chain.deep_view()),
    {
        chain_contains(chain, "network") || chain_contains(chain, "connection") || chain_contains(
            chain,
            "timeout",
        ) || chain_contains(chain, "timed out") || chain_contains(chain, "dns") || chain_contains(
            chain,
            "host",
        ) || chain_contains(chain, "unreachable") || chain_contains(chain, "refused")
            || chain_contains(chain, "reset") || chain_contains(chain, "broken pipe")
            || chain_contains(chain, "502") || chain_contains(chain, "503") || chain_contains(
            chain,
            "504",
        ) || chain_contains(chain, "gateway timeout") || chain_contains(chain, "service unavailable")
            || chain_contains(chain, "bad gateway")
    }

    pub fn is_filesystem_error(chain: &Vec<String>) -> (r: bool)
        ensures
            r == is_filesystem_chain(chain.deep_view()),
    {
        chain_contains(chain, "no such file") || chain_contains(chain, "file not found")
            || chain_contains(chain, "directory not found") || chain_contains(chain, "disk")
            || chain_contains(chain, "space") || chain_contains(chain, "full") || chain_contains(
            chain,
            "read-only",
        ) || chain_contains(chain, "invalid path") || chain_contains(chain, "path too long")
            || chain_contains(chain, "io error")
    }

    pub fn is_permission_error(chain: &Vec<String>) -> (r: bool)
        ensures
            r == is_permission_chain(chain.deep_view()),
    {
        chain_contains(chain, "permission denied") || chain_contains(chain, "access denied")
            || chain_contains(chain, "unauthorized") || chain_contains(chain, "forbidden")
            || chain_contains(chain, "cannot write") || chain_contains(chain, "cannot read")
            || chain_contains(chain, "cannot create")
    }

    pub fn is_validation_error(chain: &Vec<String>) -> (r: bool)
        ensures
            r == is_validation_chain(chain.deep_view()),
    {
        chain_contains(chain, "validation") || chain_contains(chain, "invalid") || chain_contains(
            chain,
            "corrupt",
        ) || chain_contains(chain, "checksum") || chain_contains(chain, "integrity")
            || chain_contains(chain, "malformed")
    }

    pub fn is_configuration_error(chain: &Vec<String>) -> (r: bool)
        ensures
            r == is_configuration_chain(chain.deep_view()),
    {
        chain_contains(chain, "config") || chain_contains(chain, "configuration") || chain_contains(
            chain,
            "setting",
        ) || chain_contains(chain, "missing") || chain_contains(chain, "not configured")
    }

    pub fn is_archive_error(chain: &Vec<String>) -> (r: bool)
        ensures
            r == is_archive_chain(chain.deep_view()),
    {
        chain_contains(chain, "extract") || chain_contains(chain, "archive") || chain_contains(
            chain,
            "zip",
        ) || chain_contains(chain, "7z") || chain_contains(chain, "tar") || chain_contains(
            chain,
            "compression",
        ) || chain_contains(chain, "decompression") || chain_contains(chain, "zstd")
            || chain_contains(chain, "zst")
    }

    pub fn create_network_error_info(chain: &Vec<String>) -> (r: ErrorInfo)
        ensures
            r.category == ErrorCategory::Network,
            r.user_message@ == network_user_message(chain.deep_view()),
            r.recovery_suggestion@ == network_recovery_suggestion(chain.deep_view()),
            r.technical_details@ == join_chain(chain.deep_view()),
            r.is_retryable,
    {
        let (user_message, recovery_suggestion) = if chain_contains(chain, "timeout")
            || chain_contains(chain, "timed out") {
            (
                "The connection timed out while downloading the update.",
                "Check your internet connection and try again. If the problem persists, try clearing the cache.",
            )
        } else if chain_contains(chain, "refused") || chain_contains(chain, "unreachable") {
            (
                "Could not connect to the download server.",
                "Check your internet connection and firewall settings. The server may be temporarily unavailable.",
            )
        } else if chain_contains(chain, "dns") {
            (
                "Could not resolve the download server address.",
                "Check your internet connection and DNS settings. Try again in a few minutes.",
            )
        } else if chain_contains(chain, "502") || chain_contains(chain, "503") || chain_contains(
            chain,
            "504",
        ) {
            (
                "The download server is temporarily unavailable.",
                "This is usually temporary. Try again in a few minutes.",
            )
        } else {
            (
                "A network error occurred while downloading the update.",
                "Check your internet connection and try again. If the problem persists, try clearing the cache.",
            )
        };
        ErrorInfo {
            category: ErrorCategory::Network,
            user_message: user_message.to_owned(),
            technical_details: join_messages(chain),
            recovery_suggestion: recovery_suggestion.to_owned(),
            is_retryable: true,
        }
    }

    pub fn create_filesystem_error_info(chain: &Vec<String>) -> (r: ErrorInfo)
        ensures
            r.category == ErrorCategory::FileSystem,
            r.user_message@ == filesystem_user_message(chain.deep_view()),
            r.recovery_suggestion@ == filesystem_recovery_suggestion(chain.deep_view()),
            r.technical_details@ == join_chain(chain.deep_view()),
            !r.is_retryable,
    {
        let (user_message, recovery_suggestion) = if chain_contains(chain, "space")
            || chain_contains(chain, "full") {
            (
                "Not enough disk space to complete the operation.",
                "Free up some disk space and try again.",
            )
        } else if chain_contains(chain, "file not found") || chain_contains(
            chain,
            "directory not found",
        ) {
            (
                "A required file or directory could not be found.",
                "Check your installation path settings and try again.",
            )
        } else if chain_contains(chain, "read-only") {
            (
                "Cannot write to the selected location because it's read-only.",
                "Choose a different installation directory or change the folder permissions.",
            )
        } else {
            (
                "A file system error occurred.",
                "Check your installation path and disk space, then try again.",
            )
        };
        ErrorInfo {
            category: ErrorCategory::FileSystem,
            user_message: user_message.to_owned(),
            technical_details: join_messages(chain),
            recovery_suggestion: recovery_suggestion.to_owned(),
            is_retryable: false,
        }
    }

    pub fn create_permission_error_info(chain: &Vec<String>) -> (r: ErrorInfo)
        ensures
            r.category == ErrorCategory::Permission,
            r.user_message@ == permission_user_message(chain.deep_view()),
            r.recovery_suggestion@ == permission_recovery_suggestion(chain.deep_view()),
            r.technical_details@ == join_chain(chain.deep_view()),
            !r.is_retryable,
    {
        let (user_message, recovery_suggestion) = if chain_contains(chain, "permission denied")
            || chain_contains(chain, "access denied") {
            (
                "Permission denied when accessing the installation directory.",
                "Run the launcher as administrator or choose a different installation directory.",
            )
        } else if chain_contains(chain, "unauthorized") || chain_contains(chain, "forbidden") {
            (
                "Access to the installation directory is forbidden.",
                "Check folder permissions or run the launcher as administrator.",
            )
        } else {
            (
                "Insufficient permissions to complete the operation.",
                "Run the launcher as administrator or check folder permissions.",
            )
        };
        ErrorInfo {
            category: ErrorCategory::Permission,
            user_message: user_message.to_owned(),
            technical_details: join_messages(chain),
            recovery_suggestion: recovery_suggestion.to_owned(),
            is_retryable: false,
        }
    }

    pub fn create_validation_error_info(chain: &Vec<String>) -> (r: ErrorInfo)
        ensures
            r.category == ErrorCategory::Validation,
            r.user_message@ == validation_user_message(chain.deep_view()),
            r.recovery_suggestion@ == validation_recovery_suggestion(chain.deep_view()),
            r.technical_details@ == join_chain(chain.deep_view()),
            r.is_retryable,
    {
        let (user_message, recovery_suggestion) = if chain_contains(chain, "corrupt")
            || chain_contains(chain, "integrity") {
            (
                "The downloaded file appears to be corrupted.",
                "Clear the cache and try downloading again. If the problem persists, the server file may be corrupted.",
            )
        } else if chain_contains(chain, "checksum") {
            (
                "The downloaded file failed integrity verification.",
                "Clear the cache and try downloading again.",
            )
        } else {
            (
                "The file or data failed validation.",
                "Clear the cache and try again. If the problem persists, contact support.",
            )
        };
        ErrorInfo {
            category: ErrorCategory::Validation,
            user_message: user_message.to_owned(),
            technical_details: join_messages(chain),
            recovery_suggestion: recovery_suggestion.to_owned(),
            is_retryable: true,
        }
    }

    pub fn create_configuration_error_info(chain: &Vec<String>) -> (r: ErrorInfo)
        ensures
            r.category == ErrorCategory::Configuration,
            r.user_message@ == configuration_user_message(chain.deep_view()),
            r.recovery_suggestion@ == configuration_recovery_suggestion(chain.deep_view()),
            r.technical_details@ == join_chain(chain.deep_view()),
            !r.is_retryable,
    {
        let user_message = if chain_contains(chain, "missing") || chain_contains(
            chain,
            "not configured",
        ) {
            "Required configuration is missing or incomplete."
        } else {
            "There's an issue with the application configuration."
        };
        ErrorInfo {
            category: ErrorCategory::Configuration,
            user_message: user_message.to_owned(),
            technical_details: join_messages(chain),
            recovery_suggestion: "Check your settings and reconfigure if necessary.".to_owned(),
            is_retryable: false,
        }
    }

    pub fn create_archive_error_info(chain: &Vec<String>) -> (r: ErrorInfo)
        ensures
            r.category == ErrorCategory::Archive,
            r.user_message@ == archive_user_message(chain.deep_view()),
            r.recovery_suggestion@ == archive_recovery_suggestion(chain.deep_view()),
            r.technical_details@ == join_chain(chain.deep_view()),
            r.is_retryable,
    {
        let (user_message, recovery_suggestion) = if chain_contains(chain, "zstd")
            || chain_contains(chain, "zst") {
            (
                "Failed to extract the archive. The compression format may not be supported.",
                "Clear the cache and try downloading again. If the problem persists, the archive format may be unsupported.",
            )
        } else if chain_contains(chain, "extract") {
            (
                "Failed to extract the downloaded archive.",
                "The file may be corrupted. Clear the cache and try downloading again.",
            )
        } else {
            (
                "An error occurred while processing the archive.",
                "Clear the cache and try downloading again.",
            )
        };
        ErrorInfo {
            category: ErrorCategory::Archive,
            user_message: user_message.to_owned(),
            technical_details: join_messages(chain),
            recovery_suggestion: recovery_suggestion.to_owned(),
            is_retryable: true,
        }
    }

    pub fn create_unknown_error_info(chain: &Vec<String>) -> (r: ErrorInfo)
        ensures
            r.category == ErrorCategory::Unknown,
            r.user_message@ == "An unexpected error occurred."@,
            r.recovery_suggestion@ == "Try again. If the problem persists, contact support."@,
            r.technical_details@ == join_chain(chain.deep_view()),
            !r.is_retryable,
    {
        ErrorInfo {
            category: ErrorCategory::Unknown,
            user_message: "An unexpected error occurred.".to_owned(),
            technical_details: join_messages(chain),
            recovery_suggestion: "Try again. If the problem persists, contact support.".to_owned(),
            is_retryable: false,
        }
    }

    /// Categorizes an error chain: picks the first matching category in
    /// priority order and produces its user-facing details.
    pub fn categorize_error(chain: &Vec<String>) -> (r: ErrorInfo)
        ensures
            r.category == spec_category(chain.deep_view()),
            r.user_message@ == spec_user_message(chain.deep_view()),
            r.recovery_suggestion@ == spec_recovery_suggestion(chain.deep_view()),
            r.technical_details@ == join_chain(chain.deep_view()),
            r.is_retryable == spec_retryable(chain.deep_view()),
    {
        if Self::is_network_error(chain) {
            Self::create_network_error_info(chain)
        } else if Self::is_filesystem_error(chain) {
            Self::create_filesystem_error_info(chain)
        } else if Self::is_permission_error(chain) {
            Self::create_permission_error_info(chain)
        } else if Self::is_validation_error(chain) {
            Self::create_validation_error_info(chain)
        } else if Self::is_configuration_error(chain) {
            Self::create_configuration_error_info(chain)
        } else if Self::is_archive_error(chain) {
            Self::create_archive_error_info(chain)
        } else {
            Self::create_unknown_error_info(chain)
        }
    }
}

} // verus!
