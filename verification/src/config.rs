//! The launcher's configuration and the decisions around an installation
//! path: which mode applies and whether a chosen directory is usable.
use vstd::prelude::*;
use vstd::string::StringExecFns;
use crate::error_handler::ErrorCategory;
use crate::error_handler::ErrorInfo;

verus! {

/// The persisted launcher configuration.
#[derive(Debug, Clone)]
pub struct Config {
    pub current_version: String,
    pub github_repo: String,
    pub installation_path: String,
    pub exe_path: String,
    pub preserve_folders: Vec<String>,
    pub update_check_url: String,
    pub last_check: String,
    pub auto_check: bool,
    pub installation_mode: InstallationMode,
}

/// Whether an update overlays an existing installation or populates a
/// fresh directory.
#[derive(Debug, Clone, Copy, PartialEq, Eq, Structural)]
pub enum InstallationMode {
    Update,
    FreshInstall,
}

/// The mode assumed when none is recorded.
pub fn default_installation_mode() -> (r: InstallationMode)
    ensures
        r == InstallationMode::Update,
{
    InstallationMode::Update
}

/// Loads, saves and validates the configuration.
pub struct ConfigManager;

/// What the filesystem reports about a candidate installation directory
/// and the executable expected inside it.
#[derive(Debug, Clone, Copy, PartialEq, Eq, Structural)]
pub struct PathObservation {
    pub path_exists: bool,
    pub is_directory: bool,
    pub writable: bool,
    pub exe_exists: bool,
    pub exe_is_file: bool,
}

/// The first failed validation rule for an installation path, as
/// (category, user message, technical details, recovery suggestion);
/// `None` when the path passes.
pub open spec fn spec_path_validation(
    path: Seq<char>,
    exe_name: Seq<char>,
    mode: InstallationMode,
    obs: PathObservation,
) -> Option<(ErrorCategory, Seq<char>, Seq<char>, Seq<char>)> {
    if path.len() == 0 {
        Some(
            (
                ErrorCategory::Validation,
                "Please select an installation directory."@,
                "Empty path provided"@,
                "Use the Browse button to select a folder."@,
            ),
        )
    } else if !obs.path_exists {
        Some(
            (
                ErrorCategory::FileSystem,
                "The selected directory does not exist."@,
                "Path does not exist: "@ + path,
                "Create the directory or select an existing one."@,
            ),
        )
    } else if !obs.is_directory {
        Some(
            (
                ErrorCategory::Validation,
                "The selected path is not a directory."@,
                "Path is not a directory: "@ + path,
                "Select a directory, not a file."@,
            ),
        )
    } else if !obs.writable {
        Some(
            (
                ErrorCategory::Permission,
                "Cannot write to the selected directory."@,
                "Write permission test failed"@,
                "Choose a different directory or run as administrator."@,
            ),
        )
    } else if mode is Update && !obs.exe_exists {
        Some(
            (
                ErrorCategory::Validation,
                "Could not find "@ + exe_name + " in the selected directory."@,
                "Executable not found: "@ + path + "/"@ + exe_name,
                "Select the directory containing your ReMakeplace installation."@,
            ),
        )
    } else if mode is Update && !obs.exe_is_file {
        Some(
            (
                ErrorCategory::Validation,
                exe_name + " exists but is not a valid executable file."@,
                "Path is not a file: "@ + path + "/"@ + exe_name,
                "Select the correct directory containing the ReMakeplace executable."@,
            ),
        )
    } else {
        None
    }
}

/// The installation mode a path suggests: an update when the directory and
/// the executable inside it exist, a fresh install otherwise.
pub open spec fn spec_detect_mode(path: Seq<char>, obs: PathObservation) -> InstallationMode {
    if path.len() == 0 || !obs.path_exists {
        InstallationMode::FreshInstall
    } else if obs.exe_exists && obs.exe_is_file {
        InstallationMode::Update
    } else {
        InstallationMode::FreshInstall
    }
}

impl ConfigManager {
    /// The default configuration, stamped with the given check time.
    pub fn create_default(last_check: String) -> (r: Config)
        ensures
            r.current_version@ == "0.0.0"@,
            r.github_repo@ == "RemakePlace/app"@,
            r.installation_path@ == Seq::<char>::empty(),
            r.exe_path@ == "Makeplace.exe"@,
            r.preserve_folders@.len() == 2,
            r.preserve_folders@[0]@ == "Makeplace/Custom"@,
            r.preserve_folders@[1]@ == "Makeplace/Save"@,
            r.update_check_url@ == "https://api.github.com/repos/RemakePlace/app/releases/latest"@,
            r.last_check == last_check,
            r.auto_check,
            r.installation_mode == InstallationMode::Update,
    {
        Config {
            current_version: "0.0.0".to_owned(),
            github_repo: "RemakePlace/app".to_owned(),
            installation_path: String::new(),
            exe_path: "Makeplace.exe".to_owned(),
            preserve_folders: vec!["Makeplace/Custom".to_owned(), "Makeplace/Save".to_owned()],
            update_check_url: "https://api.github.com/repos/RemakePlace/app/releases/latest"
                .to_owned(),
            last_check,
            auto_check: true,
            installation_mode: InstallationMode::Update,
        }
    }

    /// Validates an installation path against what the filesystem reports,
    /// yielding detailed error information for the first rule that fails:
    /// the path must be non-empty, exist, be a writable directory, and (for
    /// an update) contain the expected executable as a regular file.
    pub fn validate_installation_path_detailed(
        path: &str,
        exe_name: &str,
        mode: &InstallationMode,
        obs: PathObservation,
    ) -> (r: Result<(), ErrorInfo>)
        ensures
            r is Ok <==> spec_path_validation(path@, exe_name@, *mode, obs) is None,
            r matches Err(e) ==> (spec_path_validation(path@, exe_name@, *mode, obs) matches Some(t)
                && e.category == t.0 && e.user_message@ == t.1 && e.technical_details@ == t.2
                && e.recovery_suggestion@ == t.3 && !e.is_retryable),
    {
        if path.is_empty() {
            return Err(
                ErrorInfo {
                    category: ErrorCategory::Validation,
                    user_message: "Please select an installation directory.".to_owned(),
                    technical_details: "Empty path provided".to_owned(),
                    recovery_suggestion: "Use the Browse button to select a folder.".to_owned(),
                    is_retryable: false,
                },
            );
        }
        if !obs.path_exists {
            let mut details = String::new();
            details.append("Path does not exist: ");
            details.append(path);
            return Err(
                ErrorInfo {
                    category: ErrorCategory::FileSystem,
                    user_message: "The selected directory does not exist.".to_owned(),
                    technical_details: details,
                    recovery_suggestion: "Create the directory or select an existing one."
                        .to_owned(),
                    is_retryable: false,
                },
            );
        }
        if !obs.is_directory {
            let mut details = String::new();
            details.append("Path is not a directory: ");
            details.append(path);
            return Err(
                ErrorInfo {
                    category: ErrorCategory::Validation,
                    user_message: "The selected path is not a directory.".to_owned(),
                    technical_details: details,
                    recovery_suggestion: "Select a directory, not a file.".to_owned(),
                    is_retryable: false,
                },
            );
        }
        if !obs.writable {
            return Err(
                ErrorInfo {
                    category: ErrorCategory::Permission,
                    user_message: "Cannot write to the selected directory.".to_owned(),
                    technical_details: "Write permission test failed".to_owned(),
                    recovery_suggestion: "Choose a different directory or run as administrator."
                        .to_owned(),
                    is_retryable: false,
                },
            );
        }
        match mode {
            InstallationMode::Update => {
                if !obs.exe_exists {
                    let mut message = String::new();
                    message.append("Could not find ");
                    message.append(exe_name);
                    message.append(" in the selected directory.");
                    let mut details = String::new();
                    details.append("Executable not found: ");
                    details.append(path);
                    details.append("/");
                    details.append(exe_name);
                    proof {
                        assert(message@ =~= "Could not find "@ + exe_name@
                            + " in the selected directory."@);
                        assert(details@ =~= "Executable not found: "@ + path@ + "/"@ + exe_name@);
                    }
                    return Err(
                        ErrorInfo {
                            category: ErrorCategory::Validation,
                            user_message: message,
                            technical_details: details,
                            recovery_suggestion:
                                "Select the directory containing your ReMakeplace installation."
                                .to_owned(),
                            is_retryable: false,
                        },
                    );
                }
                if !obs.exe_is_file {
                    let mut message = String::new();
                    message.append(exe_name);
                    message.append(" exists but is not a valid executable file.");
                    let mut details = String::new();
                    details.append("Path is not a file: ");
                    details.append(path);
                    details.append("/");
                    details.append(exe_name);
                    proof {
                        assert(message@ =~= exe_name@
                            + " exists but is not a valid executable file."@);
                        assert(details@ =~= "Path is not a file: "@ + path@ + "/"@ + exe_name@);
                    }
                    return Err(
                        ErrorInfo {
                            category: ErrorCategory::Validation,
                            user_message: message,
                            technical_details: details,
                            recovery_suggestion:
                                "Select the correct directory containing the ReMakeplace executable."
                                .to_owned(),
                            is_retryable: false,
                        },
                    );
                }
            },
            InstallationMode::FreshInstall => {},
        }
        Ok(())
    }

    /// Validates an installation path, reporting only whether it passes.
    pub fn validate_installation_path(
        path: &str,
        exe_name: &str,
        mode: &InstallationMode,
        obs: PathObservation,
    ) -> (r: bool)
        ensures
            r == (spec_path_validation(path@, exe_name@, *mode, obs) is None),
    {
        Self::validate_installation_path_detailed(path, exe_name, mode, obs).is_ok()
    }

    /// Detects the installation mode a path suggests.
    pub fn detect_installation_mode(path: &str, obs: PathObservation) -> (r: InstallationMode)
        ensures
            r == spec_detect_mode(path@, obs),
    {
        if path.is_empty() {
            return InstallationMode::FreshInstall;
        }
        if !obs.path_exists {
            return InstallationMode::FreshInstall;
        }
        if obs.exe_exists && obs.exe_is_file {
            InstallationMode::Update
        } else {
            InstallationMode::FreshInstall
        }
    }

    /// A user-friendly description of the detected installation mode.
    pub fn get_mode_description(mode: &InstallationMode) -> (r: &'static str)
        ensures
            *mode is Update ==> r@ == "Existing installation detected - updates will preserve your data"@,
            *mode is FreshInstall ==> r@ == "No existing installation found - will perform fresh install"@,
    {
        match mode {
            InstallationMode::Update => {
                "Existing installation detected - updates will preserve your data"
            },
            InstallationMode::FreshInstall => {
                "No existing installation found - will perform fresh install"
            },
        }
    }

    /// Where the configuration file lives: beside the executable.
    pub fn get_config_path() -> (r: String)
        ensures
            r@ == "config.json"@,
    {
        "config.json".to_owned()
    }
}

} // verus!
