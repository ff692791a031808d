use updater_core::companion::design_filename;
use updater_core::companion::design_target_subdir;
use updater_core::companion::sanitize;
use updater_core::config::default_installation_mode;
use updater_core::config::ConfigManager;
use updater_core::config::InstallationMode;
use updater_core::config::PathObservation;
use updater_core::error_handler::ErrorCategory;
use updater_core::extractor::Extractor;
use updater_core::launcher::Launcher;

fn good_obs() -> PathObservation {
    PathObservation {
        path_exists: true,
        is_directory: true,
        writable: true,
        exe_exists: true,
        exe_is_file: true,
    }
}

#[test]
fn test_create_default_config() {
    let config = ConfigManager::create_default("2024-01-01T00:00:00Z".to_string());
    assert_eq!(config.current_version, "0.0.0");
    assert_eq!(config.github_repo, "RemakePlace/app");
    assert_eq!(config.installation_path, "");
    assert_eq!(config.exe_path, "Makeplace.exe");
    assert_eq!(
        config.preserve_folders,
        vec!["Makeplace/Custom".to_string(), "Makeplace/Save".to_string()]
    );
    assert_eq!(
        config.update_check_url,
        "https://api.github.com/repos/RemakePlace/app/releases/latest"
    );
    assert_eq!(config.last_check, "2024-01-01T00:00:00Z");
    assert!(config.auto_check);
    assert_eq!(config.installation_mode, InstallationMode::Update);
    assert_eq!(default_installation_mode(), InstallationMode::Update);
}

#[test]
fn test_validate_path_empty() {
    let err = ConfigManager::validate_installation_path_detailed(
        "",
        "Makeplace.exe",
        &InstallationMode::Update,
        good_obs(),
    )
    .unwrap_err();
    assert_eq!(err.category, ErrorCategory::Validation);
    assert_eq!(err.user_message, "Please select an installation directory.");
    assert!(!err.is_retryable);
}

#[test]
fn test_validate_path_missing_directory() {
    let mut obs = good_obs();
    obs.path_exists = false;
    let err = ConfigManager::validate_installation_path_detailed(
        "/games/rmp",
        "Makeplace.exe",
        &InstallationMode::Update,
        obs,
    )
    .unwrap_err();
    assert_eq!(err.category, ErrorCategory::FileSystem);
    assert_eq!(err.user_message, "The selected directory does not exist.");
    assert_eq!(err.technical_details, "Path does not exist: /games/rmp");
}

#[test]
fn test_validate_path_not_a_directory() {
    let mut obs = good_obs();
    obs.is_directory = false;
    let err = ConfigManager::validate_installation_path_detailed(
        "/games/rmp",
        "Makeplace.exe",
        &InstallationMode::Update,
        obs,
    )
    .unwrap_err();
    assert_eq!(err.category, ErrorCategory::Validation);
    assert_eq!(err.user_message, "The selected path is not a directory.");
}

#[test]
fn test_validate_path_not_writable() {
    let mut obs = good_obs();
    obs.writable = false;
    let err = ConfigManager::validate_installation_path_detailed(
        "/games/rmp",
        "Makeplace.exe",
        &InstallationMode::Update,
        obs,
    )
    .unwrap_err();
    assert_eq!(err.category, ErrorCategory::Permission);
    assert_eq!(err.user_message, "Cannot write to the selected directory.");
}

#[test]
fn test_validate_path_missing_executable() {
    let mut obs = good_obs();
    obs.exe_exists = false;
    let err = ConfigManager::validate_installation_path_detailed(
        "/games/rmp",
        "Makeplace.exe",
        &InstallationMode::Update,
        obs,
    )
    .unwrap_err();
    assert_eq!(err.category, ErrorCategory::Validation);
    assert_eq!(
        err.user_message,
        "Could not find Makeplace.exe in the selected directory."
    );
    assert_eq!(
        err.technical_details,
        "Executable not found: /games/rmp/Makeplace.exe"
    );

    // A fresh install does not need the executable.
    assert!(ConfigManager::validate_installation_path(
        "/games/rmp",
        "Makeplace.exe",
        &InstallationMode::FreshInstall,
        obs,
    ));
}

#[test]
fn test_validate_path_executable_not_a_file() {
    let mut obs = good_obs();
    obs.exe_is_file = false;
    let err = ConfigManager::validate_installation_path_detailed(
        "/games/rmp",
        "Makeplace.exe",
        &InstallationMode::Update,
        obs,
    )
    .unwrap_err();
    assert_eq!(
        err.user_message,
        "Makeplace.exe exists but is not a valid executable file."
    );
}

#[test]
fn test_validate_path_passes() {
    assert!(ConfigManager::validate_installation_path(
        "/games/rmp",
        "Makeplace.exe",
        &InstallationMode::Update,
        good_obs(),
    ));
}

#[test]
fn test_detect_installation_mode() {
    assert_eq!(
        ConfigManager::detect_installation_mode("", good_obs()),
        InstallationMode::FreshInstall
    );
    let mut missing = good_obs();
    missing.path_exists = false;
    assert_eq!(
        ConfigManager::detect_installation_mode("/games/rmp", missing),
        InstallationMode::FreshInstall
    );
    assert_eq!(
        ConfigManager::detect_installation_mode("/games/rmp", good_obs()),
        InstallationMode::Update
    );
    let mut no_exe = good_obs();
    no_exe.exe_exists = false;
    assert_eq!(
        ConfigManager::detect_installation_mode("/games/rmp", no_exe),
        InstallationMode::FreshInstall
    );
}

#[test]
fn test_mode_descriptions() {
    assert_eq!(
        ConfigManager::get_mode_description(&InstallationMode::Update),
        "Existing installation detected - updates will preserve your data"
    );
    assert_eq!(
        ConfigManager::get_mode_description(&InstallationMode::FreshInstall),
        "No existing installation found - will perform fresh install"
    );
    assert_eq!(ConfigManager::get_config_path(), "config.json");
}

#[test]
fn test_sanitize_names() {
    assert_eq!(sanitize("My House"), "My House");
    assert_eq!(sanitize("  He/llo:  "), "Hello");
    assert_eq!(sanitize("a_b-c 9"), "a_b-c 9");
    assert_eq!(sanitize(""), "Untitled");
    assert_eq!(sanitize("///"), "Untitled");
    assert_eq!(sanitize("   "), "Untitled");
}

#[test]
fn test_design_filename_and_target() {
    assert_eq!(
        design_filename("layout", "My House", "Bob"),
        "[Layout] My House by Bob.json"
    );
    assert_eq!(
        design_filename("design", "<<>>", ""),
        "[Design] Untitled by Untitled.json"
    );
    assert_eq!(design_target_subdir("Layout"), "Makeplace/Save");
    assert_eq!(design_target_subdir("interior"), "Makeplace/Custom");
}

#[test]
fn test_file_has_extensions() {
    assert!(Extractor::file_has_extensions("update.TAR.GZ", &[".tar.gz", ".tgz"]));
    assert!(Extractor::file_has_extensions("update.tgz", &[".tar.gz", ".tgz"]));
    assert!(!Extractor::file_has_extensions("update.zip", &[".tar.gz", ".tgz"]));
    assert!(!Extractor::file_has_extensions("update", &[".zip"]));
}

#[test]
fn test_validate_executable_decision() {
    assert!(Launcher::validate_executable(true, true, true));
    assert!(!Launcher::validate_executable(false, true, true));
    assert!(!Launcher::validate_executable(true, false, true));
    assert!(!Launcher::validate_executable(true, true, false));
    assert!(Launcher::has_exe_extension("Makeplace.EXE"));
    assert!(!Launcher::has_exe_extension("Makeplace.dll"));
}

#[test]
fn test_7z_magic() {
    assert!(Extractor::is_7z_magic(&[0x37, 0x7a, 0xbc, 0xaf, 0x27, 0x1c]));
    assert!(!Extractor::is_7z_magic(&[0x50, 0x4b, 0x03, 0x04, 0x00, 0x00]));
    assert!(!Extractor::is_7z_magic(&[0x37, 0x7a]));
    assert!(!Extractor::is_7z_magic(&[]));
}
