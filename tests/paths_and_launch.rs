use xiaohongshu_helper::process::{
    get_headless_mode, launch_settings, LaunchError, WINDOW_HEIGHT, WINDOW_WIDTH,
};
use xiaohongshu_helper::storage::{
    get_app_dir, get_browser_data_dir, get_db_path, get_debug_dir, get_images_dir,
    lock_artifact_paths, screenshot_path,
};
use xiaohongshu_helper::workflow::StepFailure;

#[test]
fn data_paths() {
    let app = get_app_dir("/home/u");
    assert_eq!(app, "/home/u/xiaohongshu-helper-data");
    assert_eq!(get_browser_data_dir(&app, "138"), "/home/u/xiaohongshu-helper-data/profiles/138");
    assert_eq!(get_images_dir(&app), "/home/u/xiaohongshu-helper-data/images");
    assert_eq!(get_db_path(&app), "sqlite:///home/u/xiaohongshu-helper-data/app.db?mode=rwc");
}

#[test]
fn screenshot_goes_to_debug_dir() {
    let debug = get_debug_dir("/home/u");
    assert_eq!(debug, "/home/u/xiaohongshu-helper-debug");
    assert_eq!(screenshot_path(&debug, "error_wait_title"), "/home/u/xiaohongshu-helper-debug/error_wait_title.png");
}

#[test]
fn lock_artifacts_of_a_profile() {
    let paths = lock_artifact_paths("/p");
    assert_eq!(
        paths,
        vec![
            "/p/SingletonLock".to_string(),
            "/p/SingletonCookie".to_string(),
            "/p/SingletonSocket".to_string(),
            "/p/DevToolsActivePort".to_string(),
            "/p/Default/DevToolsActivePort".to_string(),
        ]
    );
}

#[test]
fn launch_settings_are_fixed_and_hardened() {
    let s = launch_settings("/p", true);
    assert!(s.headless);
    assert_eq!(s.user_data_dir, "/p");
    assert_eq!((s.window_width, s.window_height), (1920, 1080));
    assert_eq!((WINDOW_WIDTH, WINDOW_HEIGHT), (1920, 1080));
    assert!(!s.enable_gpu);
    assert_eq!(
        s.args,
        vec![
            "--disable-extensions".to_string(),
            "--disable-blink-features=AutomationControlled".to_string(),
            "--no-first-run".to_string(),
            "--no-default-browser-check".to_string(),
        ]
    );
    assert!(!launch_settings("/p", false).headless);
}

#[test]
fn launch_errors_tell_missing_executable_apart() {
    assert_eq!(
        LaunchError::ExecutableNotFound("none".to_string()).message(),
        "Browser executable not found: none"
    );
    assert_eq!(LaunchError::InvalidSettings("bad".to_string()).message(), "Browser build failed: bad");
    assert_eq!(LaunchError::StartFailed("locked".to_string()).message(), "Browser init failed: locked");
}

#[test]
fn step_failure_message() {
    let f = StepFailure {
        step: "publish".to_string(),
        context: "Cannot find publish element".to_string(),
        detail: "No match found".to_string(),
        capture: Some("error_no_publish_btn".to_string()),
    };
    assert_eq!(f.message(), "Cannot find publish element: No match found. See error_no_publish_btn.png");
    let f = StepFailure { capture: None, ..f };
    assert_eq!(f.message(), "Cannot find publish element: No match found");
}

#[test]
fn headless_setting_defaults_to_on() {
    assert!(get_headless_mode(None));
    assert!(get_headless_mode(Some("true")));
    assert!(!get_headless_mode(Some("false")));
    assert!(!get_headless_mode(Some("TRUE")));
    assert!(!get_headless_mode(Some("")));
}
