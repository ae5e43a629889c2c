//! How a browser process is started for an account, and why it may fail to start.

use vstd::prelude::*;
use vstd::string::*;

verus! {

/// Width of the browser window, in pixels.
pub const WINDOW_WIDTH: u32 = 1920;

/// Height of the browser window, in pixels.
pub const WINDOW_HEIGHT: u32 = 1080;

/// Everything a browser launch needs, as plain values.
#[derive(Debug, Clone, PartialEq, Eq)]
pub struct LaunchSettings {
    pub headless: bool,
    /// The profile directory the browser is bound to.
    pub user_data_dir: String,
    pub window_width: u32,
    pub window_height: u32,
    pub enable_gpu: bool,
    /// Extra command-line arguments: the fixed hardening set.
    pub args: Vec<String>,
}

/// The hardening arguments: no extensions, no automation-detection flags, no
/// first-run prompts.
pub open spec fn hardening_args() -> Seq<Seq<char>> {
    seq![
        "--disable-extensions"@,
        "--disable-blink-features=AutomationControlled"@,
        "--no-first-run"@,
        "--no-default-browser-check"@,
    ]
}

/// The launch settings of a browser bound to `profile_dir`: fixed window
/// size, GPU disabled, the hardening arguments.
pub fn launch_settings(profile_dir: &str, headless: bool) -> (r: LaunchSettings)
    ensures
        r.headless == headless,
        r.user_data_dir@ == profile_dir@,
        r.window_width == WINDOW_WIDTH,
        r.window_height == WINDOW_HEIGHT,
        !r.enable_gpu,
        r.args.deep_view() == hardening_args(),
{
    let mut args: Vec<String> = Vec::new();
    args.push("--disable-extensions".to_string());
    args.push("--disable-blink-features=AutomationControlled".to_string());
    args.push("--no-first-run".to_string());
    args.push("--no-default-browser-check".to_string());
    assert(args.deep_view() =~= hardening_args());
    LaunchSettings {
        headless,
        user_data_dir: profile_dir.to_string(),
        window_width: WINDOW_WIDTH,
        window_height: WINDOW_HEIGHT,
        enable_gpu: false,
        args,
    }
}

/// Why a browser could not be started.
#[derive(Debug, Clone, PartialEq, Eq)]
pub enum LaunchError {
    /// No browser executable was found: lock cleanup cannot help.
    ExecutableNotFound(String),
    /// The launch settings were refused.
    InvalidSettings(String),
    /// The process did not start or could not bind its profile directory.
    StartFailed(String),
}

impl LaunchError {
    /// A message for people: what failed, then the driver's own words.
    pub fn message(&self) -> (r: String)
        ensures
            r@ == match self {
                LaunchError::ExecutableNotFound(d) => "Browser executable not found: "@ + d@,
                LaunchError::InvalidSettings(d) => "Browser build failed: "@ + d@,
                LaunchError::StartFailed(d) => "Browser init failed: "@ + d@,
            },
    {
        let (prefix, detail) = match self {
            LaunchError::ExecutableNotFound(d) => ("Browser executable not found: ", d),
            LaunchError::InvalidSettings(d) => ("Browser build failed: ", d),
            LaunchError::StartFailed(d) => ("Browser init failed: ", d),
        };
        let mut r = prefix.to_string();
        r.append(detail.as_str());
        r
    }
}

/// Whether browsers run headless, from the stored setting: only the value
/// `"true"` turns it on once a value is stored, and headless is the default
/// when none is (or it cannot be read).
pub fn get_headless_mode(setting: Option<&str>) -> (r: bool)
    ensures
        r == match setting {
            Some(v) => v@ == "true"@,
            None => true,
        },
{
    match setting {
        Some(v) => String::from_str(v) == String::from_str("true"),
        None => true,
    }
}

} // verus!
