//! Where an account's data lives on disk, and which lock artifacts are cleared.

use vstd::prelude::*;
use vstd::string::*;

verus! {

/// Directory, under the home directory, that holds all application data.
pub const APP_DIR_NAME: &'static str = "xiaohongshu-helper-data";

/// Directory, under the home directory, that receives diagnostic screenshots.
pub const DEBUG_DIR_NAME: &'static str = "xiaohongshu-helper-debug";

/// `base/part`: one separator between a directory and an entry in it.
pub open spec fn joined(base: Seq<char>, part: Seq<char>) -> Seq<char> {
    base + seq!['/'] + part
}

/// Appends `part` to the directory `base`, with one separator between them.
pub fn join_path(base: &str, part: &str) -> (r: String)
    ensures
        r@ == joined(base@, part@),
{
    let mut r = String::from_str(base);
    r.append("/");
    r.append(part);
    proof {
        reveal_strlit("/");
    }
    r
}

/// The application data directory under `home`.
pub fn get_app_dir(home: &str) -> (r: String)
    ensures
        r@ == joined(home@, APP_DIR_NAME@),
{
    join_path(home, APP_DIR_NAME)
}

/// The browser profile directory of `user_id`: `<app_dir>/profiles/<user_id>`.
pub open spec fn profile_dir(app_dir: Seq<char>, user_id: Seq<char>) -> Seq<char> {
    joined(joined(app_dir, "profiles"@), user_id)
}

/// The browser profile directory of one account, inside the data directory `app_dir`.
pub fn get_browser_data_dir(app_dir: &str, user_id: &str) -> (r: String)
    ensures
        r@ == profile_dir(app_dir@, user_id@),
{
    let profiles = join_path(app_dir, "profiles");
    join_path(profiles.as_str(), user_id)
}

/// The connection string of the local database: `sqlite://<app_dir>/app.db?mode=rwc`.
pub open spec fn db_url(app_dir: Seq<char>) -> Seq<char> {
    "sqlite://"@ + joined(app_dir, "app.db"@) + "?mode=rwc"@
}

/// The database connection string for the data directory `app_dir`.
pub fn get_db_path(app_dir: &str) -> (r: String)
    ensures
        r@ == db_url(app_dir@),
{
    let file = join_path(app_dir, "app.db");
    let mut r = String::from_str("sqlite://");
    r.append(file.as_str());
    r.append("?mode=rwc");
    r
}

/// The directory of imported images, inside the data directory `app_dir`.
pub fn get_images_dir(app_dir: &str) -> (r: String)
    ensures
        r@ == joined(app_dir@, "images"@),
{
    join_path(app_dir, "images")
}

/// The lock artifacts a browser leaves in its profile directory, relative to
/// it: singleton lock, cookie and socket, and the dev-tools port marker at
/// the top and in the default profile.
pub open spec fn lock_targets() -> Seq<Seq<char>> {
    seq![
        "SingletonLock"@,
        "SingletonCookie"@,
        "SingletonSocket"@,
        "DevToolsActivePort"@,
        "Default/DevToolsActivePort"@,
    ]
}

/// The paths of the lock artifacts to remove from `profile_dir` before a
/// browser is launched on it.
pub fn lock_artifact_paths(profile_dir: &str) -> (r: Vec<String>)
    ensures
        r.deep_view() == lock_targets().map_values(|t: Seq<char>| joined(profile_dir@, t)),
{
    let mut r: Vec<String> = Vec::new();
    r.push(join_path(profile_dir, "SingletonLock"));
    r.push(join_path(profile_dir, "SingletonCookie"));
    r.push(join_path(profile_dir, "SingletonSocket"));
    r.push(join_path(profile_dir, "DevToolsActivePort"));
    r.push(join_path(profile_dir, "Default/DevToolsActivePort"));
    assert(r.deep_view() =~= lock_targets().map_values(|t: Seq<char>| joined(profile_dir@, t)));
    r
}

/// The directory of diagnostic screenshots under `home`.
pub fn get_debug_dir(home: &str) -> (r: String)
    ensures
        r@ == joined(home@, DEBUG_DIR_NAME@),
{
    join_path(home, DEBUG_DIR_NAME)
}

/// The file a screenshot named `name` is written to: `<debug_dir>/<name>.png`.
pub fn screenshot_path(debug_dir: &str, name: &str) -> (r: String)
    ensures
        r@ == joined(debug_dir@, name@ + ".png"@),
{
    let mut file = String::from_str(name);
    file.append(".png");
    join_path(debug_dir, file.as_str())
}

} // verus!
