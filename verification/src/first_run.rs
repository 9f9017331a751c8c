//! The first run on macOS: whether the application sits in the Applications
//! folder, and the scripts and answers of moving it there.

use vstd::prelude::*;
use vstd::string::{StrSliceExecFns, StringExecFns};

use crate::text::{
    alphanumeric, begins_with, chars_of, contains, ends_with, has_suffix, is_alphanumeric,
    length_without_suffixes, occurs_in, has_prefix, trimmed, trimmed_is, without_suffixes,
};

verus! {

/// The script that asks whether to replace an older copy: up to the
/// destination path.
pub const REPLACE_SCRIPT_HEAD: &'static str = "\n                set appExists to true\n                try\n                    tell application \"Finder\"\n                        set existingApp to POSIX file \"";

/// The script that asks whether to replace an older copy: between the
/// destination path and the application's name.
pub const REPLACE_SCRIPT_MIDDLE: &'static str = "\" as alias\n                        display dialog \"An older version of ";

/// The script that asks whether to replace an older copy: after the
/// application's name.
pub const REPLACE_SCRIPT_TAIL: &'static str = " exists in Applications. Replace it?\" buttons {\"Cancel\", \"Replace\"} default button \"Replace\" with icon caution\n                        if button returned of result is \"Replace\" then\n                            delete existingApp\n                        else\n                            return \"cancelled\"\n                        end if\n                    end tell\n                on error\n                    return \"cancelled\"\n                end try\n                ";

/// The script that moves the bundle: up to the source path.
pub const MOVE_SCRIPT_HEAD: &'static str = "\n            try\n                tell application \"Finder\"\n                    set sourceApp to POSIX file \"";

/// The script that moves the bundle: after the source path.
pub const MOVE_SCRIPT_TAIL: &'static str = "\" as alias\n                    set destFolder to POSIX file \"/Applications\" as alias\n                    move sourceApp to destFolder with replacing\n                end tell\n                return \"success\"\n            on error errMsg\n                return \"error: \" & errMsg\n            end try\n            ";

/// The script that launches the moved application: up to its name.
pub const LAUNCH_SCRIPT_HEAD: &'static str = "\n                delay 1\n                tell application \"";

/// The script that launches the moved application: after its name.
pub const LAUNCH_SCRIPT_TAIL: &'static str = "\"\n                    activate\n                end tell\n                ";

/// Whether `c` may stand in the name of an application bundle: letters and
/// numbers, the space, the hyphen, the underscore and the period.
pub open spec fn allowed(c: char) -> bool {
    is_alphanumeric(c) || c == ' ' || c == '-' || c == '_' || c == '.'
}

/// Whether `name` is safe to write into a script: it is not empty, and every
/// character of it is allowed.
pub open spec fn safe_app_name(name: Seq<char>) -> bool {
    name.len() > 0 && forall|i: int| 0 <= i < name.len() ==> allowed(#[trigger] name[i])
}

/// Whether `c` may stand in the name of an application bundle, given whether
/// it is a letter or a number.
pub fn allowed_in_app_name(c: char, alphanumeric: bool) -> (allowed: bool)
    ensures
        allowed == (alphanumeric || c == ' ' || c == '-' || c == '_' || c == '.'),
{
    alphanumeric || c == ' ' || c == '-' || c == '_' || c == '.'
}

/// Validates that an application's name holds only characters that are safe
/// inside a script, so that a crafted bundle name cannot inject commands.
pub fn is_safe_app_name(name: &str) -> (safe: bool)
    ensures
        safe == safe_app_name(name@),
{
    let chars = chars_of(name);
    if chars.len() == 0 {
        return false;
    }
    let mut i: usize = 0;
    while i < chars.len()
        invariant
            i <= chars.len(),
            chars@ == name@,
            forall|j: int| 0 <= j < i ==> allowed(#[trigger] chars@[j]),
        decreases chars.len() - i,
    {
        let c = chars[i];
        if !allowed_in_app_name(c, alphanumeric(c)) {
            return false;
        }
        i += 1;
    }
    true
}

/// Whether `path` lies in a build tree.
pub open spec fn dev_path(path: Seq<char>) -> bool {
    occurs_in(path, "/target/debug/"@) || occurs_in(path, "/target/release/"@) || occurs_in(
        path,
        "\\target\\debug\\"@,
    ) || occurs_in(path, "\\target\\release\\"@)
}

/// Whether the executable at `path` runs from a build tree, on any platform.
pub fn is_dev_path(path: &str) -> (dev: bool)
    ensures
        dev == dev_path(path@),
{
    contains(path, "/target/debug/") || contains(path, "/target/release/") || contains(
        path,
        "\\target\\debug\\",
    ) || contains(path, "\\target\\release\\")
}

/// Whether the application runs in development mode: from a build tree, with
/// the debug variable set, or as a debug build. `exe_path` is the path of the
/// executable where it could be found out.
pub fn is_dev_mode(exe_path: Option<&str>, tauri_debug: bool, debug_build: bool) -> (dev: bool)
    ensures
        dev == ((exe_path is Some && dev_path(exe_path->0@)) || tauri_debug || debug_build),
{
    if let Some(path) = exe_path {
        if is_dev_path(path) {
            return true;
        }
    }
    if tauri_debug {
        return true;
    }
    debug_build
}

/// Whether an executable at `path` counts as installed: it lies below an
/// Applications folder, the system's or the user's, or it runs from a build.
pub open spec fn installed_path(path: Seq<char>, user_applications: Option<Seq<char>>) -> bool {
    ||| occurs_in(path, "/Applications/"@)
    ||| (user_applications matches Some(folder) && begins_with(path, folder))
    ||| occurs_in(path, "/target/debug/"@)
    ||| occurs_in(path, "/target/release/"@)
    ||| (occurs_in(path, ".app/Contents/MacOS/"@) && occurs_in(path, "/gitify-tauri/"@))
}

/// Whether the application runs from the Applications folder. The question
/// arises on macOS only, and only where the executable's path is known:
/// otherwise the answer is yes.
pub fn is_in_applications_folder(
    macos: bool,
    exe_path: Option<&str>,
    user_applications: Option<&str>,
) -> (installed: bool)
    ensures
        installed == (!macos || exe_path is None || installed_path(
            exe_path->0@,
            user_applications.deep_view(),
        )),
{
    if !macos {
        return true;
    }
    match exe_path {
        None => true,
        Some(path) => {
            if contains(path, "/Applications/") {
                return true;
            }
            if let Some(folder) = user_applications {
                if has_prefix(path, folder) {
                    return true;
                }
            }
            contains(path, "/target/debug/") || contains(path, "/target/release/") || (contains(
                path,
                ".app/Contents/MacOS/",
            ) && contains(path, "/gitify-tauri/"))
        },
    }
}

/// Whether the user is to be asked to move the application: on macOS, outside
/// development, and only while it is not installed.
pub fn should_prompt_move(macos: bool, dev_mode: bool, in_applications: bool) -> (ask: bool)
    ensures
        ask == (macos && !dev_mode && !in_applications),
{
    macos && !dev_mode && !in_applications
}

/// What stands against moving a bundle of this name, if anything.
pub open spec fn bundle_objection(app_name: Seq<char>) -> Option<Seq<char>> {
    if !ends_with(app_name, ".app"@) {
        Some("Not running from an app bundle"@)
    } else if !safe_app_name(app_name) {
        Some("Invalid app name: contains unsafe characters"@)
    } else {
        None
    }
}

/// Checks the name of the bundle that is to be moved: it must be an
/// application bundle, and its name must be safe inside a script. The message
/// of the first objection comes back.
pub fn check_bundle_name(app_name: &str) -> (objection: Option<String>)
    ensures
        objection.deep_view() == bundle_objection(app_name@),
{
    if !has_suffix(app_name, ".app") {
        Some(String::from_str("Not running from an app bundle"))
    } else if !is_safe_app_name(app_name) {
        Some(String::from_str("Invalid app name: contains unsafe characters"))
    } else {
        None
    }
}

/// Where a bundle of this name lies once it is installed.
pub fn destination_path(app_name: &str) -> (path: String)
    ensures
        path@ == "/Applications/"@ + app_name@,
{
    String::from_str("/Applications/").concat(app_name)
}

/// The script that asks the user whether an older copy at `dest_path` is to be
/// replaced, and deletes it if so. It answers `cancelled` where the user
/// declines.
pub fn replace_script(dest_path: &str, app_name: &str) -> (script: String)
    ensures
        script@ == REPLACE_SCRIPT_HEAD@ + dest_path@ + REPLACE_SCRIPT_MIDDLE@ + app_name@
            + REPLACE_SCRIPT_TAIL@,
{
    String::from_str(REPLACE_SCRIPT_HEAD).concat(dest_path).concat(REPLACE_SCRIPT_MIDDLE).concat(
        app_name,
    ).concat(REPLACE_SCRIPT_TAIL)
}

/// The script that moves the bundle at `source` into the Applications folder.
/// It answers `success`, or `error:` and the reason.
pub fn move_script(source: &str) -> (script: String)
    ensures
        script@ == MOVE_SCRIPT_HEAD@ + source@ + MOVE_SCRIPT_TAIL@,
{
    String::from_str(MOVE_SCRIPT_HEAD).concat(source).concat(MOVE_SCRIPT_TAIL)
}

/// The script that launches the moved application. The application goes by
/// the bundle's name without its `.app` endings.
pub fn launch_script(app_name: &str) -> (script: String)
    ensures
        script@ == LAUNCH_SCRIPT_HEAD@ + without_suffixes(app_name@, ".app"@)
            + LAUNCH_SCRIPT_TAIL@,
{
    let chars = chars_of(app_name);
    let ending = chars_of(".app");
    let kept = length_without_suffixes(&chars, &ending);
    let application = app_name.substring_char(0, kept);
    String::from_str(LAUNCH_SCRIPT_HEAD).concat(application).concat(LAUNCH_SCRIPT_TAIL)
}

/// Whether the replace script's output says that the user declined.
pub fn replace_declined(output: &str) -> (declined: bool)
    ensures
        declined == (trimmed(output@) == "cancelled"@),
{
    trimmed_is(output, "cancelled")
}

/// What the move script's output means.
pub open spec fn move_result(output: Seq<char>) -> Result<bool, Seq<char>> {
    if trimmed(output) == "success"@ {
        Ok(true)
    } else if occurs_in(output, "error:"@) {
        Err("Failed to move app: "@ + output)
    } else {
        Ok(false)
    }
}

/// What a result of [`move_outcome`] is, mathematically.
pub open spec fn outcome_view(outcome: Result<bool, String>) -> Result<bool, Seq<char>> {
    match outcome {
        Ok(moved) => Ok(moved),
        Err(message) => Err(message@),
    }
}

/// Reads the move script's output: `success` means moved; an output that
/// holds `error:` is a failure, reported with the whole output; anything else
/// means that nothing was moved.
pub fn move_outcome(output: &str) -> (outcome: Result<bool, String>)
    ensures
        outcome_view(outcome) == move_result(output@),
{
    if trimmed_is(output, "success") {
        Ok(true)
    } else if contains(output, "error:") {
        Err(String::from_str("Failed to move app: ").concat(output))
    } else {
        Ok(false)
    }
}

} // verus!
