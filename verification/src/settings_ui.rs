//! The protocol spoken with the settings web view: which request a message
//! carries, and the messages sent back to it.
use vstd::prelude::*;
use crate::json::{json_of_strings, strings_to_json};
use crate::settings::texts;
use crate::text::{bool_text, contains, contains_text, decimal, has_prefix, push_bool, push_decimal, push_str, replace_char, replace_char_with};

verus! {

broadcast use vstd::string::group_string_axioms;

/// A request from the settings page.
#[derive(PartialEq, Eq, Structural, Clone, Copy, Debug)]
pub enum SettingsRequest {
    /// Save the settings the message carries and close the window.
    Save,
    /// Close the window.
    Close,
    /// Send the list of running applications.
    GetApps,
    /// Check for updates.
    CheckUpdates,
    /// Install the update.
    StartUpdate,
    /// Let the user pick a media file.
    SelectMedia,
    /// Fetch the bundled animation again.
    RetrySync,
    /// Anything else: ignored.
    Unknown,
}

/// The request a settings message carries: the first of the action markers,
/// in the order save, close, get_apps, check_updates, start_update,
/// select_media, retry_sync, that occurs in the message text.
pub open spec fn settings_request_of(json: Seq<char>) -> SettingsRequest {
    if contains_text(json, "\"action\":\"save\""@) {
        SettingsRequest::Save
    } else if contains_text(json, "\"action\":\"close\""@) {
        SettingsRequest::Close
    } else if contains_text(json, "\"action\":\"get_apps\""@) {
        SettingsRequest::GetApps
    } else if contains_text(json, "\"action\":\"check_updates\""@) {
        SettingsRequest::CheckUpdates
    } else if contains_text(json, "\"action\":\"start_update\""@) {
        SettingsRequest::StartUpdate
    } else if contains_text(json, "\"action\":\"select_media\""@) {
        SettingsRequest::SelectMedia
    } else if contains_text(json, "\"action\":\"retry_sync\""@) {
        SettingsRequest::RetrySync
    } else {
        SettingsRequest::Unknown
    }
}

/// Which request a message from the settings page carries.
pub fn classify_settings_message(json: &str) -> (r: SettingsRequest)
    ensures
        r == settings_request_of(json@),
{
    if contains(json, "\"action\":\"save\"") {
        SettingsRequest::Save
    } else if contains(json, "\"action\":\"close\"") {
        SettingsRequest::Close
    } else if contains(json, "\"action\":\"get_apps\"") {
        SettingsRequest::GetApps
    } else if contains(json, "\"action\":\"check_updates\"") {
        SettingsRequest::CheckUpdates
    } else if contains(json, "\"action\":\"start_update\"") {
        SettingsRequest::StartUpdate
    } else if contains(json, "\"action\":\"select_media\"") {
        SettingsRequest::SelectMedia
    } else if contains(json, "\"action\":\"retry_sync\"") {
        SettingsRequest::RetrySync
    } else {
        SettingsRequest::Unknown
    }
}

/// A text with its double quotes escaped by a backslash.
pub open spec fn escape_quotes(s: Seq<char>) -> Seq<char> {
    replace_char(s, '"', "\\\""@)
}

/// The message telling the page about an update check: `info_json` is the
/// serialised update information.
pub fn build_update_status_msg(info_json: &str) -> (r: String)
    ensures
        r@ == "{\"action\":\"update_status\", \"info\": "@ + info_json@ + "}"@,
{
    let mut r = String::new();
    push_str(&mut r, "{\"action\":\"update_status\", \"info\": ");
    push_str(&mut r, info_json);
    push_str(&mut r, "}");
    r
}

/// The message telling the page how far the download got, in percent.
pub fn build_update_progress_msg(percentage: u32) -> (r: String)
    ensures
        r@ == "{\"action\":\"update_progress\", \"percentage\": "@ + decimal(percentage as nat) + "}"@,
{
    let mut r = String::new();
    push_str(&mut r, "{\"action\":\"update_progress\", \"percentage\": ");
    push_decimal(&mut r, percentage as u64);
    push_str(&mut r, "}");
    r
}

/// The message telling the page about an update error; the error's double
/// quotes are escaped.
pub fn build_update_error_msg(error: &str) -> (r: String)
    ensures
        r@ == "{\"action\":\"update_error\", \"error\": \""@ + escape_quotes(error@) + "\"}"@,
{
    let mut r = String::new();
    push_str(&mut r, "{\"action\":\"update_error\", \"error\": \"");
    let escaped = replace_char_with(error, '"', "\\\"");
    push_str(&mut r, escaped.as_str());
    push_str(&mut r, "\"}");
    r
}

/// The message answering a request for the running applications: `apps_json`
/// is the serialised list of names.
pub fn build_apps_list_msg(apps_json: &str) -> (r: String)
    ensures
        r@ == "{\"action\":\"apps_list\", \"apps\": "@ + apps_json@ + "}"@,
{
    let mut r = String::new();
    push_str(&mut r, "{\"action\":\"apps_list\", \"apps\": ");
    push_str(&mut r, apps_json);
    push_str(&mut r, "}");
    r
}

/// The message answering a request for the running applications, with their
/// names serialised as a JSON array.
pub fn apps_list_msg(apps: &Vec<String>) -> (r: String)
    ensures
        r@ == "{\"action\":\"apps_list\", \"apps\": "@ + json_of_strings(texts(apps@)) + "}"@,
{
    let apps_json = strings_to_json(apps);
    build_apps_list_msg(apps_json.as_str())
}

/// The message telling the page which media file the user picked; the path's
/// backslashes become forward slashes.
pub fn build_media_selected_msg(path: &str) -> (r: String)
    ensures
        r@ == "{\"action\":\"media_selected\", \"path\":\""@ + replace_char(path@, '\\', "/"@) + "\"}"@,
{
    let mut r = String::new();
    push_str(&mut r, "{\"action\":\"media_selected\", \"path\":\"");
    let slashed = replace_char_with(path, '\\', "/");
    push_str(&mut r, slashed.as_str());
    push_str(&mut r, "\"}");
    r
}

/// The message telling a page that the theme changed.
pub fn build_theme_changed_msg(is_dark: bool) -> (r: String)
    ensures
        r@ == "{\"action\":\"theme_changed\", \"isDark\": "@ + (if is_dark { "true"@ } else { "false"@ }) + "}"@,
{
    let mut r = String::new();
    push_str(&mut r, "{\"action\":\"theme_changed\", \"isDark\": ");
    if is_dark {
        push_str(&mut r, "true");
    } else {
        push_str(&mut r, "false");
    }
    push_str(&mut r, "}");
    r
}


/// Where the settings page loads the application's logo from.
pub open spec fn logo_path() -> Seq<char> {
    "https://pausecat.app/assets/pauseCat.ico"@
}

/// The message that loads the settings page: the serialised settings, the
/// theme, the application's version, whether the bundled animation is on disk,
/// and the logo's location.
pub open spec fn settings_load_msg(
    settings_json: Seq<char>,
    is_dark: bool,
    version: Seq<char>,
    asset_ready: bool,
) -> Seq<char> {
    "{\"action\":\"load\", \"settings\": "@ + settings_json + ", \"isDark\": "@ + bool_text(is_dark)
        + ", \"version\": \""@ + version + "\", \"assetReady\": "@ + bool_text(asset_ready)
        + ", \"logoPath\": \""@ + logo_path() + "\"}"@
}

/// Builds the message that loads the settings page.
pub fn build_settings_load_msg(settings_json: &str, is_dark: bool, version: &str, asset_ready: bool) -> (r:
    String)
    ensures
        r@ == settings_load_msg(settings_json@, is_dark, version@, asset_ready),
{
    let mut r = String::new();
    push_str(&mut r, "{\"action\":\"load\", \"settings\": ");
    push_str(&mut r, settings_json);
    push_str(&mut r, ", \"isDark\": ");
    push_bool(&mut r, is_dark);
    push_str(&mut r, ", \"version\": \"");
    push_str(&mut r, version);
    push_str(&mut r, "\", \"assetReady\": ");
    push_bool(&mut r, asset_ready);
    push_str(&mut r, ", \"logoPath\": \"");
    push_str(&mut r, "https://pausecat.app/assets/pauseCat.ico");
    push_str(&mut r, "\"}");
    assert(r@ =~= settings_load_msg(settings_json@, is_dark, version@, asset_ready));
    r
}

/// The load message carries the theme it is given: it opens with the action,
/// the settings and `"isDark": true` for a dark theme or `"isDark": false` for
/// a light one; so the messages for the two themes always differ.
pub proof fn lemma_load_msg_carries_theme(settings_json: Seq<char>, is_dark: bool, version: Seq<char>, asset_ready: bool)
    ensures
        has_prefix(
            settings_load_msg(settings_json, is_dark, version, asset_ready),
            "{\"action\":\"load\", \"settings\": "@ + settings_json + ", \"isDark\": "@ + if is_dark {
                "true"@
            } else {
                "false"@
            },
        ),
        settings_load_msg(settings_json, true, version, asset_ready) != settings_load_msg(
            settings_json,
            false,
            version,
            asset_ready,
        ),
{
    reveal_strlit("true");
    reveal_strlit("false");
    let m = settings_load_msg(settings_json, is_dark, version, asset_ready);
    let p = "{\"action\":\"load\", \"settings\": "@ + settings_json + ", \"isDark\": "@ + if is_dark {
        "true"@
    } else {
        "false"@
    };
    assert(m.subrange(0, p.len() as int) =~= p);
    assert(settings_load_msg(settings_json, true, version, asset_ready).len() + 1 == settings_load_msg(
        settings_json,
        false,
        version,
        asset_ready,
    ).len());
}

} // verus!
