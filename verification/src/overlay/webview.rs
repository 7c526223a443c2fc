//! The protocol spoken with the overlay web view: its requests, where its
//! media comes from, which local resources it may load, and their types.
use vstd::prelude::*;
use crate::json::{json_of_strings, strings_to_json};
use crate::settings::{texts, BreakMode, Settings, SettingsView};
use crate::settings_ui::escape_quotes;
use crate::text::{
    bool_text, decimal, push_bool, push_decimal, push_signed_decimal, replace_char_with, signed_decimal,
    chars_of, contains, contains_text, has_prefix, lowercase, push_str, starts_with, string_of,
    to_lowercase, trim_prefix_all, trim_start_text,
};

verus! {

broadcast use vstd::string::group_string_axioms;

/// The origin under which the web views load the application's own files.
pub open spec fn app_origin() -> Seq<char> {
    "https://pausecat.app/"@
}

/// A request from the overlay page.
#[derive(PartialEq, Eq, Structural, Clone, Copy, Debug)]
pub enum OverlayRequest {
    /// The user dismissed the overlay.
    Dismiss,
    /// The page is loaded and waits for its configuration.
    Ready,
    /// Anything else: ignored.
    Other,
}

/// The request an overlay message carries: dismissal takes precedence over
/// readiness.
pub open spec fn overlay_request_of(json: Seq<char>) -> OverlayRequest {
    if contains_text(json, "\"action\":\"dismiss\""@) {
        OverlayRequest::Dismiss
    } else if contains_text(json, "\"action\":\"ready\""@) {
        OverlayRequest::Ready
    } else {
        OverlayRequest::Other
    }
}

/// Which request a message from the overlay page carries.
pub fn classify_overlay_message(json: &str) -> (r: OverlayRequest)
    ensures
        r == overlay_request_of(json@),
{
    if contains(json, "\"action\":\"dismiss\"") {
        OverlayRequest::Dismiss
    } else if contains(json, "\"action\":\"ready\"") {
        OverlayRequest::Ready
    } else {
        OverlayRequest::Other
    }
}

/// Where the overlay's animation is loaded from.
#[derive(Debug)]
pub enum MediaSource {
    /// A file of the application's asset folder, at `url`.
    Bundled { url: String },
    /// A file chosen by the user, registered under `id` and served at `url`.
    Local { id: String, url: String },
}

/// Whether an animation setting names a file of the asset folder: the bundled
/// animation, or a name without a path separator.
pub open spec fn is_bundled_animation(anim: Seq<char>, separator: char) -> bool {
    anim == "default.webm"@ || !anim.contains(separator)
}

/// The source of the overlay's animation for the setting `anim`, the platform's
/// path `separator`, and the file name the platform finds in `anim` (if any).
/// A bundled animation is served from the asset folder; a user's file is
/// registered under its file name (`custom` when it has none) and served from
/// the local area.
pub fn media_source_for(anim: &str, separator: char, file_name: Option<&str>) -> (r: MediaSource)
    ensures
        is_bundled_animation(anim@, separator) ==> (r matches MediaSource::Bundled { url } && url@ == "https://pausecat.app/assets/"@ + anim@),
        !is_bundled_animation(anim@, separator) ==> (r matches MediaSource::Local { id, url } && id@ == (
        match file_name {
            Some(n) => n@,
            None => "custom"@,
        }) && url@ == "https://pausecat.app/local/"@ + id@),
{
    let a = chars_of(anim);
    let mut has_separator = false;
    let mut i: usize = 0;
    while i < a.len()
        invariant
            i <= a.len(),
            a@ == anim@,
            has_separator == a@.subrange(0, i as int).contains(separator),
        decreases a.len() - i,
    {
        if a[i] == separator {
            has_separator = true;
        }
        proof {
            let next = a@.subrange(0, i + 1);
            assert(next =~= a@.subrange(0, i as int).push(a@[i as int]));
            if has_separator && a@[i as int] != separator {
                let k = choose|k: int| 0 <= k < i && a@.subrange(0, i as int)[k] == separator;
                assert(next[k] == separator);
            }
            if a@[i as int] == separator {
                assert(next[i as int] == separator);
            }
        }
        i = i + 1;
    }
    assert(a@.subrange(0, a@.len() as int) =~= a@);
    let default_name = "default.webm".to_owned();
    let anim_owned = anim.to_owned();
    if anim_owned == default_name || !has_separator {
        let mut url = String::new();
        push_str(&mut url, "https://pausecat.app/assets/");
        push_str(&mut url, anim);
        MediaSource::Bundled { url }
    } else {
        let id = match file_name {
            Some(n) => n.to_owned(),
            None => "custom".to_owned(),
        };
        let mut url = String::new();
        push_str(&mut url, "https://pausecat.app/local/");
        push_str(&mut url, id.as_str());
        MediaSource::Local { id, url }
    }
}

/// The file name of a path in the platform's plain form, for a platform whose
/// path separator is `sep` (`/` or `\\`): the text after the last `sep`, when
/// the path holds `sep` and not the other of the two, does not begin with a
/// backslash (no root, share or device prefix), and that text is an ordinary
/// name (not empty, not `.` or `..`, without a colon). `None` when the path is
/// not of that form.
pub open spec fn plain_path_name(p: Seq<char>, sep: char) -> Option<Seq<char>> {
    let name = last_segment(p, sep);
    let other = if sep == '/' { '\\' } else { '/' };
    if (sep == '/' || sep == '\\') && p.contains(sep) && !p.contains(other) && p[0] != '\\'
        && name.len() > 0 && name != "."@ && name != ".."@ && !name.contains(':') {
        Some(name)
    } else {
        None
    }
}

/// The final component of a path (`std::path::Path::file_name`, read as text),
/// with the platform's path separator (`std::path::MAIN_SEPARATOR`), which is
/// `/` or `\\` and separates the components that `file_name` sees. Stated: a
/// file name found is a piece of the path's text; and for a path in the plain
/// form of [`plain_path_name`] for that separator, the file name is the text
/// after the last separator. Left unsaid: the file name of other paths (with
/// both separators, a prefix, or a trailing `.`), which the platform's path
/// syntax decides.
#[verifier::external_body]
fn path_file_name(path: &str) -> (r: (Option<String>, char))
    ensures
        r.1 == '/' || r.1 == '\\',
        r.0 matches Some(n) ==> contains_text(path@, n@),
        (r.0 is Some && r.0->0@ == plain_path_name(path@, r.1)->0) || plain_path_name(path@, r.1) is None,
{
    let name = std::path::Path::new(path).file_name().map(|n| n.to_string_lossy().to_string());
    (name, std::path::MAIN_SEPARATOR)
}

/// Whether `r` is the overlay's media source for the setting `anim` on a
/// platform whose path separator is `sep`, as far as the platform's file name
/// of `anim` is known: see [`media_source_for`] and [`path_file_name`].
pub open spec fn media_source_fits(anim: Seq<char>, sep: char, r: MediaSource) -> bool {
    &&& is_bundled_animation(anim, sep) ==> (r matches MediaSource::Bundled { url } && url@
        == "https://pausecat.app/assets/"@ + anim)
    &&& !is_bundled_animation(anim, sep) ==> (r matches MediaSource::Local { id, url } && url@
        == "https://pausecat.app/local/"@ + id@ && (contains_text(anim, id@) || id@ == "custom"@))
    &&& !is_bundled_animation(anim, sep) && plain_path_name(anim, sep) is Some ==> (r matches MediaSource::Local {
        id,
        ..
    } && id@ == plain_path_name(anim, sep)->0)
}

/// The source of the overlay's animation for the setting `anim` on this
/// platform: decided by the platform's path separator and the file name it
/// finds in `anim`; see [`media_source_for`].
pub fn resolve_media_source(anim: &str) -> (r: MediaSource)
    ensures
        exists|sep: char| (sep == '/' || sep == '\\') && #[trigger] media_source_fits(anim@, sep, r),
{
    let (name, sep) = path_file_name(anim);
    let r = match name {
        Some(n) => media_source_for(anim, sep, Some(n.as_str())),
        None => media_source_for(anim, sep, None),
    };
    assert(media_source_fits(anim@, sep, r));
    r
}

/// A resource the web view asks for under the application's origin.
#[derive(Debug)]
pub enum ResourceRequest {
    /// A file of the asset folder.
    Asset(String),
    /// A user's file registered under this id.
    Local(String),
    /// Nothing the application serves.
    Unhandled,
}

/// The resource a URI asks for. Under the application's origin (leading copies
/// of the origin removed), a path `assets/<name>` (leading copies of `assets/`
/// removed) with a non-empty name asks for an asset; otherwise a path
/// `local/<id>` (leading copies of `local/` removed) asks for a user's file.
pub open spec fn resource_request_spec(uri: Seq<char>) -> (bool, bool, Seq<char>) {
    if !has_prefix(uri, app_origin()) {
        (false, false, Seq::empty())
    } else {
        let part = trim_prefix_all(uri, app_origin());
        let file = if has_prefix(part, "assets/"@) { trim_prefix_all(part, "assets/"@) } else { Seq::empty() };
        if file.len() > 0 {
            (true, false, file)
        } else if has_prefix(part, "local/"@) {
            (false, true, trim_prefix_all(part, "local/"@))
        } else {
            (false, false, Seq::empty())
        }
    }
}

/// Which resource a URI requested by a web view asks for.
pub fn parse_resource_uri(uri: &str) -> (r: ResourceRequest)
    ensures
        ({
            let (asset, local, name) = resource_request_spec(uri@);
            &&& asset ==> (r matches ResourceRequest::Asset(n) && n@ == name)
            &&& local ==> (r matches ResourceRequest::Local(n) && n@ == name)
            &&& !asset && !local ==> r is Unhandled
        }),
{
    if !starts_with(uri, "https://pausecat.app/") {
        return ResourceRequest::Unhandled;
    }
    let part = trim_start_text(uri, "https://pausecat.app/");
    let file = if starts_with(part.as_str(), "assets/") {
        trim_start_text(part.as_str(), "assets/")
    } else {
        String::new()
    };
    if file.as_str().unicode_len() > 0 {
        ResourceRequest::Asset(file)
    } else if starts_with(part.as_str(), "local/") {
        ResourceRequest::Local(trim_start_text(part.as_str(), "local/"))
    } else {
        ResourceRequest::Unhandled
    }
}

/// The text after the last `c` of `s` (all of `s` when it holds no `c`), as
/// `s.split(c).last()` gives it.
pub open spec fn last_segment(s: Seq<char>, c: char) -> Seq<char>
    decreases s.len(),
{
    if s.len() == 0 {
        s
    } else if s.last() == c {
        Seq::empty()
    } else {
        last_segment(s.drop_last(), c).push(s.last())
    }
}

/// The text after the last `c` of `s`.
pub fn after_last(s: &str, c: char) -> (r: String)
    ensures
        r@ == last_segment(s@, c),
{
    let v = chars_of(s);
    let mut start: usize = 0;
    let mut i: usize = 0;
    while i < v.len()
        invariant
            start <= i <= v.len(),
            v@ == s@,
            v@.subrange(start as int, i as int) == last_segment(v@.subrange(0, i as int), c),
        decreases v.len() - i,
    {
        proof {
            let next = v@.subrange(0, i + 1);
            assert(next.drop_last() =~= v@.subrange(0, i as int));
            assert(next.last() == v@[i as int]);
        }
        if v[i] == c {
            start = i + 1;
            assert(v@.subrange(start as int, i + 1) =~= Seq::<char>::empty());
        } else {
            assert(v@.subrange(start as int, i + 1) =~= v@.subrange(start as int, i as int).push(v@[i as int]));
        }
        i = i + 1;
    }
    assert(v@.subrange(0, v@.len() as int) =~= v@);
    string_of(&v, start, v.len())
}

/// The content type served for a lowercase file extension.
pub open spec fn mime_for_extension(ext: Seq<char>) -> Seq<char> {
    if ext == "ico"@ {
        "image/x-icon"@
    } else if ext == "webm"@ {
        "video/webm"@
    } else if ext == "mp4"@ {
        "video/mp4"@
    } else if ext == "png"@ {
        "image/png"@
    } else if ext == "jpg"@ || ext == "jpeg"@ {
        "image/jpeg"@
    } else if ext == "gif"@ {
        "image/gif"@
    } else if ext == "html"@ {
        "text/html"@
    } else if ext == "css"@ {
        "text/css"@
    } else if ext == "js"@ {
        "application/javascript"@
    } else {
        "application/octet-stream"@
    }
}

/// The content type for a file name or bare extension: the text after its
/// last dot, in lowercase, looked up among the known types.
pub open spec fn mime_type_spec(path_or_ext: Seq<char>) -> Seq<char> {
    mime_for_extension(lowercase(last_segment(path_or_ext, '.')))
}

/// The content type for a file name or bare extension.
pub fn get_mime_type(path_or_ext: &str) -> (r: String)
    ensures
        r@ == mime_type_spec(path_or_ext@),
{
    let ext = after_last(path_or_ext, '.');
    let lower = to_lowercase(ext.as_str());
    let mime = if lower == "ico".to_owned() {
        "image/x-icon"
    } else if lower == "webm".to_owned() {
        "video/webm"
    } else if lower == "mp4".to_owned() {
        "video/mp4"
    } else if lower == "png".to_owned() {
        "image/png"
    } else if lower == "jpg".to_owned() || lower == "jpeg".to_owned() {
        "image/jpeg"
    } else if lower == "gif".to_owned() {
        "image/gif"
    } else if lower == "html".to_owned() {
        "text/html"
    } else if lower == "css".to_owned() {
        "text/css"
    } else if lower == "js".to_owned() {
        "application/javascript"
    } else {
        "application/octet-stream"
    };
    mime.to_owned()
}


/// The text of the break mode in the overlay's configuration.
pub open spec fn mode_text(mode: BreakMode) -> Seq<char> {
    match mode {
        BreakMode::Soft => "soft"@,
        BreakMode::Hard => "hard"@,
    }
}

/// The display texts of the single-precision settings, as the platform's
/// float formatting writes them.
#[derive(Debug)]
pub struct FloatTexts {
    pub bubble_opacity: String,
    pub video_volume: String,
    pub text_opacity: String,
    pub text_glow: String,
}

/// The view of the float texts.
pub struct FloatTextsView {
    pub bubble_opacity: Seq<char>,
    pub video_volume: Seq<char>,
    pub text_opacity: Seq<char>,
    pub text_glow: Seq<char>,
}

impl View for FloatTexts {
    type V = FloatTextsView;

    open spec fn view(&self) -> FloatTextsView {
        FloatTextsView {
            bubble_opacity: self.bubble_opacity@,
            video_volume: self.video_volume@,
            text_opacity: self.text_opacity@,
            text_glow: self.text_glow@,
        }
    }
}

/// The JSON text of the break messages for the overlay page.
pub fn break_messages_json(messages: &Vec<String>) -> (r: String)
    ensures
        r@ == json_of_strings(texts(messages@)),
{
    strings_to_json(messages)
}

/// The configuration message sent to the overlay page once it is ready: the
/// break length, mode, media location, theme, and the look of the bubble and
/// the text (the custom text with its double quotes escaped).
pub open spec fn overlay_init_msg(
    s: SettingsView,
    media_path: Seq<char>,
    is_dark: bool,
    messages_json: Seq<char>,
    floats: FloatTextsView,
) -> Seq<char> {
    "{\"action\":\"init\", \"duration\": "@
        + decimal(s.break_duration_secs as nat)
        + ", \"mode\": \""@
        + mode_text(s.mode)
        + "\", \"mediaPath\": \""@
        + media_path
        + "\", \"isDark\": "@
        + bool_text(is_dark)
        + ", \"bubbleOpacity\": "@
        + floats.bubble_opacity
        + ", \"bubbleSize\": "@
        + decimal(s.bubble_size as nat)
        + ", \"bubblePosX\": "@
        + signed_decimal(s.bubble_pos_x as int)
        + ", \"bubblePosY\": "@
        + signed_decimal(s.bubble_pos_y as int)
        + ", \"animationStyle\": \""@
        + s.animation_style
        + "\", \"breakMessages\": "@
        + messages_json
        + ", \"randomizeMessages\": "@
        + bool_text(s.randomize_messages)
        + ", \"showWorkStatus\": "@
        + bool_text(s.show_work_duration_status)
        + ", \"workDurationSecs\": "@
        + decimal(s.work_duration_secs as nat)
        + ", \"breakStyle\": \""@
        + s.break_style
        + "\", \"customText\": \""@
        + escape_quotes(s.custom_text)
        + "\", \"videoVolume\": "@
        + floats.video_volume
        + ", \"textAnimation\": \""@
        + s.text_animation
        + "\", \"textRotationX\": "@
        + signed_decimal(s.text_rotation_x as int)
        + ", \"textRotationY\": "@
        + signed_decimal(s.text_rotation_y as int)
        + ", \"textRotationZ\": "@
        + signed_decimal(s.text_rotation_z as int)
        + ", \"textColor\": \""@
        + s.text_color
        + "\", \"textOpacity\": "@
        + floats.text_opacity
        + ", \"textGlow\": "@
        + floats.text_glow
        + ", \"textGlowEnabled\": "@
        + bool_text(s.text_glow_enabled)
        + ", \"textGlowColor\": \""@
        + s.text_glow_color
        + "\", \"textDepth\": "@
        + signed_decimal(s.text_depth as int)
        + ", \"adaptiveTextColor\": "@
        + bool_text(s.adaptive_text_color)
        + "}"@
}

/// The opening of the overlay's configuration message, up to the break mode:
/// the action, the break length and the mode as the page reads it, `soft` (the
/// overlay may be dismissed) or `hard`.
pub open spec fn init_msg_opening(break_secs: u32, mode: BreakMode) -> Seq<char> {
    "{\"action\":\"init\", \"duration\": "@ + decimal(break_secs as nat) + ", \"mode\": \""@ + if mode is Soft {
        "soft"@
    } else {
        "hard"@
    }
}

/// The configuration message names the configured break mode: it opens with
/// the break length and `"mode": "` followed by `soft` for a soft break or
/// `hard` for a hard one; so two settings that differ only in the mode give
/// different messages.
pub proof fn lemma_init_msg_names_mode(
    s: SettingsView,
    media_path: Seq<char>,
    is_dark: bool,
    messages_json: Seq<char>,
    floats: FloatTextsView,
)
    ensures
        has_prefix(
            overlay_init_msg(s, media_path, is_dark, messages_json, floats),
            init_msg_opening(s.break_duration_secs, s.mode),
        ),
        overlay_init_msg(SettingsView { mode: BreakMode::Soft, ..s }, media_path, is_dark, messages_json, floats)
            != overlay_init_msg(SettingsView { mode: BreakMode::Hard, ..s }, media_path, is_dark, messages_json, floats),
{
    reveal_strlit("soft");
    reveal_strlit("hard");
    assert forall|t: SettingsView| #[trigger] has_prefix(
        overlay_init_msg(t, media_path, is_dark, messages_json, floats),
        init_msg_opening(t.break_duration_secs, t.mode),
    ) by {
        let p = init_msg_opening(t.break_duration_secs, t.mode);
        assert forall|a: Seq<char>, b: Seq<char>| has_prefix(a, p) implies #[trigger] has_prefix(a + b, p) by {
            assert((a + b).subrange(0, p.len() as int) =~= a.subrange(0, p.len() as int));
        }
        assert(has_prefix(p, p)) by {
            assert(p.subrange(0, p.len() as int) =~= p);
        }
    }
    let soft = SettingsView { mode: BreakMode::Soft, ..s };
    let hard = SettingsView { mode: BreakMode::Hard, ..s };
    assert(has_prefix(overlay_init_msg(soft, media_path, is_dark, messages_json, floats), init_msg_opening(s.break_duration_secs, BreakMode::Soft)));
    assert(has_prefix(overlay_init_msg(hard, media_path, is_dark, messages_json, floats), init_msg_opening(s.break_duration_secs, BreakMode::Hard)));
    let k = ("{\"action\":\"init\", \"duration\": "@ + decimal(s.break_duration_secs as nat) + ", \"mode\": \""@).len();
    assert(init_msg_opening(s.break_duration_secs, BreakMode::Soft)[k as int] == 's');
    assert(init_msg_opening(s.break_duration_secs, BreakMode::Hard)[k as int] == 'h');
    if overlay_init_msg(soft, media_path, is_dark, messages_json, floats) == overlay_init_msg(hard, media_path, is_dark, messages_json, floats) {
        let m = overlay_init_msg(soft, media_path, is_dark, messages_json, floats);
        let n = init_msg_opening(s.break_duration_secs, BreakMode::Soft).len();
        assert(m.subrange(0, n as int)[k as int] == 's');
        assert(m.subrange(0, n as int)[k as int] == 'h');
    }
}

/// Builds the configuration message for the overlay page. `media_path` is
/// where the animation is served, `messages_json` the serialised break
/// messages, `floats` the display texts of the single-precision settings.
pub fn build_overlay_init_msg(
    settings: &Settings,
    media_path: &str,
    is_dark: bool,
    messages_json: &str,
    floats: &FloatTexts,
) -> (r: String)
    ensures
        r@ == overlay_init_msg(settings@, media_path@, is_dark, messages_json@, floats@),
{
    let mode = match settings.mode {
        BreakMode::Soft => "soft",
        BreakMode::Hard => "hard",
    };
    let custom = replace_char_with(settings.custom_text.as_str(), '"', "\\\"");
    let mut r = String::new();
    push_str(&mut r, "{\"action\":\"init\", \"duration\": ");
    push_decimal(&mut r, settings.break_duration_secs as u64);
    push_str(&mut r, ", \"mode\": \"");
    push_str(&mut r, mode);
    push_str(&mut r, "\", \"mediaPath\": \"");
    push_str(&mut r, media_path);
    push_str(&mut r, "\", \"isDark\": ");
    push_bool(&mut r, is_dark);
    push_str(&mut r, ", \"bubbleOpacity\": ");
    push_str(&mut r, floats.bubble_opacity.as_str());
    push_str(&mut r, ", \"bubbleSize\": ");
    push_decimal(&mut r, settings.bubble_size as u64);
    push_str(&mut r, ", \"bubblePosX\": ");
    push_signed_decimal(&mut r, settings.bubble_pos_x);
    push_str(&mut r, ", \"bubblePosY\": ");
    push_signed_decimal(&mut r, settings.bubble_pos_y);
    push_str(&mut r, ", \"animationStyle\": \"");
    push_str(&mut r, settings.animation_style.as_str());
    push_str(&mut r, "\", \"breakMessages\": ");
    push_str(&mut r, messages_json);
    push_str(&mut r, ", \"randomizeMessages\": ");
    push_bool(&mut r, settings.randomize_messages);
    push_str(&mut r, ", \"showWorkStatus\": ");
    push_bool(&mut r, settings.show_work_duration_status);
    push_str(&mut r, ", \"workDurationSecs\": ");
    push_decimal(&mut r, settings.work_duration_secs as u64);
    push_str(&mut r, ", \"breakStyle\": \"");
    push_str(&mut r, settings.break_style.as_str());
    push_str(&mut r, "\", \"customText\": \"");
    push_str(&mut r, custom.as_str());
    push_str(&mut r, "\", \"videoVolume\": ");
    push_str(&mut r, floats.video_volume.as_str());
    push_str(&mut r, ", \"textAnimation\": \"");
    push_str(&mut r, settings.text_animation.as_str());
    push_str(&mut r, "\", \"textRotationX\": ");
    push_signed_decimal(&mut r, settings.text_rotation_x);
    push_str(&mut r, ", \"textRotationY\": ");
    push_signed_decimal(&mut r, settings.text_rotation_y);
    push_str(&mut r, ", \"textRotationZ\": ");
    push_signed_decimal(&mut r, settings.text_rotation_z);
    push_str(&mut r, ", \"textColor\": \"");
    push_str(&mut r, settings.text_color.as_str());
    push_str(&mut r, "\", \"textOpacity\": ");
    push_str(&mut r, floats.text_opacity.as_str());
    push_str(&mut r, ", \"textGlow\": ");
    push_str(&mut r, floats.text_glow.as_str());
    push_str(&mut r, ", \"textGlowEnabled\": ");
    push_bool(&mut r, settings.text_glow_enabled);
    push_str(&mut r, ", \"textGlowColor\": \"");
    push_str(&mut r, settings.text_glow_color.as_str());
    push_str(&mut r, "\", \"textDepth\": ");
    push_signed_decimal(&mut r, settings.text_depth);
    push_str(&mut r, ", \"adaptiveTextColor\": ");
    push_bool(&mut r, settings.adaptive_text_color);
    push_str(&mut r, "}");
    assert(r@ =~= overlay_init_msg(settings@, media_path@, is_dark, messages_json@, floats@));
    r
}

} // verus!
