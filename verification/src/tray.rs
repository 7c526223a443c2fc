//! The tray icon's logic: its tooltip text, the UTF-16 tooltip buffer, and the
//! meaning of its messages and menu commands.
use vstd::prelude::*;
use crate::events::AppEvent;
use crate::text::chars_of;

verus! {

broadcast use vstd::string::group_string_axioms;

/// Capacity of the tooltip buffer, in UTF-16 units, terminator included.
pub const TIP_CAPACITY: usize = 128;
/// Menu command: pause or resume.
pub const ID_MENU_PAUSE: usize = 1001;
/// Menu command: open the settings.
pub const ID_MENU_SETTINGS: usize = 1002;
/// Menu command: quit.
pub const ID_MENU_EXIT: usize = 1003;
/// Tray notification: right button released.
pub const WM_RBUTTONUP: u32 = 0x0205;
/// Tray notification: the icon was selected (left click or keyboard).
pub const NIN_SELECT: u32 = 0x0400;

/// The tooltip: the application's name, marked when paused.
pub open spec fn tip_text_spec(paused: bool) -> Seq<char> {
    if paused { "PauseCat (Paused)"@ } else { "PauseCat"@ }
}

/// The tooltip text for the paused state.
pub fn tip_text(paused: bool) -> (r: &'static str)
    ensures
        r@ == tip_text_spec(paused),
{
    if paused { "PauseCat (Paused)" } else { "PauseCat" }
}

/// The UTF-16 encoding of one character: one unit below U+10000, else a
/// surrogate pair.
pub open spec fn utf16_of_char(c: char) -> Seq<u16> {
    let v = c as u32;
    if v < 0x10000 {
        seq![v as u16]
    } else {
        let u = (v - 0x10000) as u32;
        seq![(0xD800 + u / 0x400) as u16, (0xDC00 + u % 0x400) as u16]
    }
}

/// The UTF-16 encoding of a text (`str::encode_utf16`).
pub open spec fn utf16(s: Seq<char>) -> Seq<u16>
    decreases s.len(),
{
    if s.len() == 0 {
        Seq::empty()
    } else {
        utf16(s.drop_last()) + utf16_of_char(s.last())
    }
}

/// The UTF-16 encoding of a string.
pub fn encode_utf16(s: &str) -> (r: Vec<u16>)
    ensures
        r@ == utf16(s@),
{
    let v = chars_of(s);
    let mut r: Vec<u16> = Vec::new();
    let mut i: usize = 0;
    while i < v.len()
        invariant
            i <= v.len(),
            v@ == s@,
            r@ == utf16(v@.subrange(0, i as int)),
        decreases v.len() - i,
    {
        let c = v[i];
        let code = c as u32;
        if code < 0x10000 {
            r.push(code as u16);
        } else {
            proof {
                vstd::utf8::char_is_scalar(c);
            }
            assert(code <= 0x10FFFF);
            let u = code - 0x10000;
            assert(u / 0x400 < 0x400);
            r.push((0xD800 + u / 0x400) as u16);
            r.push((0xDC00 + u % 0x400) as u16);
        }
        proof {
            let next = v@.subrange(0, i + 1);
            assert(next.drop_last() =~= v@.subrange(0, i as int));
            assert(r@ =~= utf16(next));
        }
        i = i + 1;
    }
    assert(v@.subrange(0, v@.len() as int) =~= v@);
    r
}

/// The tooltip buffer after copying `text` into `before`: its first units
/// (at most 127) replace the start of the buffer, followed by a terminating
/// zero; the rest of the buffer is left as it was.
pub open spec fn tip_copied(before: Seq<u16>, text: Seq<char>, after: Seq<u16>) -> bool {
    let wide = utf16(text);
    let n = if wide.len() < TIP_CAPACITY - 1 { wide.len() as int } else { TIP_CAPACITY - 1 };
    &&& after.len() == before.len()
    &&& forall|i: int| 0 <= i < n ==> after[i] == wide[i]
    &&& after[n] == 0
    &&& forall|i: int| n < i < before.len() ==> after[i] == before[i]
}

/// Copies a text into a fixed tooltip buffer, truncated to 127 UTF-16 units
/// and zero-terminated.
pub fn copy_tip(dest: &mut [u16; 128], src: &str)
    ensures
        tip_copied(old(dest)@, src@, final(dest)@),
{
    let wide = encode_utf16(src);
    let len = if wide.len() < 127 { wide.len() } else { 127 };
    let mut i: usize = 0;
    while i < len
        invariant
            i <= len <= 127,
            len <= wide.len(),
            wide@ == utf16(src@),
            dest@.len() == 128,
            forall|j: int| 0 <= j < i ==> dest@[j] == wide@[j],
            forall|j: int| i <= j < 128 ==> dest@[j] == old(dest)@[j],
        decreases len - i,
    {
        dest[i] = wide[i];
        i = i + 1;
    }
    dest[len] = 0;
}

/// Whether a notification from the tray icon opens its menu: a right click or
/// a selection.
pub fn opens_menu(notification: u32) -> (r: bool)
    ensures
        r == (notification == WM_RBUTTONUP || notification == NIN_SELECT),
{
    notification == WM_RBUTTONUP || notification == NIN_SELECT
}

/// The event a tray menu command raises, if it is one of the menu's.
pub fn menu_command_event(command: usize) -> (r: Option<AppEvent>)
    ensures
        command == ID_MENU_PAUSE ==> r matches Some(AppEvent::TogglePause),
        command == ID_MENU_SETTINGS ==> r matches Some(AppEvent::OpenSettings),
        command == ID_MENU_EXIT ==> r matches Some(AppEvent::Quit),
        command != ID_MENU_PAUSE && command != ID_MENU_SETTINGS && command != ID_MENU_EXIT ==> r is None,
{
    if command == ID_MENU_PAUSE {
        Some(AppEvent::TogglePause)
    } else if command == ID_MENU_SETTINGS {
        Some(AppEvent::OpenSettings)
    } else if command == ID_MENU_EXIT {
        Some(AppEvent::Quit)
    } else {
        None
    }
}

} // verus!
