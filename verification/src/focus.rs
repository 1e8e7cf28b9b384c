//! Focus detection: which display-server monitor to run, and the focus states
//! it reports from what X11 or AT-SPI2 hand back.

use vstd::prelude::*;
use vstd::utf8::decode_utf8;
use vstd::utf8::valid_utf8;

verus! {

/// Information about the currently focused application.
#[derive(Debug, Clone, PartialEq, Eq)]
pub struct AppInfo {
    pub wm_class: String,
    pub window_name: String,
}

/// Focus state sent to the daemon.
#[derive(Debug, Clone, PartialEq, Eq)]
pub enum FocusState {
    /// A text-entry field is active in the given application.
    TextFieldActive(AppInfo),
    /// No text field is focused.
    NotActive,
}

/// Which focus monitor runs.
#[derive(Debug, Clone, Copy, PartialEq, Eq, Structural)]
pub enum FocusBackend {
    /// Watch `_NET_ACTIVE_WINDOW` on the X11 root window.
    X11,
    /// Listen for AT-SPI2 focus events on the accessibility bus.
    Wayland,
    /// Unknown session: report a text field as always active.
    AlwaysActive,
}

/// The monitor for a value of `XDG_SESSION_TYPE` (empty when unset).
pub open spec fn backend_for_session(session_type: Seq<char>) -> FocusBackend {
    if session_type == "x11"@ {
        FocusBackend::X11
    } else if session_type == "wayland"@ {
        FocusBackend::Wayland
    } else {
        FocusBackend::AlwaysActive
    }
}

/// Whether two strings hold the same characters.
fn same_text(a: &str, b: &str) -> (r: bool)
    ensures
        r == (a@ == b@),
{
    let n: usize = a.unicode_len();
    if n != b.unicode_len() {
        return false;
    }
    let mut i: usize = 0;
    while i < n
        invariant
            n == a@.len(),
            n == b@.len(),
            i <= n,
            forall|j: int| 0 <= j < i ==> a@[j] == b@[j],
        decreases n - i,
    {
        if a.get_char(i) != b.get_char(i) {
            return false;
        }
        i += 1;
    }
    assert(a@ =~= b@);
    true
}

/// Chooses the focus monitor from the session type: `x11`, `wayland`, or
/// always-active for anything else.
pub fn select_focus_backend(session_type: &str) -> (backend: FocusBackend)
    ensures
        backend == backend_for_session(session_type@),
{
    if same_text(session_type, "x11") {
        FocusBackend::X11
    } else if same_text(session_type, "wayland") {
        FocusBackend::Wayland
    } else {
        FocusBackend::AlwaysActive
    }
}

/// The state reported once in an unknown session: a text field active in an
/// application named "unknown".
pub fn always_active_state() -> (state: FocusState)
    ensures
        state matches FocusState::TextFieldActive(app) && app.wm_class@ == "unknown"@ && app.window_name@
            == "unknown"@,
{
    FocusState::TextFieldActive(AppInfo {
        wm_class: String::from_str("unknown"),
        window_name: String::from_str("unknown"),
    })
}

/// The active window read from the root window's `_NET_ACTIVE_WINDOW`
/// property: its first 32-bit value when the property is non-empty, else 0
/// (no window).
pub fn active_window(reply_length: u32, first_value: Option<u32>) -> (window: u32)
    ensures
        window == (if reply_length > 0 {
            match first_value {
                Some(w) => w,
                None => 0,
            }
        } else {
            0
        }),
{
    if reply_length > 0 {
        match first_value {
            Some(w) => w,
            None => 0,
        }
    } else {
        0
    }
}

/// Whether a newly active window is reported: not when there is no window
/// (0) nor when it is the window reported last. A reported window becomes the
/// last one.
pub fn should_report_window(window: u32, last_window: &mut u32) -> (report: bool)
    ensures
        report == (window != 0 && window != *old(last_window)),
        *final(last_window) == (if report { window } else { *old(last_window) }),
{
    if window == 0 || window == *last_window {
        return false;
    }
    *last_window = window;
    true
}

/// The text that `String::from_utf8_lossy` decodes from bytes.
pub uninterp spec fn utf8_lossy(bytes: Seq<u8>) -> Seq<char>;

/// Calls `String::from_utf8_lossy`, which decodes UTF-8 and puts U+FFFD in
/// place of each invalid sequence. Stated: the result is a function of the
/// bytes, and valid UTF-8 decodes to its characters.
#[verifier::external_body]
fn decode_lossy(bytes: &[u8]) -> (text: String)
    ensures
        text@ == utf8_lossy(bytes@),
        valid_utf8(bytes@) ==> text@ == decode_utf8(bytes@),
{
    String::from_utf8_lossy(bytes).into_owned()
}

/// Whether a character has the Unicode `White_Space` property, which
/// `char::is_whitespace` and `str::trim` go by: U+0009 to U+000D, U+0020,
/// U+0085, U+00A0, U+1680, U+2000 to U+200A, U+2028, U+2029, U+202F, U+205F
/// and U+3000.
pub open spec fn white_space(c: char) -> bool {
    let n = c as u32;
    ||| 0x9 <= n <= 0xD
    ||| n == 0x20
    ||| n == 0x85
    ||| n == 0xA0
    ||| n == 0x1680
    ||| 0x2000 <= n <= 0x200A
    ||| n == 0x2028
    ||| n == 0x2029
    ||| n == 0x202F
    ||| n == 0x205F
    ||| n == 0x3000
}

/// Whether `c` is whitespace.
pub fn is_white_space(c: char) -> (r: bool)
    ensures
        r == white_space(c),
{
    let n = c as u32;
    (0x9 <= n && n <= 0xD) || n == 0x20 || n == 0x85 || n == 0xA0 || n == 0x1680
        || (0x2000 <= n && n <= 0x200A) || n == 0x2028 || n == 0x2029 || n == 0x202F
        || n == 0x205F || n == 0x3000
}

/// Calls `String::push`, which appends a character.
pub assume_specification[ String::push ](s: &mut String, ch: char)
    ensures
        final(s)@ == old(s)@.push(ch),
;

/// `s` without its leading whitespace.
pub open spec fn trim_start(s: Seq<char>) -> Seq<char>
    decreases s.len(),
{
    if s.len() > 0 && white_space(s[0]) {
        trim_start(s.drop_first())
    } else {
        s
    }
}

/// `s` without its trailing whitespace.
pub open spec fn trim_end(s: Seq<char>) -> Seq<char>
    decreases s.len(),
{
    if s.len() > 0 && white_space(s.last()) {
        trim_end(s.drop_last())
    } else {
        s
    }
}

/// `s` without leading and trailing whitespace, as `str::trim` leaves it.
pub open spec fn trim(s: Seq<char>) -> Seq<char> {
    trim_end(trim_start(s))
}

/// `s` with each NUL character replaced by a space.
pub open spec fn nul_to_space(s: Seq<char>) -> Seq<char> {
    s.map_values(|c: char| if c == '\0' { ' ' } else { c })
}

/// The application name reported for a `WM_CLASS` property value: decoded
/// (lossily) from UTF-8, NUL separators turned into spaces, then trimmed.
pub open spec fn wm_class_text(raw: Seq<u8>) -> Seq<char> {
    trim(nul_to_space(utf8_lossy(raw)))
}

proof fn lemma_trim_start_skip(s: Seq<char>, i: int)
    requires
        0 <= i <= s.len(),
        forall|j: int| 0 <= j < i ==> white_space(#[trigger] s[j]),
    ensures
        trim_start(s) == trim_start(s.skip(i)),
    decreases i,
{
    if i > 0 {
        assert(s.drop_first().skip(i - 1) =~= s.skip(i));
        lemma_trim_start_skip(s.drop_first(), i - 1);
    } else {
        assert(s.skip(0) =~= s);
    }
}

proof fn lemma_trim_end_take(s: Seq<char>, j: int)
    requires
        0 <= j <= s.len(),
        forall|k: int| j <= k < s.len() ==> white_space(#[trigger] s[k]),
    ensures
        trim_end(s) == trim_end(s.take(j)),
    decreases s.len() - j,
{
    if j < s.len() {
        assert(s.drop_last().take(j) =~= s.take(j));
        lemma_trim_end_take(s.drop_last(), j);
    } else {
        assert(s.take(j) =~= s);
    }
}

/// Cleans a raw `WM_CLASS` property value ("instance\0class\0") into the
/// reported application name.
pub fn clean_wm_class(raw: &[u8]) -> (name: String)
    ensures
        name@ == wm_class_text(raw@),
{
    let decoded = decode_lossy(raw);
    let ghost d = decoded@;
    let mut chars: Vec<char> = Vec::new();
    for c in it: decoded.as_str().chars()
        invariant
            it.seq() == d,
            chars@ == nul_to_space(d.take(it.index() as int)),
    {
        let replaced = if c == '\0' { ' ' } else { c };
        chars.push(replaced);
        assert(chars@ =~= nul_to_space(d.take(it.index() + 1)));
    }
    assert(d.take(d.len() as int) =~= d);
    let ghost t = chars@;
    let n = chars.len();
    let mut start: usize = 0;
    while start < n && is_white_space(chars[start])
        invariant
            n == t.len(),
            chars@ == t,
            start <= n,
            forall|j: int| 0 <= j < start ==> white_space(#[trigger] t[j]),
        decreases n - start,
    {
        start += 1;
    }
    proof {
        lemma_trim_start_skip(t, start as int);
    }
    let ghost u = t.skip(start as int);
    assert(trim_start(u) == u);
    let mut end: usize = n;
    while end > start && is_white_space(chars[end - 1])
        invariant
            n == t.len(),
            chars@ == t,
            start <= end <= n,
            u == t.skip(start as int),
            forall|k: int| end <= k < n ==> white_space(#[trigger] t[k]),
        decreases end - start,
    {
        end -= 1;
    }
    proof {
        assert forall|k: int| end - start <= k < u.len() implies white_space(#[trigger] u[k]) by {
            assert(u[k] == t[k + start]);
        }
        lemma_trim_end_take(u, end - start);
        let v = u.take(end - start);
        if v.len() > 0 {
            assert(v.last() == t[end - 1]);
        }
        assert(trim_end(v) == v);
    }
    let mut name = String::new();
    let mut i: usize = start;
    while i < end
        invariant
            chars@ == t,
            start <= i <= end <= n,
            n == t.len(),
            name@ == t.subrange(start as int, i as int),
        decreases end - i,
    {
        name.push(chars[i]);
        assert(name@ =~= t.subrange(start as int, i + 1));
        i += 1;
    }
    assert(t.subrange(start as int, end as int) =~= u.take(end - start));
    name
}

/// Decodes a window title property value (lossily) from UTF-8.
pub fn window_title(raw: &[u8]) -> (title: String)
    ensures
        title@ == utf8_lossy(raw@),
{
    decode_lossy(raw)
}

/// The focus state reported for a newly active X11 window, from its raw
/// `WM_CLASS` and title property values: a text field active in that
/// application when the focused object is a text-entry field, else no text
/// field.
pub fn x11_focus_state(wm_class_raw: &[u8], title_raw: &[u8], text_entry: bool) -> (state: FocusState)
    ensures
        text_entry ==> (state matches FocusState::TextFieldActive(app) && app.wm_class@ == wm_class_text(
            wm_class_raw@,
        ) && app.window_name@ == utf8_lossy(title_raw@)),
        !text_entry ==> state == FocusState::NotActive,
{
    if text_entry {
        FocusState::TextFieldActive(AppInfo {
            wm_class: clean_wm_class(wm_class_raw),
            window_name: window_title(title_raw),
        })
    } else {
        FocusState::NotActive
    }
}

/// Whether an X11 event is a change of the root window's `_NET_ACTIVE_WINDOW`
/// property (the atom of the changed property against that of
/// `_NET_ACTIVE_WINDOW`).
pub fn is_active_window_change(changed_atom: u32, net_active_window: u32) -> (change: bool)
    ensures
        change == (changed_atom == net_active_window),
{
    changed_atom == net_active_window
}

/// Whether the title is read from `WM_NAME` because `_NET_WM_NAME` is empty.
pub fn needs_wm_name_fallback(net_wm_name_length: u32) -> (fallback: bool)
    ensures
        fallback == (net_wm_name_length == 0),
{
    net_wm_name_length == 0
}

/// The AT-SPI2 state `EDITABLE`: bit 7 of the state set that
/// `org.a11y.atspi.Accessible.GetState` returns as 32-bit words.
pub open spec fn editable_state(states: Seq<u32>) -> bool {
    states.len() > 0 && (states[0] / 128) % 2 == 1
}

/// Whether an accessible object's state set holds `EDITABLE`, that is, the
/// focused object is a text-entry field.
pub fn is_editable_state(states: &[u32]) -> (editable: bool)
    ensures
        editable == editable_state(states@),
{
    states.len() > 0 && (states[0] / 128) % 2 == 1
}

/// The focus state reported for an AT-SPI2 focus event: when the focused
/// object is a text-entry field, a text field active in the application named
/// by the sender's bus name (empty when the message has none), as both class
/// and title; else no text field.
pub fn atspi_focus_state(sender: Option<String>, text_entry: bool) -> (state: FocusState)
    ensures
        text_entry ==> (state matches FocusState::TextFieldActive(app) && app.wm_class@ == app.window_name@
            && app.window_name@ == (match sender {
                Some(s) => s@,
                None => Seq::<char>::empty(),
            })),
        !text_entry ==> state == FocusState::NotActive,
{
    if !text_entry {
        return FocusState::NotActive;
    }
    let name = match sender {
        Some(s) => s,
        None => String::new(),
    };
    FocusState::TextFieldActive(AppInfo { wm_class: name.clone(), window_name: name })
}

/// Whether the focused object is editable depends on the `EDITABLE` bit
/// (bit 7 of the first state word) alone: any other bit, set or clear, leaves
/// the answer unchanged.
pub proof fn lemma_editable_is_bit_seven(states: Seq<u32>)
    ensures
        editable_state(states) <==> (states.len() > 0 && states[0] & 0x80u32 == 0x80u32),
{
    if states.len() > 0 {
        let w = states[0];
        assert(((w / 128) % 2 == 1) <==> (w & 0x80u32 == 0x80u32)) by (bit_vector);
    }
}

} // verus!
