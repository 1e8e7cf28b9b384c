use vosk_dictation::focus::{
    active_window, always_active_state, atspi_focus_state, clean_wm_class, is_active_window_change,
    is_editable_state, is_white_space, needs_wm_name_fallback, select_focus_backend, should_report_window,
    window_title, x11_focus_state, AppInfo, FocusBackend, FocusState,
};

#[test]
fn backend_from_session_type() {
    assert_eq!(select_focus_backend("x11"), FocusBackend::X11);
    assert_eq!(select_focus_backend("wayland"), FocusBackend::Wayland);
    assert_eq!(select_focus_backend(""), FocusBackend::AlwaysActive);
    assert_eq!(select_focus_backend("tty"), FocusBackend::AlwaysActive);
    assert_eq!(select_focus_backend("X11"), FocusBackend::AlwaysActive);
    assert_eq!(select_focus_backend("x11 "), FocusBackend::AlwaysActive);
}

#[test]
fn unknown_session_reports_unknown_app() {
    assert_eq!(
        always_active_state(),
        FocusState::TextFieldActive(AppInfo { wm_class: "unknown".to_string(), window_name: "unknown".to_string() })
    );
}

#[test]
fn active_window_from_property() {
    assert_eq!(active_window(1, Some(0x3a00007)), 0x3a00007);
    assert_eq!(active_window(0, Some(0x3a00007)), 0);
    assert_eq!(active_window(1, None), 0);
}

#[test]
fn windows_are_reported_once_per_change() {
    let mut last = 0u32;
    assert!(!should_report_window(0, &mut last));
    assert!(should_report_window(7, &mut last));
    assert_eq!(last, 7);
    assert!(!should_report_window(7, &mut last));
    assert!(!should_report_window(0, &mut last));
    assert_eq!(last, 7);
    assert!(should_report_window(9, &mut last));
    assert!(should_report_window(7, &mut last));
    assert_eq!(last, 7);
}

#[test]
fn wm_class_is_cleaned() {
    assert_eq!(clean_wm_class(b"gnome-terminal-server\0Gnome-terminal\0"), "gnome-terminal-server Gnome-terminal");
    assert_eq!(clean_wm_class(b"  \0 "), "");
    assert_eq!(clean_wm_class(b""), "");
    assert_eq!(clean_wm_class(b"a\xffb"), "a\u{FFFD}b");
}

#[test]
fn titles_are_decoded_lossily() {
    assert_eq!(window_title("Notes — gedit".as_bytes()), "Notes — gedit");
    assert_eq!(window_title(b"x\xc3"), "x\u{FFFD}");
    assert!(needs_wm_name_fallback(0));
    assert!(!needs_wm_name_fallback(12));
}

#[test]
fn x11_state_for_window() {
    assert_eq!(
        x11_focus_state(b"code\0Code\0", b"main.rs - code", true),
        FocusState::TextFieldActive(AppInfo {
            wm_class: "code Code".to_string(),
            window_name: "main.rs - code".to_string(),
        })
    );
}

#[test]
fn atspi_state_uses_sender() {
    assert_eq!(
        atspi_focus_state(Some(":1.42".to_string()), true),
        FocusState::TextFieldActive(AppInfo { wm_class: ":1.42".to_string(), window_name: ":1.42".to_string() })
    );
    assert_eq!(
        atspi_focus_state(None, true),
        FocusState::TextFieldActive(AppInfo { wm_class: String::new(), window_name: String::new() })
    );
}

#[test]
fn non_text_focus_is_not_active() {
    assert_eq!(x11_focus_state(b"code\0Code\0", b"main.rs - code", false), FocusState::NotActive);
    assert_eq!(atspi_focus_state(Some(":1.42".to_string()), false), FocusState::NotActive);
}

#[test]
fn editable_state_bit() {
    assert!(is_editable_state(&[1 << 7, 0]));
    assert!(is_editable_state(&[(1 << 7) | (1 << 12), 0]));
    assert!(!is_editable_state(&[1 << 12, 1 << 7]));
    assert!(!is_editable_state(&[]));
}

#[test]
fn active_window_change_filter() {
    assert!(is_active_window_change(301, 301));
    assert!(!is_active_window_change(39, 301));
}

#[test]
fn whitespace_matches_std() {
    for c in (0u32..0x3100).filter_map(char::from_u32) {
        assert_eq!(is_white_space(c), c.is_whitespace(), "{:?}", c);
    }
    assert!(is_white_space('\u{3000}'));
    assert!(!is_white_space('\u{0}'));
}

#[test]
fn xterm_wm_class() {
    assert_eq!(clean_wm_class(b"xterm\0XTerm\0"), "xterm XTerm");
}
