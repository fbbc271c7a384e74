use lapsus::key_monitor::{combo_display_name, FLAG_CMD, FLAG_SHIFT};
use lapsus::keybind::{
    capture_outcome, keybind_display_title, CaptureOutcome, KeyEventKind, KeybindCapture,
};

#[test]
fn key_down_is_captured() {
    assert_eq!(capture_outcome(KeyEventKind::KeyDown, 0, 0), CaptureOutcome::Captured(0));
    assert_eq!(capture_outcome(KeyEventKind::KeyDown, 122, FLAG_CMD), CaptureOutcome::Captured(122));
    assert_eq!(capture_outcome(KeyEventKind::KeyDown, 56, 0), CaptureOutcome::Captured(56));
}

#[test]
fn pressed_modifier_is_captured() {
    assert_eq!(capture_outcome(KeyEventKind::FlagsChanged, 56, FLAG_SHIFT), CaptureOutcome::Captured(56));
    assert_eq!(capture_outcome(KeyEventKind::FlagsChanged, 55, FLAG_CMD | FLAG_SHIFT), CaptureOutcome::Captured(55));
}

#[test]
fn released_modifier_passes_through() {
    assert_eq!(capture_outcome(KeyEventKind::FlagsChanged, 56, 0), CaptureOutcome::PassThrough);
    assert_eq!(capture_outcome(KeyEventKind::FlagsChanged, 55, FLAG_SHIFT), CaptureOutcome::PassThrough);
}

#[test]
fn flags_change_without_modifier_flag_passes_through() {
    assert_eq!(capture_outcome(KeyEventKind::FlagsChanged, 57, u64::MAX), CaptureOutcome::PassThrough);
    assert_eq!(capture_outcome(KeyEventKind::FlagsChanged, 0, u64::MAX), CaptureOutcome::PassThrough);
}

#[test]
fn capture_session() {
    let mut capture = KeybindCapture::new();
    assert!(!capture.is_capturing());
    assert!(capture.begin());
    assert!(capture.is_capturing());
    assert!(!capture.begin());
    assert!(capture.is_capturing());
    assert_eq!(capture.handle_event(KeyEventKind::FlagsChanged, 56, 0), CaptureOutcome::PassThrough);
    assert!(capture.is_capturing());
    assert_eq!(capture.handle_event(KeyEventKind::KeyDown, 12, 0), CaptureOutcome::Captured(12));
    assert!(!capture.is_capturing());
    assert!(capture.begin());
}

#[test]
fn event_without_capture_keeps_it_stopped() {
    let mut capture = KeybindCapture::new();
    assert_eq!(capture.handle_event(KeyEventKind::KeyDown, 3, 0), CaptureOutcome::Captured(3));
    assert!(!capture.is_capturing());
}

#[test]
fn keybind_titles() {
    assert_eq!(keybind_display_title(Some(0)), "A");
    assert_eq!(keybind_display_title(Some(63)), "Fn");
    assert_eq!(keybind_display_title(Some(10)), "Unknown");
    assert_eq!(keybind_display_title(None), "Click to set");
}

#[test]
fn keybind_title_matches_combo_display() {
    for key in [None, Some(0u16), Some(49), Some(58), Some(10), Some(u16::MAX)] {
        assert_eq!(keybind_display_title(key), combo_display_name(key, 0));
    }
}
