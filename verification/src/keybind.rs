//! Capturing the momentum activation key from the settings window.
//!
//! While a capture runs, the application forwards each key-down and
//! flags-changed event here; the decision says whether the event names the
//! new key or passes through untouched.
use vstd::prelude::*;

use crate::key_monitor::{
    combo_display_spec, combo_parts, flags_contain, is_modifier_keycode_spec, keycode_name,
    keycode_name_spec, lemma_empty_combo, lemma_join_push, lemma_modifier_flag_of_modifier_key, lemma_modifier_flag_table,
    modifier_flag_for_keycode, modifier_flag_spec, modifier_names, MODIFIER_MASK,
};

verus! {

/// The kinds of event a keybind capture listens to.
#[derive(Clone, Copy, Debug, PartialEq, Eq, Structural)]
pub enum KeyEventKind {
    /// A key went down.
    KeyDown,
    /// A modifier key went down or up.
    FlagsChanged,
}

/// What a capture does with one event.
#[derive(Clone, Copy, Debug, PartialEq, Eq, Structural)]
pub enum CaptureOutcome {
    /// The event is not a key press to capture: it goes on to the window.
    PassThrough,
    /// The event's key becomes the activation key, and the event is swallowed.
    Captured(u16),
}

/// A key-down is captured. A flags change is captured only for a modifier key
/// whose flag is now set, that is, for a modifier being pressed, not released.
pub open spec fn capture_outcome_spec(kind: KeyEventKind, keycode: u16, modifier_flags: u64) -> CaptureOutcome {
    match kind {
        KeyEventKind::KeyDown => CaptureOutcome::Captured(keycode),
        KeyEventKind::FlagsChanged => match modifier_flag_spec(keycode) {
            Some(flag) => if flags_contain(modifier_flags, flag) {
                CaptureOutcome::Captured(keycode)
            } else {
                CaptureOutcome::PassThrough
            },
            None => CaptureOutcome::PassThrough,
        },
    }
}

/// Decides what a capture does with an event of kind `kind` for the key
/// `keycode`, with the modifier flags `modifier_flags` that the event carries.
pub fn capture_outcome(kind: KeyEventKind, keycode: u16, modifier_flags: u64) -> (res: CaptureOutcome)
    ensures
        res == capture_outcome_spec(kind, keycode, modifier_flags),
{
    match kind {
        KeyEventKind::FlagsChanged => {
            match modifier_flag_for_keycode(keycode) {
                Some(flag) => {
                    if (modifier_flags & flag) != flag {
                        // A modifier was released, not pressed.
                        return CaptureOutcome::PassThrough;
                    }
                },
                None => {
                    return CaptureOutcome::PassThrough;
                },
            }
        },
        KeyEventKind::KeyDown => {},
    }
    CaptureOutcome::Captured(keycode)
}

/// Whether a keybind capture is waiting for a key.
pub struct KeybindCapture {
    capturing: bool,
}

impl KeybindCapture {
    /// The capture is waiting for a key.
    pub closed spec fn capturing(&self) -> bool {
        self.capturing
    }

    /// A capture that is not waiting for a key.
    pub fn new() -> (res: Self)
        ensures
            !res.capturing(),
    {
        KeybindCapture { capturing: false }
    }

    /// Whether the capture is waiting for a key.
    pub fn is_capturing(&self) -> (res: bool)
        ensures
            res == self.capturing(),
    {
        self.capturing
    }

    /// Starts waiting for a key. Returns false, and changes nothing, when a
    /// capture is already waiting.
    pub fn begin(&mut self) -> (started: bool)
        ensures
            started == !old(self).capturing(),
            final(self).capturing(),
    {
        if self.capturing {
            return false;
        }
        self.capturing = true;
        true
    }

    /// Handles one event: a captured key ends the capture, an event that
    /// passes through leaves it as it was.
    pub fn handle_event(&mut self, kind: KeyEventKind, keycode: u16, modifier_flags: u64) -> (res: CaptureOutcome)
        ensures
            res == capture_outcome_spec(kind, keycode, modifier_flags),
            final(self).capturing() == (old(self).capturing() && res == CaptureOutcome::PassThrough),
    {
        let res = capture_outcome(kind, keycode, modifier_flags);
        match res {
            CaptureOutcome::Captured(_) => {
                self.capturing = false;
            },
            CaptureOutcome::PassThrough => {},
        }
        res
    }
}

/// The title of the keybind button: the activation key's name, or
/// "Click to set" when no key is set.
pub open spec fn keybind_title_spec(key: Option<u16>) -> Seq<char> {
    match key {
        Some(keycode) => keycode_name_spec(keycode),
        None => "Click to set"@,
    }
}

/// Returns the title of the keybind button for the activation key `key`.
pub fn keybind_display_title(key: Option<u16>) -> (res: String)
    ensures
        res@ == keybind_title_spec(key),
{
    match key {
        Some(keycode) => String::from_str(keycode_name(keycode)),
        None => String::from_str("Click to set"),
    }
}

/// The keybind button shows what the combo display shows for the activation
/// key alone, with no modifiers.
pub proof fn lemma_title_is_combo_without_modifiers(key: Option<u16>)
    ensures
        keybind_title_spec(key) == combo_display_spec(key, 0),
{
    lemma_empty_combo(None, 0);
    assert(0u64 & MODIFIER_MASK == 0) by (bit_vector);
    assert(0u64 & 0x0002_0000u64 == 0 && 0u64 & 0x0004_0000u64 == 0 && 0u64 & 0x0008_0000u64 == 0
        && 0u64 & 0x0010_0000u64 == 0 && 0u64 & 0x0080_0000u64 == 0) by (bit_vector);
    assert(modifier_names(0) =~= Seq::empty());
    if let Some(keycode) = key {
        lemma_join_push(Seq::empty(), keycode_name_spec(keycode));
        assert(combo_parts(key, 0) =~= Seq::<Seq<char>>::empty().push(keycode_name_spec(keycode)));
    }
}

/// Every key-down is captured.
pub proof fn lemma_key_down_captured(keycode: u16, modifier_flags: u64)
    ensures
        capture_outcome_spec(KeyEventKind::KeyDown, keycode, modifier_flags)
            == CaptureOutcome::Captured(keycode),
{
}

/// A flags change is captured only for a modifier key being pressed: the key
/// is a modifier key and its flag is set.
pub proof fn lemma_flags_change_captures_pressed_modifier(keycode: u16, modifier_flags: u64)
    requires
        capture_outcome_spec(KeyEventKind::FlagsChanged, keycode, modifier_flags) is Captured,
    ensures
        is_modifier_keycode_spec(keycode),
        modifier_flag_spec(keycode) is Some,
        flags_contain(modifier_flags, modifier_flag_spec(keycode)->0),
{
    lemma_modifier_flag_of_modifier_key(keycode);
}

/// A captured event always names the key of the event: nothing else is ever
/// stored as the activation key.
pub proof fn lemma_captured_key_is_event_key(kind: KeyEventKind, keycode: u16, modifier_flags: u64)
    ensures
        capture_outcome_spec(kind, keycode, modifier_flags) is Captured ==> capture_outcome_spec(
            kind,
            keycode,
            modifier_flags,
        )->0 == keycode,
{
}


/// Pressing a modifier key while a capture waits captures that key: a flags
/// change for a key that sets flag `f`, with `f` set in the event's flags,
/// yields that key.
pub proof fn lemma_pressed_modifier_captured(keycode: u16, modifier_flags: u64)
    requires
        modifier_flag_spec(keycode) is Some,
        (modifier_flags & modifier_flag_spec(keycode)->0) == modifier_flag_spec(keycode)->0,
    ensures
        capture_outcome_spec(KeyEventKind::FlagsChanged, keycode, modifier_flags)
            == CaptureOutcome::Captured(keycode),
{
}

/// Releasing a modifier key passes through: a flags change whose flags lack
/// the key's own flag is not captured.
pub proof fn lemma_released_modifier_passes(keycode: u16, modifier_flags: u64)
    requires
        modifier_flag_spec(keycode) is Some,
        (modifier_flags & modifier_flag_spec(keycode)->0) != modifier_flag_spec(keycode)->0,
    ensures
        capture_outcome_spec(KeyEventKind::FlagsChanged, keycode, modifier_flags)
            == CaptureOutcome::PassThrough,
{
}

/// Each of the nine modifier keys that set a flag (the two Shift, Control,
/// Option and Command keys, and Fn) is captured when pressed; Caps Lock and
/// every other key never are by a flags change.
pub proof fn lemma_flags_change_capture_table(keycode: u16, modifier_flags: u64)
    ensures
        ((keycode == 56 || keycode == 60) && modifier_flags & 0x0002_0000u64 != 0)
            ==> capture_outcome_spec(KeyEventKind::FlagsChanged, keycode, modifier_flags)
            == CaptureOutcome::Captured(keycode),
        ((keycode == 59 || keycode == 62) && modifier_flags & 0x0004_0000u64 != 0)
            ==> capture_outcome_spec(KeyEventKind::FlagsChanged, keycode, modifier_flags)
            == CaptureOutcome::Captured(keycode),
        ((keycode == 58 || keycode == 61) && modifier_flags & 0x0008_0000u64 != 0)
            ==> capture_outcome_spec(KeyEventKind::FlagsChanged, keycode, modifier_flags)
            == CaptureOutcome::Captured(keycode),
        ((keycode == 54 || keycode == 55) && modifier_flags & 0x0010_0000u64 != 0)
            ==> capture_outcome_spec(KeyEventKind::FlagsChanged, keycode, modifier_flags)
            == CaptureOutcome::Captured(keycode),
        (keycode == 63 && modifier_flags & 0x0080_0000u64 != 0) ==> capture_outcome_spec(
            KeyEventKind::FlagsChanged,
            keycode,
            modifier_flags,
        ) == CaptureOutcome::Captured(keycode),
        (keycode < 54 || keycode > 63 || keycode == 57) ==> capture_outcome_spec(
            KeyEventKind::FlagsChanged,
            keycode,
            modifier_flags,
        ) == CaptureOutcome::PassThrough,
{
    lemma_modifier_flag_table(keycode);
    let m = modifier_flags;
    assert(m & 0x0002_0000u64 != 0 ==> m & 0x0002_0000u64 == 0x0002_0000u64) by (bit_vector);
    assert(m & 0x0004_0000u64 != 0 ==> m & 0x0004_0000u64 == 0x0004_0000u64) by (bit_vector);
    assert(m & 0x0008_0000u64 != 0 ==> m & 0x0008_0000u64 == 0x0008_0000u64) by (bit_vector);
    assert(m & 0x0010_0000u64 != 0 ==> m & 0x0010_0000u64 == 0x0010_0000u64) by (bit_vector);
    assert(m & 0x0080_0000u64 != 0 ==> m & 0x0080_0000u64 == 0x0080_0000u64) by (bit_vector);
}

} // verus!
