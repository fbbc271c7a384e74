//! Modifier flags, keycodes and keybind combos.
//!
//! The system-wide key and modifier state is read by the application; the
//! functions here decide what that state means and how combos are shown.
use vstd::prelude::*;

verus! {

/// CGEventFlags bit set while Shift is held.
pub const FLAG_SHIFT: u64 = 0x0002_0000;

/// CGEventFlags bit set while Control is held.
pub const FLAG_CTRL: u64 = 0x0004_0000;

/// CGEventFlags bit set while Option (Alternate) is held.
pub const FLAG_ALT: u64 = 0x0008_0000;

/// CGEventFlags bit set while Command is held.
pub const FLAG_CMD: u64 = 0x0010_0000;

/// CGEventFlags bit set while the secondary Fn key is held.
pub const FLAG_FN: u64 = 0x0080_0000;

/// The device-independent modifier bits: Shift, Control, Option, Command and Fn.
pub const MODIFIER_MASK: u64 = FLAG_SHIFT | FLAG_CTRL | FLAG_ALT | FLAG_CMD | FLAG_FN;

/// The modifier mask is the five bits 17 to 20 and 23.
pub proof fn lemma_modifier_mask_value()
    ensures
        MODIFIER_MASK == 0x009E_0000u64,
        FLAG_SHIFT | FLAG_CTRL | FLAG_ALT | FLAG_CMD | FLAG_FN == 0x009E_0000u64,
{
    assert(0x0002_0000u64 | 0x0004_0000u64 | 0x0008_0000u64 | 0x0010_0000u64 | 0x0080_0000u64
        == 0x009E_0000u64) by (bit_vector);
}

/// All bits of `required` are set in `current`.
pub open spec fn flags_contain(current: u64, required: u64) -> bool {
    current & required == required
}

/// True if every modifier flag in `required_flags` is set in `current_flags`,
/// the modifier state that was read from the combined session. No required
/// flag is always held.
pub fn are_modifiers_held(current_flags: u64, required_flags: u64) -> (res: bool)
    ensures
        res == flags_contain(current_flags, required_flags),
        required_flags == 0 ==> res,
{
    if required_flags == 0 {
        assert(current_flags & 0 == 0) by (bit_vector);
        return true;
    }
    (current_flags & required_flags) == required_flags
}

/// What `is_combo_held` answers: the modifiers are held and, for a combo with
/// a key, that key is down.
pub open spec fn combo_held_spec(
    keycode: Option<u16>,
    modifiers: u64,
    current_flags: u64,
    key_is_down: bool,
) -> bool {
    flags_contain(current_flags, modifiers) && (keycode is Some ==> key_is_down)
}

/// Checks a full keybind combo (modifiers plus an optional key) against the
/// current modifier flags and, when the combo has a key, whether that key is
/// down (`key_is_down`, read for `keycode`). A modifier-only combo needs only
/// its modifiers.
pub fn is_combo_held(keycode: Option<u16>, modifiers: u64, current_flags: u64, key_is_down: bool) -> (res: bool)
    ensures
        res == combo_held_spec(keycode, modifiers, current_flags, key_is_down),
{
    if !are_modifiers_held(current_flags, modifiers) {
        return false;
    }
    match keycode {
        Some(_) => key_is_down,
        None => true,
    }
}

/// Keeps only the device-independent modifier flags of `raw_flags`.
pub fn clean_modifier_flags(raw_flags: u64) -> (res: u64)
    ensures
        res == raw_flags & MODIFIER_MASK,
        res & !MODIFIER_MASK == 0,
        res & raw_flags == res,
{
    let res = raw_flags & (FLAG_SHIFT | FLAG_CTRL | FLAG_ALT | FLAG_CMD | FLAG_FN);
    proof {
        lemma_modifier_mask_value();
    }
    assert(res & !0x009E_0000u64 == 0 && res & raw_flags == res) by (bit_vector)
        requires
            res == raw_flags & 0x009E_0000u64,
    ;
    res
}

/// The keycodes 54 through 63 are the modifier keys.
pub open spec fn is_modifier_keycode_spec(keycode: u16) -> bool {
    54 <= keycode && keycode <= 63
}

/// Returns true if the keycode is a modifier key.
pub fn is_modifier_keycode(keycode: u16) -> (res: bool)
    ensures
        res == is_modifier_keycode_spec(keycode),
{
    54 <= keycode && keycode <= 63
}

/// The flag that a modifier key sets while it is down: both Shift keys set
/// Shift, both Control keys Control, both Option keys Option, both Command
/// keys Command and the Fn key Fn. Other keys set none.
pub open spec fn modifier_flag_spec(keycode: u16) -> Option<u64> {
    if keycode == 56 || keycode == 60 {
        Some(FLAG_SHIFT)
    } else if keycode == 59 || keycode == 62 {
        Some(FLAG_CTRL)
    } else if keycode == 58 || keycode == 61 {
        Some(FLAG_ALT)
    } else if keycode == 55 || keycode == 54 {
        Some(FLAG_CMD)
    } else if keycode == 63 {
        Some(FLAG_FN)
    } else {
        None
    }
}

/// Returns the modifier flag that the key `keycode` sets, if it is a modifier
/// key that sets one (Caps Lock sets none of them).
pub fn modifier_flag_for_keycode(keycode: u16) -> (res: Option<u64>)
    ensures
        res == modifier_flag_spec(keycode),
{
    match keycode {
        56 | 60 => Some(FLAG_SHIFT),
        59 | 62 => Some(FLAG_CTRL),
        58 | 61 => Some(FLAG_ALT),
        55 | 54 => Some(FLAG_CMD),
        63 => Some(FLAG_FN),
        _ => None,
    }
}


/// The human-readable name of a macOS virtual keycode; "Unknown" for a
/// keycode with no name.
pub open spec fn keycode_name_spec(keycode: u16) -> Seq<char> {
    match keycode {
        0 => "A"@,
        1 => "S"@,
        2 => "D"@,
        3 => "F"@,
        4 => "H"@,
        5 => "G"@,
        6 => "Z"@,
        7 => "X"@,
        8 => "C"@,
        9 => "V"@,
        11 => "B"@,
        12 => "Q"@,
        13 => "W"@,
        14 => "E"@,
        15 => "R"@,
        16 => "Y"@,
        17 => "T"@,
        18 => "1"@,
        19 => "2"@,
        20 => "3"@,
        21 => "4"@,
        22 => "6"@,
        23 => "5"@,
        24 => "="@,
        25 => "9"@,
        26 => "7"@,
        27 => "-"@,
        28 => "8"@,
        29 => "0"@,
        30 => "]"@,
        31 => "O"@,
        32 => "U"@,
        33 => "["@,
        34 => "I"@,
        35 => "P"@,
        36 => "Return"@,
        37 => "L"@,
        38 => "J"@,
        39 => "'"@,
        40 => "K"@,
        41 => ";"@,
        42 => "\\"@,
        43 => ","@,
        44 => "/"@,
        45 => "N"@,
        46 => "M"@,
        47 => "."@,
        48 => "Tab"@,
        49 => "Space"@,
        50 => "`"@,
        51 => "Delete"@,
        53 => "Escape"@,
        54 => "Right Cmd"@,
        55 => "Left Cmd"@,
        56 => "Left Shift"@,
        57 => "Caps Lock"@,
        58 => "Left Option"@,
        59 => "Left Ctrl"@,
        60 => "Right Shift"@,
        61 => "Right Option"@,
        62 => "Right Ctrl"@,
        63 => "Fn"@,
        96 => "F5"@,
        97 => "F6"@,
        98 => "F7"@,
        99 => "F3"@,
        100 => "F8"@,
        101 => "F9"@,
        103 => "F11"@,
        105 => "F13"@,
        107 => "F14"@,
        109 => "F10"@,
        111 => "F12"@,
        113 => "F15"@,
        118 => "F4"@,
        120 => "F2"@,
        122 => "F1"@,
        123 => "Left"@,
        124 => "Right"@,
        125 => "Down"@,
        126 => "Up"@,
        _ => "Unknown"@,
    }
}

/// Returns a human-readable name for a macOS virtual keycode.
pub fn keycode_name(keycode: u16) -> (res: &'static str)
    ensures
        res@ == keycode_name_spec(keycode),
{
    match keycode {
        0 => "A",
        1 => "S",
        2 => "D",
        3 => "F",
        4 => "H",
        5 => "G",
        6 => "Z",
        7 => "X",
        8 => "C",
        9 => "V",
        11 => "B",
        12 => "Q",
        13 => "W",
        14 => "E",
        15 => "R",
        16 => "Y",
        17 => "T",
        18 => "1",
        19 => "2",
        20 => "3",
        21 => "4",
        22 => "6",
        23 => "5",
        24 => "=",
        25 => "9",
        26 => "7",
        27 => "-",
        28 => "8",
        29 => "0",
        30 => "]",
        31 => "O",
        32 => "U",
        33 => "[",
        34 => "I",
        35 => "P",
        36 => "Return",
        37 => "L",
        38 => "J",
        39 => "'",
        40 => "K",
        41 => ";",
        42 => "\\",
        43 => ",",
        44 => "/",
        45 => "N",
        46 => "M",
        47 => ".",
        48 => "Tab",
        49 => "Space",
        50 => "`",
        51 => "Delete",
        53 => "Escape",
        54 => "Right Cmd",
        55 => "Left Cmd",
        56 => "Left Shift",
        57 => "Caps Lock",
        58 => "Left Option",
        59 => "Left Ctrl",
        60 => "Right Shift",
        61 => "Right Option",
        62 => "Right Ctrl",
        63 => "Fn",
        96 => "F5",
        97 => "F6",
        98 => "F7",
        99 => "F3",
        100 => "F8",
        101 => "F9",
        103 => "F11",
        105 => "F13",
        107 => "F14",
        109 => "F10",
        111 => "F12",
        113 => "F15",
        118 => "F4",
        120 => "F2",
        122 => "F1",
        123 => "Left",
        124 => "Right",
        125 => "Down",
        126 => "Up",
        _ => "Unknown",
    }
}


/// The modifiers of a combo by name, in display order: Ctrl, Option, Shift,
/// Cmd, Fn.
pub open spec fn modifier_names(modifiers: u64) -> Seq<Seq<char>> {
    let ctrl = if modifiers & FLAG_CTRL != 0 { seq!["Ctrl"@] } else { Seq::empty() };
    let alt = if modifiers & FLAG_ALT != 0 { seq!["Option"@] } else { Seq::empty() };
    let shift = if modifiers & FLAG_SHIFT != 0 { seq!["Shift"@] } else { Seq::empty() };
    let cmd = if modifiers & FLAG_CMD != 0 { seq!["Cmd"@] } else { Seq::empty() };
    let func = if modifiers & FLAG_FN != 0 { seq!["Fn"@] } else { Seq::empty() };
    ctrl + alt + shift + cmd + func
}

/// The parts of a combo's display name: its modifiers, then its key.
pub open spec fn combo_parts(keycode: Option<u16>, modifiers: u64) -> Seq<Seq<char>> {
    match keycode {
        Some(kc) => modifier_names(modifiers).push(keycode_name_spec(kc)),
        None => modifier_names(modifiers),
    }
}

/// The parts joined with "+" between each two.
pub open spec fn join_with_plus(parts: Seq<Seq<char>>) -> Seq<char>
    decreases parts.len(),
{
    if parts.len() == 0 {
        Seq::empty()
    } else if parts.len() == 1 {
        parts[0]
    } else {
        join_with_plus(parts.drop_last()) + seq!['+'] + parts.last()
    }
}

/// The display name of a combo: its parts joined by "+", or "Click to set"
/// when it has neither modifiers nor a key.
pub open spec fn combo_display_spec(keycode: Option<u16>, modifiers: u64) -> Seq<char> {
    let parts = combo_parts(keycode, modifiers);
    if parts.len() == 0 {
        "Click to set"@
    } else {
        join_with_plus(parts)
    }
}

/// Joining one more part adds "+" and the part, or is the part alone.
pub proof fn lemma_join_push(parts: Seq<Seq<char>>, part: Seq<char>)
    ensures
        join_with_plus(parts.push(part)) == if parts.len() == 0 {
            part
        } else {
            join_with_plus(parts) + seq!['+'] + part
        },
{
    assert(parts.push(part).drop_last() =~= parts);
    assert(parts.push(part).last() == part);
}

/// Appends `part` to the joined text of `parts`.
fn push_part(text: &mut String, first: bool, part: &str, Ghost(parts): Ghost<Seq<Seq<char>>>)
    requires
        old(text)@ == join_with_plus(parts),
        first == (parts.len() == 0),
    ensures
        final(text)@ == join_with_plus(parts.push(part@)),
{
    proof {
        lemma_join_push(parts, part@);
    }
    if !first {
        text.append("+");
        proof {
            reveal_strlit("+");
        }
    }
    text.append(part);
}

/// Builds a display string for a keybind combo, e.g. "Cmd+A" or "Ctrl+Shift".
pub fn combo_display_name(keycode: Option<u16>, modifiers: u64) -> (res: String)
    ensures
        res@ == combo_display_spec(keycode, modifiers),
{
    let ghost mut parts: Seq<Seq<char>> = Seq::empty();
    let mut text = String::new();
    let mut any = false;
    if modifiers & FLAG_CTRL != 0 {
        push_part(&mut text, !any, "Ctrl", Ghost(parts));
        proof { parts = parts.push("Ctrl"@); }
        any = true;
    }
    if modifiers & FLAG_ALT != 0 {
        push_part(&mut text, !any, "Option", Ghost(parts));
        proof { parts = parts.push("Option"@); }
        any = true;
    }
    if modifiers & FLAG_SHIFT != 0 {
        push_part(&mut text, !any, "Shift", Ghost(parts));
        proof { parts = parts.push("Shift"@); }
        any = true;
    }
    if modifiers & FLAG_CMD != 0 {
        push_part(&mut text, !any, "Cmd", Ghost(parts));
        proof { parts = parts.push("Cmd"@); }
        any = true;
    }
    if modifiers & FLAG_FN != 0 {
        push_part(&mut text, !any, "Fn", Ghost(parts));
        proof { parts = parts.push("Fn"@); }
        any = true;
    }
    assert(parts =~= modifier_names(modifiers));
    if let Some(kc) = keycode {
        let name = keycode_name(kc);
        push_part(&mut text, !any, name, Ghost(parts));
        proof { parts = parts.push(name@); }
        any = true;
    }
    assert(parts =~= combo_parts(keycode, modifiers));
    if !any {
        return String::from_str("Click to set");
    }
    text
}


/// Cleaning modifier flags twice is cleaning them once.
pub proof fn lemma_clean_idempotent(raw_flags: u64)
    ensures
        (raw_flags & MODIFIER_MASK) & MODIFIER_MASK == raw_flags & MODIFIER_MASK,
{
    lemma_modifier_mask_value();
    assert((raw_flags & 0x009E_0000u64) & 0x009E_0000u64 == raw_flags & 0x009E_0000u64)
        by (bit_vector);
}

/// Cleaning keeps each of the five modifier bits as it was.
pub proof fn lemma_clean_keeps_modifiers(raw_flags: u64)
    ensures
        (raw_flags & MODIFIER_MASK) & FLAG_SHIFT == raw_flags & FLAG_SHIFT,
        (raw_flags & MODIFIER_MASK) & FLAG_CTRL == raw_flags & FLAG_CTRL,
        (raw_flags & MODIFIER_MASK) & FLAG_ALT == raw_flags & FLAG_ALT,
        (raw_flags & MODIFIER_MASK) & FLAG_CMD == raw_flags & FLAG_CMD,
        (raw_flags & MODIFIER_MASK) & FLAG_FN == raw_flags & FLAG_FN,
{
    lemma_modifier_mask_value();
    let m = raw_flags;
    assert((m & 0x009E_0000u64) & 0x0002_0000u64 == m & 0x0002_0000u64) by (bit_vector);
    assert((m & 0x009E_0000u64) & 0x0004_0000u64 == m & 0x0004_0000u64) by (bit_vector);
    assert((m & 0x009E_0000u64) & 0x0008_0000u64 == m & 0x0008_0000u64) by (bit_vector);
    assert((m & 0x009E_0000u64) & 0x0010_0000u64 == m & 0x0010_0000u64) by (bit_vector);
    assert((m & 0x009E_0000u64) & 0x0080_0000u64 == m & 0x0080_0000u64) by (bit_vector);
}

/// The display name of a combo depends on its device-independent modifier
/// flags only: any other bit of `modifiers` is ignored.
pub proof fn lemma_display_ignores_other_flags(keycode: Option<u16>, modifiers: u64)
    ensures
        combo_display_spec(keycode, modifiers) == combo_display_spec(
            keycode,
            modifiers & MODIFIER_MASK,
        ),
{
    lemma_clean_keeps_modifiers(modifiers);
    assert(modifier_names(modifiers) =~= modifier_names(modifiers & MODIFIER_MASK));
    assert(combo_parts(keycode, modifiers) =~= combo_parts(keycode, modifiers & MODIFIER_MASK));
}

/// A combo has nothing to show exactly when it has no key and none of the
/// five modifier flags.
pub proof fn lemma_empty_combo(keycode: Option<u16>, modifiers: u64)
    ensures
        (combo_parts(keycode, modifiers).len() == 0) <==> (keycode is None && modifiers
            & MODIFIER_MASK == 0),
{
    lemma_modifier_mask_value();
    let m = modifiers;
    assert((m & 0x009E_0000u64 == 0) <==> (m & 0x0002_0000u64 == 0 && m & 0x0004_0000u64 == 0
        && m & 0x0008_0000u64 == 0 && m & 0x0010_0000u64 == 0 && m & 0x0080_0000u64 == 0))
        by (bit_vector);
}

/// A combo of no modifiers and no key shows "Click to set".
pub proof fn lemma_empty_combo_display()
    ensures
        combo_display_spec(None, 0) == "Click to set"@,
{
    lemma_empty_combo(None, 0);
    assert(0u64 & MODIFIER_MASK == 0) by (bit_vector);
}

/// Every modifier key has a name of its own: none of them is "Unknown".
pub proof fn lemma_modifier_keys_named(keycode: u16)
    requires
        is_modifier_keycode_spec(keycode),
    ensures
        keycode_name_spec(keycode) != "Unknown"@,
{
    reveal_strlit("Unknown");
    reveal_strlit("Right Cmd");
    reveal_strlit("Left Cmd");
    reveal_strlit("Left Shift");
    reveal_strlit("Caps Lock");
    reveal_strlit("Left Option");
    reveal_strlit("Left Ctrl");
    reveal_strlit("Right Shift");
    reveal_strlit("Right Option");
    reveal_strlit("Right Ctrl");
    reveal_strlit("Fn");
    assert(keycode_name_spec(keycode).len() != "Unknown"@.len());
}

/// A key that sets a modifier flag is a modifier key, and the flag it sets is
/// one of the five device-independent modifier bits.
pub proof fn lemma_modifier_flag_of_modifier_key(keycode: u16)
    requires
        modifier_flag_spec(keycode) is Some,
    ensures
        is_modifier_keycode_spec(keycode),
        modifier_flag_spec(keycode)->0 & MODIFIER_MASK == modifier_flag_spec(keycode)->0,
        modifier_flag_spec(keycode)->0 != 0,
{
    lemma_modifier_mask_value();
    assert(0x0002_0000u64 & 0x009E_0000u64 == 0x0002_0000u64) by (bit_vector);
    assert(0x0004_0000u64 & 0x009E_0000u64 == 0x0004_0000u64) by (bit_vector);
    assert(0x0008_0000u64 & 0x009E_0000u64 == 0x0008_0000u64) by (bit_vector);
    assert(0x0010_0000u64 & 0x009E_0000u64 == 0x0010_0000u64) by (bit_vector);
    assert(0x0080_0000u64 & 0x009E_0000u64 == 0x0080_0000u64) by (bit_vector);
}

/// No required modifier is always held, whatever the current flags.
pub proof fn lemma_no_modifiers_always_held(current_flags: u64)
    ensures
        flags_contain(current_flags, 0),
{
    assert(current_flags & 0 == 0) by (bit_vector);
}

/// A modifier-only combo is held exactly when its modifiers are held; the
/// key state plays no part.
pub proof fn lemma_modifier_only_combo(modifiers: u64, current_flags: u64, key_is_down: bool)
    ensures
        combo_held_spec(None, modifiers, current_flags, key_is_down) == flags_contain(
            current_flags,
            modifiers,
        ),
{
}

/// A combo with a key is never held while that key is up.
pub proof fn lemma_combo_needs_key(keycode: u16, modifiers: u64, current_flags: u64)
    ensures
        !combo_held_spec(Some(keycode), modifiers, current_flags, false),
{
}


/// The labels of the named keys, character by character: the letters, digits
/// and punctuation of the ANSI layout, the editing and arrow keys, the
/// modifier keys and the function keys.
pub proof fn lemma_keycode_labels()
    ensures
        keycode_name_spec(0) =~= seq!['A'],
        keycode_name_spec(1) =~= seq!['S'],
        keycode_name_spec(2) =~= seq!['D'],
        keycode_name_spec(3) =~= seq!['F'],
        keycode_name_spec(4) =~= seq!['H'],
        keycode_name_spec(5) =~= seq!['G'],
        keycode_name_spec(6) =~= seq!['Z'],
        keycode_name_spec(7) =~= seq!['X'],
        keycode_name_spec(8) =~= seq!['C'],
        keycode_name_spec(9) =~= seq!['V'],
        keycode_name_spec(11) =~= seq!['B'],
        keycode_name_spec(12) =~= seq!['Q'],
        keycode_name_spec(13) =~= seq!['W'],
        keycode_name_spec(14) =~= seq!['E'],
        keycode_name_spec(15) =~= seq!['R'],
        keycode_name_spec(16) =~= seq!['Y'],
        keycode_name_spec(17) =~= seq!['T'],
        keycode_name_spec(18) =~= seq!['1'],
        keycode_name_spec(19) =~= seq!['2'],
        keycode_name_spec(20) =~= seq!['3'],
        keycode_name_spec(21) =~= seq!['4'],
        keycode_name_spec(22) =~= seq!['6'],
        keycode_name_spec(23) =~= seq!['5'],
        keycode_name_spec(24) =~= seq!['='],
        keycode_name_spec(25) =~= seq!['9'],
        keycode_name_spec(26) =~= seq!['7'],
        keycode_name_spec(27) =~= seq!['-'],
        keycode_name_spec(28) =~= seq!['8'],
        keycode_name_spec(29) =~= seq!['0'],
        keycode_name_spec(30) =~= seq![']'],
        keycode_name_spec(31) =~= seq!['O'],
        keycode_name_spec(32) =~= seq!['U'],
        keycode_name_spec(33) =~= seq!['['],
        keycode_name_spec(34) =~= seq!['I'],
        keycode_name_spec(35) =~= seq!['P'],
        keycode_name_spec(36) =~= seq!['R', 'e', 't', 'u', 'r', 'n'],
        keycode_name_spec(37) =~= seq!['L'],
        keycode_name_spec(38) =~= seq!['J'],
        keycode_name_spec(39) =~= seq!['\''],
        keycode_name_spec(40) =~= seq!['K'],
        keycode_name_spec(41) =~= seq![';'],
        keycode_name_spec(42) =~= seq!['\\'],
        keycode_name_spec(43) =~= seq![','],
        keycode_name_spec(44) =~= seq!['/'],
        keycode_name_spec(45) =~= seq!['N'],
        keycode_name_spec(46) =~= seq!['M'],
        keycode_name_spec(47) =~= seq!['.'],
        keycode_name_spec(48) =~= seq!['T', 'a', 'b'],
        keycode_name_spec(49) =~= seq!['S', 'p', 'a', 'c', 'e'],
        keycode_name_spec(50) =~= seq!['`'],
        keycode_name_spec(51) =~= seq!['D', 'e', 'l', 'e', 't', 'e'],
        keycode_name_spec(53) =~= seq!['E', 's', 'c', 'a', 'p', 'e'],
        keycode_name_spec(54) =~= seq!['R', 'i', 'g', 'h', 't', ' ', 'C', 'm', 'd'],
        keycode_name_spec(55) =~= seq!['L', 'e', 'f', 't', ' ', 'C', 'm', 'd'],
        keycode_name_spec(56) =~= seq!['L', 'e', 'f', 't', ' ', 'S', 'h', 'i', 'f', 't'],
        keycode_name_spec(57) =~= seq!['C', 'a', 'p', 's', ' ', 'L', 'o', 'c', 'k'],
        keycode_name_spec(58) =~= seq!['L', 'e', 'f', 't', ' ', 'O', 'p', 't', 'i', 'o', 'n'],
        keycode_name_spec(59) =~= seq!['L', 'e', 'f', 't', ' ', 'C', 't', 'r', 'l'],
        keycode_name_spec(60) =~= seq!['R', 'i', 'g', 'h', 't', ' ', 'S', 'h', 'i', 'f', 't'],
        keycode_name_spec(61) =~= seq!['R', 'i', 'g', 'h', 't', ' ', 'O', 'p', 't', 'i', 'o', 'n'],
        keycode_name_spec(62) =~= seq!['R', 'i', 'g', 'h', 't', ' ', 'C', 't', 'r', 'l'],
        keycode_name_spec(63) =~= seq!['F', 'n'],
        keycode_name_spec(96) =~= seq!['F', '5'],
        keycode_name_spec(97) =~= seq!['F', '6'],
        keycode_name_spec(98) =~= seq!['F', '7'],
        keycode_name_spec(99) =~= seq!['F', '3'],
        keycode_name_spec(100) =~= seq!['F', '8'],
        keycode_name_spec(101) =~= seq!['F', '9'],
        keycode_name_spec(103) =~= seq!['F', '1', '1'],
        keycode_name_spec(105) =~= seq!['F', '1', '3'],
        keycode_name_spec(107) =~= seq!['F', '1', '4'],
        keycode_name_spec(109) =~= seq!['F', '1', '0'],
        keycode_name_spec(111) =~= seq!['F', '1', '2'],
        keycode_name_spec(113) =~= seq!['F', '1', '5'],
        keycode_name_spec(118) =~= seq!['F', '4'],
        keycode_name_spec(120) =~= seq!['F', '2'],
        keycode_name_spec(122) =~= seq!['F', '1'],
        keycode_name_spec(123) =~= seq!['L', 'e', 'f', 't'],
        keycode_name_spec(124) =~= seq!['R', 'i', 'g', 'h', 't'],
        keycode_name_spec(125) =~= seq!['D', 'o', 'w', 'n'],
        keycode_name_spec(126) =~= seq!['U', 'p'],
        keycode_name_spec(10) =~= seq!['U', 'n', 'k', 'n', 'o', 'w', 'n'],
        keycode_name_spec(52) =~= seq!['U', 'n', 'k', 'n', 'o', 'w', 'n'],
        keycode_name_spec(127) =~= seq!['U', 'n', 'k', 'n', 'o', 'w', 'n'],
{
    reveal_strlit("Unknown");
    reveal_strlit("'");
    reveal_strlit(",");
    reveal_strlit("-");
    reveal_strlit(".");
    reveal_strlit("/");
    reveal_strlit("0");
    reveal_strlit("1");
    reveal_strlit("2");
    reveal_strlit("3");
    reveal_strlit("4");
    reveal_strlit("5");
    reveal_strlit("6");
    reveal_strlit("7");
    reveal_strlit("8");
    reveal_strlit("9");
    reveal_strlit(";");
    reveal_strlit("=");
    reveal_strlit("A");
    reveal_strlit("B");
    reveal_strlit("C");
    reveal_strlit("Caps Lock");
    reveal_strlit("D");
    reveal_strlit("Delete");
    reveal_strlit("Down");
    reveal_strlit("E");
    reveal_strlit("Escape");
    reveal_strlit("F");
    reveal_strlit("F1");
    reveal_strlit("F10");
    reveal_strlit("F11");
    reveal_strlit("F12");
    reveal_strlit("F13");
    reveal_strlit("F14");
    reveal_strlit("F15");
    reveal_strlit("F2");
    reveal_strlit("F3");
    reveal_strlit("F4");
    reveal_strlit("F5");
    reveal_strlit("F6");
    reveal_strlit("F7");
    reveal_strlit("F8");
    reveal_strlit("F9");
    reveal_strlit("Fn");
    reveal_strlit("G");
    reveal_strlit("H");
    reveal_strlit("I");
    reveal_strlit("J");
    reveal_strlit("K");
    reveal_strlit("L");
    reveal_strlit("Left");
    reveal_strlit("Left Cmd");
    reveal_strlit("Left Ctrl");
    reveal_strlit("Left Option");
    reveal_strlit("Left Shift");
    reveal_strlit("M");
    reveal_strlit("N");
    reveal_strlit("O");
    reveal_strlit("P");
    reveal_strlit("Q");
    reveal_strlit("R");
    reveal_strlit("Return");
    reveal_strlit("Right");
    reveal_strlit("Right Cmd");
    reveal_strlit("Right Ctrl");
    reveal_strlit("Right Option");
    reveal_strlit("Right Shift");
    reveal_strlit("S");
    reveal_strlit("Space");
    reveal_strlit("T");
    reveal_strlit("Tab");
    reveal_strlit("U");
    reveal_strlit("Up");
    reveal_strlit("V");
    reveal_strlit("W");
    reveal_strlit("X");
    reveal_strlit("Y");
    reveal_strlit("Z");
    reveal_strlit("[");
    reveal_strlit("\\");
    reveal_strlit("]");
    reveal_strlit("`");
}

/// The length, first and last character of a name.
pub open spec fn name_shape(name: Seq<char>) -> (int, char, char) {
    (name.len() as int, name[0], name[name.len() - 1])
}

/// The keycode whose name has the given length, first and last character,
/// or -1 when no named key has that shape.
pub open spec fn keycode_of_shape(len: int, first: char, last: char) -> int {
    if false {
        -1
    } else if len == 1 && first == 'A' && last == 'A' {
        0
    } else if len == 1 && first == 'S' && last == 'S' {
        1
    } else if len == 1 && first == 'D' && last == 'D' {
        2
    } else if len == 1 && first == 'F' && last == 'F' {
        3
    } else if len == 1 && first == 'H' && last == 'H' {
        4
    } else if len == 1 && first == 'G' && last == 'G' {
        5
    } else if len == 1 && first == 'Z' && last == 'Z' {
        6
    } else if len == 1 && first == 'X' && last == 'X' {
        7
    } else if len == 1 && first == 'C' && last == 'C' {
        8
    } else if len == 1 && first == 'V' && last == 'V' {
        9
    } else if len == 1 && first == 'B' && last == 'B' {
        11
    } else if len == 1 && first == 'Q' && last == 'Q' {
        12
    } else if len == 1 && first == 'W' && last == 'W' {
        13
    } else if len == 1 && first == 'E' && last == 'E' {
        14
    } else if len == 1 && first == 'R' && last == 'R' {
        15
    } else if len == 1 && first == 'Y' && last == 'Y' {
        16
    } else if len == 1 && first == 'T' && last == 'T' {
        17
    } else if len == 1 && first == '1' && last == '1' {
        18
    } else if len == 1 && first == '2' && last == '2' {
        19
    } else if len == 1 && first == '3' && last == '3' {
        20
    } else if len == 1 && first == '4' && last == '4' {
        21
    } else if len == 1 && first == '6' && last == '6' {
        22
    } else if len == 1 && first == '5' && last == '5' {
        23
    } else if len == 1 && first == '=' && last == '=' {
        24
    } else if len == 1 && first == '9' && last == '9' {
        25
    } else if len == 1 && first == '7' && last == '7' {
        26
    } else if len == 1 && first == '-' && last == '-' {
        27
    } else if len == 1 && first == '8' && last == '8' {
        28
    } else if len == 1 && first == '0' && last == '0' {
        29
    } else if len == 1 && first == ']' && last == ']' {
        30
    } else if len == 1 && first == 'O' && last == 'O' {
        31
    } else if len == 1 && first == 'U' && last == 'U' {
        32
    } else if len == 1 && first == '[' && last == '[' {
        33
    } else if len == 1 && first == 'I' && last == 'I' {
        34
    } else if len == 1 && first == 'P' && last == 'P' {
        35
    } else if len == 6 && first == 'R' && last == 'n' {
        36
    } else if len == 1 && first == 'L' && last == 'L' {
        37
    } else if len == 1 && first == 'J' && last == 'J' {
        38
    } else if len == 1 && first == '\'' && last == '\'' {
        39
    } else if len == 1 && first == 'K' && last == 'K' {
        40
    } else if len == 1 && first == ';' && last == ';' {
        41
    } else if len == 1 && first == '\\' && last == '\\' {
        42
    } else if len == 1 && first == ',' && last == ',' {
        43
    } else if len == 1 && first == '/' && last == '/' {
        44
    } else if len == 1 && first == 'N' && last == 'N' {
        45
    } else if len == 1 && first == 'M' && last == 'M' {
        46
    } else if len == 1 && first == '.' && last == '.' {
        47
    } else if len == 3 && first == 'T' && last == 'b' {
        48
    } else if len == 5 && first == 'S' && last == 'e' {
        49
    } else if len == 1 && first == '`' && last == '`' {
        50
    } else if len == 6 && first == 'D' && last == 'e' {
        51
    } else if len == 6 && first == 'E' && last == 'e' {
        53
    } else if len == 9 && first == 'R' && last == 'd' {
        54
    } else if len == 8 && first == 'L' && last == 'd' {
        55
    } else if len == 10 && first == 'L' && last == 't' {
        56
    } else if len == 9 && first == 'C' && last == 'k' {
        57
    } else if len == 11 && first == 'L' && last == 'n' {
        58
    } else if len == 9 && first == 'L' && last == 'l' {
        59
    } else if len == 11 && first == 'R' && last == 't' {
        60
    } else if len == 12 && first == 'R' && last == 'n' {
        61
    } else if len == 10 && first == 'R' && last == 'l' {
        62
    } else if len == 2 && first == 'F' && last == 'n' {
        63
    } else if len == 2 && first == 'F' && last == '5' {
        96
    } else if len == 2 && first == 'F' && last == '6' {
        97
    } else if len == 2 && first == 'F' && last == '7' {
        98
    } else if len == 2 && first == 'F' && last == '3' {
        99
    } else if len == 2 && first == 'F' && last == '8' {
        100
    } else if len == 2 && first == 'F' && last == '9' {
        101
    } else if len == 3 && first == 'F' && last == '1' {
        103
    } else if len == 3 && first == 'F' && last == '3' {
        105
    } else if len == 3 && first == 'F' && last == '4' {
        107
    } else if len == 3 && first == 'F' && last == '0' {
        109
    } else if len == 3 && first == 'F' && last == '2' {
        111
    } else if len == 3 && first == 'F' && last == '5' {
        113
    } else if len == 2 && first == 'F' && last == '4' {
        118
    } else if len == 2 && first == 'F' && last == '2' {
        120
    } else if len == 2 && first == 'F' && last == '1' {
        122
    } else if len == 4 && first == 'L' && last == 't' {
        123
    } else if len == 5 && first == 'R' && last == 't' {
        124
    } else if len == 4 && first == 'D' && last == 'n' {
        125
    } else if len == 2 && first == 'U' && last == 'p' {
        126
    } else {
        -1
    }
}

/// A named key is found again from the shape of its name.
proof fn lemma_shape_finds_key(keycode: u16)
    ensures
        keycode_name_spec(keycode) == "Unknown"@ || ({
            let s = name_shape(keycode_name_spec(keycode));
            keycode_of_shape(s.0, s.1, s.2) == keycode
        }),
{
    reveal_strlit("Unknown");
    reveal_strlit("'");
    reveal_strlit(",");
    reveal_strlit("-");
    reveal_strlit(".");
    reveal_strlit("/");
    reveal_strlit("0");
    reveal_strlit("1");
    reveal_strlit("2");
    reveal_strlit("3");
    reveal_strlit("4");
    reveal_strlit("5");
    reveal_strlit("6");
    reveal_strlit("7");
    reveal_strlit("8");
    reveal_strlit("9");
    reveal_strlit(";");
    reveal_strlit("=");
    reveal_strlit("A");
    reveal_strlit("B");
    reveal_strlit("C");
    reveal_strlit("Caps Lock");
    reveal_strlit("D");
    reveal_strlit("Delete");
    reveal_strlit("Down");
    reveal_strlit("E");
    reveal_strlit("Escape");
    reveal_strlit("F");
    reveal_strlit("F1");
    reveal_strlit("F10");
    reveal_strlit("F11");
    reveal_strlit("F12");
    reveal_strlit("F13");
    reveal_strlit("F14");
    reveal_strlit("F15");
    reveal_strlit("F2");
    reveal_strlit("F3");
    reveal_strlit("F4");
    reveal_strlit("F5");
    reveal_strlit("F6");
    reveal_strlit("F7");
    reveal_strlit("F8");
    reveal_strlit("F9");
    reveal_strlit("Fn");
    reveal_strlit("G");
    reveal_strlit("H");
    reveal_strlit("I");
    reveal_strlit("J");
    reveal_strlit("K");
    reveal_strlit("L");
    reveal_strlit("Left");
    reveal_strlit("Left Cmd");
    reveal_strlit("Left Ctrl");
    reveal_strlit("Left Option");
    reveal_strlit("Left Shift");
    reveal_strlit("M");
    reveal_strlit("N");
    reveal_strlit("O");
    reveal_strlit("P");
    reveal_strlit("Q");
    reveal_strlit("R");
    reveal_strlit("Return");
    reveal_strlit("Right");
    reveal_strlit("Right Cmd");
    reveal_strlit("Right Ctrl");
    reveal_strlit("Right Option");
    reveal_strlit("Right Shift");
    reveal_strlit("S");
    reveal_strlit("Space");
    reveal_strlit("T");
    reveal_strlit("Tab");
    reveal_strlit("U");
    reveal_strlit("Up");
    reveal_strlit("V");
    reveal_strlit("W");
    reveal_strlit("X");
    reveal_strlit("Y");
    reveal_strlit("Z");
    reveal_strlit("[");
    reveal_strlit("\\");
    reveal_strlit("]");
    reveal_strlit("`");
}

/// Two different keycodes never show the same name, unless both are unknown.
pub proof fn lemma_key_names_distinct(k1: u16, k2: u16)
    requires
        k1 != k2,
        keycode_name_spec(k1) == keycode_name_spec(k2),
    ensures
        keycode_name_spec(k1) == "Unknown"@,
{
    lemma_shape_finds_key(k1);
    lemma_shape_finds_key(k2);
}


/// Modifiers are held exactly when every required bit is set in the current
/// flags.
pub proof fn lemma_modifiers_held_in_bits(current_flags: u64, required_flags: u64)
    ensures
        flags_contain(current_flags, required_flags) <==> (current_flags & required_flags)
            == required_flags,
{
}

/// Requiring two sets of modifiers together is requiring each of them.
pub proof fn lemma_modifiers_held_union(current_flags: u64, first: u64, second: u64)
    ensures
        flags_contain(current_flags, first | second) <==> ((current_flags & first) == first
            && (current_flags & second) == second),
{
    assert(((current_flags & (first | second)) == (first | second)) <==> ((current_flags & first)
        == first && (current_flags & second) == second)) by (bit_vector);
}

/// Holding more modifiers never releases a combo's requirement.
pub proof fn lemma_modifiers_held_monotone(current_flags: u64, extra: u64, required_flags: u64)
    requires
        (current_flags & required_flags) == required_flags,
    ensures
        flags_contain(current_flags | extra, required_flags),
{
    assert(((current_flags | extra) & required_flags) == required_flags) by (bit_vector)
        requires
            (current_flags & required_flags) == required_flags,
    ;
}

/// A required modifier bit that is not set means the modifiers are not held.
pub proof fn lemma_missing_modifier_not_held(current_flags: u64, required_flags: u64, bit: u64)
    requires
        required_flags & bit != 0,
        current_flags & bit == 0,
    ensures
        !flags_contain(current_flags, required_flags),
{
    assert((current_flags & required_flags) != required_flags) by (bit_vector)
        requires
            required_flags & bit != 0,
            current_flags & bit == 0,
    ;
}

/// A combo is held exactly when all of its modifier bits are set and, if it
/// has a key, the key is down.
pub proof fn lemma_combo_held_in_bits(
    keycode: Option<u16>,
    modifiers: u64,
    current_flags: u64,
    key_is_down: bool,
)
    ensures
        combo_held_spec(keycode, modifiers, current_flags, key_is_down) <==> ((current_flags
            & modifiers) == modifiers && (keycode is None || key_is_down)),
{
}

/// The display names of the five modifiers, written out by character.
pub open spec fn ctrl_label() -> Seq<char> {
    seq!['C', 't', 'r', 'l']
}

pub open spec fn option_label() -> Seq<char> {
    seq!['O', 'p', 't', 'i', 'o', 'n']
}

pub open spec fn shift_label() -> Seq<char> {
    seq!['S', 'h', 'i', 'f', 't']
}

pub open spec fn cmd_label() -> Seq<char> {
    seq!['C', 'm', 'd']
}

pub open spec fn fn_label() -> Seq<char> {
    seq!['F', 'n']
}

/// The number of the five modifier bits that are set.
pub open spec fn modifier_count(modifiers: u64) -> int {
    (if modifiers & 0x0004_0000u64 != 0 { 1int } else { 0int })
        + (if modifiers & 0x0008_0000u64 != 0 { 1int } else { 0int })
        + (if modifiers & 0x0002_0000u64 != 0 { 1int } else { 0int })
        + (if modifiers & 0x0010_0000u64 != 0 { 1int } else { 0int })
        + (if modifiers & 0x0080_0000u64 != 0 { 1int } else { 0int })
}

/// A concatenation contains what either side contains.
proof fn lemma_contains_concat(a: Seq<Seq<char>>, b: Seq<Seq<char>>, x: Seq<char>)
    ensures
        (a + b).contains(x) <==> (a.contains(x) || b.contains(x)),
{
    if (a + b).contains(x) {
        let i = choose|i: int| 0 <= i < (a + b).len() && (a + b)[i] == x;
        if i < a.len() {
            assert(a[i] == x);
        } else {
            assert(b[i - a.len()] == x);
        }
    }
    if a.contains(x) {
        let i = choose|i: int| 0 <= i < a.len() && a[i] == x;
        assert((a + b)[i] == x);
    }
    if b.contains(x) {
        let i = choose|i: int| 0 <= i < b.len() && b[i] == x;
        assert((a + b)[i + a.len()] == x);
    }
}

/// The part for one modifier: its label when its bit is set, nothing otherwise.
pub open spec fn label_part(set: bool, label: Seq<char>) -> Seq<Seq<char>> {
    if set {
        seq![label]
    } else {
        Seq::empty()
    }
}

/// A part contains a name exactly when its bit is set and the name is its label.
proof fn lemma_label_part_contains(set: bool, label: Seq<char>, x: Seq<char>)
    ensures
        label_part(set, label).contains(x) <==> (set && x == label),
{
    if set {
        assert(label_part(set, label)[0] == label);
    }
}

/// Each modifier is named exactly when its bit is set, and each set bit is
/// named once: Ctrl for bit 18, Option for 19, Shift for 17, Cmd for 20, Fn
/// for 23, in that order.
pub proof fn lemma_modifier_names_exact(modifiers: u64)
    ensures
        modifier_names(modifiers) == label_part(modifiers & 0x0004_0000u64 != 0, ctrl_label())
            + label_part(modifiers & 0x0008_0000u64 != 0, option_label()) + label_part(
            modifiers & 0x0002_0000u64 != 0,
            shift_label(),
        ) + label_part(modifiers & 0x0010_0000u64 != 0, cmd_label()) + label_part(
            modifiers & 0x0080_0000u64 != 0,
            fn_label(),
        ),
        modifier_names(modifiers).contains(ctrl_label()) <==> modifiers & 0x0004_0000u64 != 0,
        modifier_names(modifiers).contains(option_label()) <==> modifiers & 0x0008_0000u64 != 0,
        modifier_names(modifiers).contains(shift_label()) <==> modifiers & 0x0002_0000u64 != 0,
        modifier_names(modifiers).contains(cmd_label()) <==> modifiers & 0x0010_0000u64 != 0,
        modifier_names(modifiers).contains(fn_label()) <==> modifiers & 0x0080_0000u64 != 0,
        modifier_names(modifiers).len() == modifier_count(modifiers),
{
    reveal_strlit("Ctrl");
    reveal_strlit("Option");
    reveal_strlit("Shift");
    reveal_strlit("Cmd");
    reveal_strlit("Fn");
    assert("Ctrl"@ =~= ctrl_label());
    assert("Option"@ =~= option_label());
    assert("Shift"@ =~= shift_label());
    assert("Cmd"@ =~= cmd_label());
    assert("Fn"@ =~= fn_label());
    let m = modifiers;
    let p1 = label_part(m & 0x0004_0000u64 != 0, ctrl_label());
    let p2 = label_part(m & 0x0008_0000u64 != 0, option_label());
    let p3 = label_part(m & 0x0002_0000u64 != 0, shift_label());
    let p4 = label_part(m & 0x0010_0000u64 != 0, cmd_label());
    let p5 = label_part(m & 0x0080_0000u64 != 0, fn_label());
    assert(modifier_names(m) =~= p1 + p2 + p3 + p4 + p5);
    let labels = seq![ctrl_label(), option_label(), shift_label(), cmd_label(), fn_label()];
    assert forall|j: int| 0 <= j < 5 implies modifier_names(m).contains(#[trigger] labels[j])
        == (label_part(m & 0x0004_0000u64 != 0, ctrl_label()).contains(labels[j])
        || p2.contains(labels[j]) || p3.contains(labels[j]) || p4.contains(labels[j])
        || p5.contains(labels[j])) by {
        let x = labels[j];
        lemma_contains_concat(p1, p2, x);
        lemma_contains_concat(p1 + p2, p3, x);
        lemma_contains_concat(p1 + p2 + p3, p4, x);
        lemma_contains_concat(p1 + p2 + p3 + p4, p5, x);
        lemma_label_part_contains(m & 0x0004_0000u64 != 0, ctrl_label(), x);
        lemma_label_part_contains(m & 0x0008_0000u64 != 0, option_label(), x);
        lemma_label_part_contains(m & 0x0002_0000u64 != 0, shift_label(), x);
        lemma_label_part_contains(m & 0x0010_0000u64 != 0, cmd_label(), x);
        lemma_label_part_contains(m & 0x0080_0000u64 != 0, fn_label(), x);
    }
    assert(labels[0] == ctrl_label());
    assert(labels[1] == option_label());
    assert(labels[2] == shift_label());
    assert(labels[3] == cmd_label());
    assert(labels[4] == fn_label());
    let x = ctrl_label();
    lemma_label_part_contains(m & 0x0004_0000u64 != 0, ctrl_label(), x);
    lemma_label_part_contains(m & 0x0008_0000u64 != 0, option_label(), x);
    lemma_label_part_contains(m & 0x0002_0000u64 != 0, shift_label(), x);
    lemma_label_part_contains(m & 0x0010_0000u64 != 0, cmd_label(), x);
    lemma_label_part_contains(m & 0x0080_0000u64 != 0, fn_label(), x);
    let x = option_label();
    lemma_label_part_contains(m & 0x0004_0000u64 != 0, ctrl_label(), x);
    lemma_label_part_contains(m & 0x0008_0000u64 != 0, option_label(), x);
    lemma_label_part_contains(m & 0x0002_0000u64 != 0, shift_label(), x);
    lemma_label_part_contains(m & 0x0010_0000u64 != 0, cmd_label(), x);
    lemma_label_part_contains(m & 0x0080_0000u64 != 0, fn_label(), x);
    let x = shift_label();
    lemma_label_part_contains(m & 0x0004_0000u64 != 0, ctrl_label(), x);
    lemma_label_part_contains(m & 0x0008_0000u64 != 0, option_label(), x);
    lemma_label_part_contains(m & 0x0002_0000u64 != 0, shift_label(), x);
    lemma_label_part_contains(m & 0x0010_0000u64 != 0, cmd_label(), x);
    lemma_label_part_contains(m & 0x0080_0000u64 != 0, fn_label(), x);
    let x = cmd_label();
    lemma_label_part_contains(m & 0x0004_0000u64 != 0, ctrl_label(), x);
    lemma_label_part_contains(m & 0x0008_0000u64 != 0, option_label(), x);
    lemma_label_part_contains(m & 0x0002_0000u64 != 0, shift_label(), x);
    lemma_label_part_contains(m & 0x0010_0000u64 != 0, cmd_label(), x);
    lemma_label_part_contains(m & 0x0080_0000u64 != 0, fn_label(), x);
    let x = fn_label();
    lemma_label_part_contains(m & 0x0004_0000u64 != 0, ctrl_label(), x);
    lemma_label_part_contains(m & 0x0008_0000u64 != 0, option_label(), x);
    lemma_label_part_contains(m & 0x0002_0000u64 != 0, shift_label(), x);
    lemma_label_part_contains(m & 0x0010_0000u64 != 0, cmd_label(), x);
    lemma_label_part_contains(m & 0x0080_0000u64 != 0, fn_label(), x);
}


/// `part` occurs in `text` at some position.
pub open spec fn occurs_in(part: Seq<char>, text: Seq<char>) -> bool {
    exists|off: int|
        0 <= off && off + part.len() <= text.len() && #[trigger] text.subrange(off, off + part.len())
            == part
}

/// Every part occurs in the parts joined with "+".
pub proof fn lemma_join_has_parts(parts: Seq<Seq<char>>, i: int)
    requires
        0 <= i < parts.len(),
    ensures
        occurs_in(parts[i], join_with_plus(parts)),
    decreases parts.len(),
{
    let joined = join_with_plus(parts);
    if parts.len() == 1 {
        let off: int = 0;
        assert(joined.subrange(off, off + parts[i].len()) =~= parts[i]);
    } else {
        let init = parts.drop_last();
        let head = join_with_plus(init);
        assert(joined == head + seq!['+'] + parts.last());
        if i == parts.len() - 1 {
            let off: int = (head.len() + 1) as int;
            assert(joined.subrange(off, off + parts[i].len()) =~= parts[i]);
        } else {
            lemma_join_has_parts(init, i);
            assert(init[i] == parts[i]);
            let off = choose|off: int|
                0 <= off && off + parts[i].len() <= head.len() && #[trigger] head.subrange(
                    off,
                    off + parts[i].len(),
                ) == parts[i];
            assert(joined.subrange(off, off + parts[i].len()) =~= head.subrange(
                off,
                off + parts[i].len(),
            ));
        }
    }
}

/// The parts joined with "+" end with the last part.
pub proof fn lemma_join_ends_with_last(parts: Seq<Seq<char>>)
    requires
        parts.len() > 0,
    ensures
        join_with_plus(parts).len() >= parts.last().len(),
        join_with_plus(parts).subrange(
            join_with_plus(parts).len() - parts.last().len(),
            join_with_plus(parts).len() as int,
        ) =~= parts.last(),
{
}

/// Every modifier whose bit is set is shown in the display name of a combo.
pub proof fn lemma_display_shows_modifiers(keycode: Option<u16>, modifiers: u64)
    ensures
        modifiers & 0x0004_0000u64 != 0 ==> occurs_in(ctrl_label(), combo_display_spec(keycode, modifiers)),
        modifiers & 0x0008_0000u64 != 0 ==> occurs_in(option_label(), combo_display_spec(keycode, modifiers)),
        modifiers & 0x0002_0000u64 != 0 ==> occurs_in(shift_label(), combo_display_spec(keycode, modifiers)),
        modifiers & 0x0010_0000u64 != 0 ==> occurs_in(cmd_label(), combo_display_spec(keycode, modifiers)),
        modifiers & 0x0080_0000u64 != 0 ==> occurs_in(fn_label(), combo_display_spec(keycode, modifiers)),
{
    lemma_modifier_names_exact(modifiers);
    let names = modifier_names(modifiers);
    let parts = combo_parts(keycode, modifiers);
    assert forall|x: Seq<char>| names.contains(x) implies occurs_in(x, combo_display_spec(keycode, modifiers)) by {
        let i = choose|i: int| 0 <= i < names.len() && names[i] == x;
        assert(parts[i] == names[i]);
        lemma_join_has_parts(parts, i);
    }
}

/// The display name of a combo with a key ends with the key's name.
pub proof fn lemma_display_ends_with_key(keycode: u16, modifiers: u64)
    ensures
        ({
            let text = combo_display_spec(Some(keycode), modifiers);
            let name = keycode_name_spec(keycode);
            text.len() >= name.len() && text.subrange(text.len() - name.len(), text.len() as int)
                =~= name
        }),
{
    let parts = combo_parts(Some(keycode), modifiers);
    assert(parts.last() == keycode_name_spec(keycode));
    lemma_join_ends_with_last(parts);
}


/// Which keys set which flag: the Shift keys (56, 60) bit 17, the Control
/// keys (59, 62) bit 18, the Option keys (58, 61) bit 19, the Command keys
/// (54, 55) bit 20 and the Fn key (63) bit 23; no other key sets one.
pub proof fn lemma_modifier_flag_table(keycode: u16)
    ensures
        (keycode == 56 || keycode == 60) <==> modifier_flag_spec(keycode) == Some(0x0002_0000u64),
        (keycode == 59 || keycode == 62) <==> modifier_flag_spec(keycode) == Some(0x0004_0000u64),
        (keycode == 58 || keycode == 61) <==> modifier_flag_spec(keycode) == Some(0x0008_0000u64),
        (keycode == 54 || keycode == 55) <==> modifier_flag_spec(keycode) == Some(0x0010_0000u64),
        keycode == 63 <==> modifier_flag_spec(keycode) == Some(0x0080_0000u64),
        modifier_flag_spec(keycode) is None <==> (keycode < 54 || keycode > 63 || keycode == 57),
{
}

/// A key that sets a flag is named after the modifier it sets: its name ends
/// with the single name that the flag shows in a combo.
pub proof fn lemma_modifier_key_named_after_flag(keycode: u16)
    requires
        modifier_flag_spec(keycode) is Some,
    ensures
        ({
            let names = modifier_names(modifier_flag_spec(keycode)->0);
            let name = keycode_name_spec(keycode);
            names.len() == 1 && name.len() >= names[0].len() && name.subrange(
                name.len() - names[0].len(),
                name.len() as int,
            ) =~= names[0]
        }),
{
    let f = modifier_flag_spec(keycode)->0;
    lemma_modifier_names_exact(f);
    assert(0x0002_0000u64 & 0x0004_0000u64 == 0 && 0x0002_0000u64 & 0x0008_0000u64 == 0
        && 0x0002_0000u64 & 0x0002_0000u64 != 0 && 0x0002_0000u64 & 0x0010_0000u64 == 0
        && 0x0002_0000u64 & 0x0080_0000u64 == 0) by (bit_vector);
    assert(0x0004_0000u64 & 0x0004_0000u64 != 0 && 0x0004_0000u64 & 0x0008_0000u64 == 0
        && 0x0004_0000u64 & 0x0002_0000u64 == 0 && 0x0004_0000u64 & 0x0010_0000u64 == 0
        && 0x0004_0000u64 & 0x0080_0000u64 == 0) by (bit_vector);
    assert(0x0008_0000u64 & 0x0004_0000u64 == 0 && 0x0008_0000u64 & 0x0008_0000u64 != 0
        && 0x0008_0000u64 & 0x0002_0000u64 == 0 && 0x0008_0000u64 & 0x0010_0000u64 == 0
        && 0x0008_0000u64 & 0x0080_0000u64 == 0) by (bit_vector);
    assert(0x0010_0000u64 & 0x0004_0000u64 == 0 && 0x0010_0000u64 & 0x0008_0000u64 == 0
        && 0x0010_0000u64 & 0x0002_0000u64 == 0 && 0x0010_0000u64 & 0x0010_0000u64 != 0
        && 0x0010_0000u64 & 0x0080_0000u64 == 0) by (bit_vector);
    assert(0x0080_0000u64 & 0x0004_0000u64 == 0 && 0x0080_0000u64 & 0x0008_0000u64 == 0
        && 0x0080_0000u64 & 0x0002_0000u64 == 0 && 0x0080_0000u64 & 0x0010_0000u64 == 0
        && 0x0080_0000u64 & 0x0080_0000u64 != 0) by (bit_vector);
    lemma_keycode_labels();
    let names = modifier_names(f);
    let name = keycode_name_spec(keycode);
    assert(names.len() == 1);
    assert(names.contains(names[0]));
    assert(name.subrange(name.len() - names[0].len(), name.len() as int) =~= names[0]);
}


/// The keycodes that have a name of their own.
pub open spec fn is_named_keycode(keycode: u16) -> bool {
    keycode == 0 || keycode == 1 || keycode == 2 || keycode == 3 || keycode == 4 || keycode == 5 || keycode == 6 || keycode == 7 || keycode == 8 || keycode == 9 || keycode == 11 || keycode == 12 || keycode == 13 || keycode == 14 || keycode == 15 || keycode == 16 || keycode == 17 || keycode == 18 || keycode == 19 || keycode == 20 || keycode == 21 || keycode == 22 || keycode == 23 || keycode == 24 || keycode == 25 || keycode == 26 || keycode == 27 || keycode == 28 || keycode == 29 || keycode == 30 || keycode == 31 || keycode == 32 || keycode == 33 || keycode == 34 || keycode == 35 || keycode == 36 || keycode == 37 || keycode == 38 || keycode == 39 || keycode == 40 || keycode == 41 || keycode == 42 || keycode == 43 || keycode == 44 || keycode == 45 || keycode == 46 || keycode == 47 || keycode == 48 || keycode == 49 || keycode == 50 || keycode == 51 || keycode == 53 || keycode == 54 || keycode == 55 || keycode == 56 || keycode == 57 || keycode == 58 || keycode == 59 || keycode == 60 || keycode == 61 || keycode == 62 || keycode == 63 || keycode == 96 || keycode == 97 || keycode == 98 || keycode == 99 || keycode == 100 || keycode == 101 || keycode == 103 || keycode == 105 || keycode == 107 || keycode == 109 || keycode == 111 || keycode == 113 || keycode == 118 || keycode == 120 || keycode == 122 || keycode == 123 || keycode == 124 || keycode == 125 || keycode == 126
}

/// Every keycode without a name of its own is shown as "Unknown".
pub proof fn lemma_unnamed_keys_unknown(keycode: u16)
    requires
        !is_named_keycode(keycode),
    ensures
        keycode_name_spec(keycode) =~= seq!['U', 'n', 'k', 'n', 'o', 'w', 'n'],
{
    reveal_strlit("Unknown");
}

/// The modifier keycodes are 54 through 63: exactly the keys that set a
/// modifier flag, and Caps Lock.
pub proof fn lemma_modifier_keycodes(keycode: u16)
    ensures
        is_modifier_keycode_spec(keycode) <==> (54 <= keycode && keycode <= 63),
        is_modifier_keycode_spec(keycode) <==> (modifier_flag_spec(keycode) is Some
            || keycode_name_spec(keycode) =~= seq!['C', 'a', 'p', 's', ' ', 'L', 'o', 'c', 'k']),
{
    lemma_keycode_labels();
    if keycode_name_spec(keycode) =~= seq!['C', 'a', 'p', 's', ' ', 'L', 'o', 'c', 'k'] {
        if keycode != 57 {
            lemma_key_names_distinct(keycode, 57);
        }
    }
}

} // verus!
