//! Laws of the key encoders, stated with the codes the protocols define.

use vstd::prelude::*;

use super::kitty::{spec_associated_text, spec_csi_u, spec_event_suffix, EventSuffix};
use super::legacy::spec_encode_legacy;
use vstd::utf8::{encode_utf8, is_ascii_chars, is_ascii_chars_encode_utf8};

use super::{decimal, kitty_active, spec_encode_key, Key, KeyEventType, KeyInput, KeyLocation, NamedKey};

verus! {

/// The number of a function key: 1 for F1 through 35 for F35.
pub open spec fn function_key_number(k: NamedKey) -> Option<nat> {
    match k {
        NamedKey::F1 => Some(1nat),
        NamedKey::F2 => Some(2nat),
        NamedKey::F3 => Some(3nat),
        NamedKey::F4 => Some(4nat),
        NamedKey::F5 => Some(5nat),
        NamedKey::F6 => Some(6nat),
        NamedKey::F7 => Some(7nat),
        NamedKey::F8 => Some(8nat),
        NamedKey::F9 => Some(9nat),
        NamedKey::F10 => Some(10nat),
        NamedKey::F11 => Some(11nat),
        NamedKey::F12 => Some(12nat),
        NamedKey::F13 => Some(13nat),
        NamedKey::F14 => Some(14nat),
        NamedKey::F15 => Some(15nat),
        NamedKey::F16 => Some(16nat),
        NamedKey::F17 => Some(17nat),
        NamedKey::F18 => Some(18nat),
        NamedKey::F19 => Some(19nat),
        NamedKey::F20 => Some(20nat),
        NamedKey::F21 => Some(21nat),
        NamedKey::F22 => Some(22nat),
        NamedKey::F23 => Some(23nat),
        NamedKey::F24 => Some(24nat),
        NamedKey::F25 => Some(25nat),
        NamedKey::F26 => Some(26nat),
        NamedKey::F27 => Some(27nat),
        NamedKey::F28 => Some(28nat),
        NamedKey::F29 => Some(29nat),
        NamedKey::F30 => Some(30nat),
        NamedKey::F31 => Some(31nat),
        NamedKey::F32 => Some(32nat),
        NamedKey::F33 => Some(33nat),
        NamedKey::F34 => Some(34nat),
        NamedKey::F35 => Some(35nat),
        _ => None,
    }
}

/// The Kitty CSI u sequence an event sends when its key has code `code`:
/// the code, then the event's modifiers, event type and text.
pub open spec fn kitty_sequence(input: KeyInput, code: u32) -> Seq<u8> {
    spec_csi_u(
        code,
        input.mods.spec_xterm_param(),
        spec_event_suffix(input.mode.has(16), input.event_type)->0,
        spec_associated_text(input.mode.has(128), input.event_type, input.text),
    )
}

/// Under the Kitty keyboard protocol a functional key is sent with the code
/// the protocol assigns it: Escape, Enter, Tab, Backspace and Space their
/// control or ASCII codes; Insert, Delete, Left, Right, Up, Down, PageUp,
/// PageDown, Home, End, CapsLock, ScrollLock, NumLock, PrintScreen, Pause
/// and Menu 57348 through 57363 in that order; and Fn the code 57363 + n.
/// Modifier keys alone send nothing.
pub proof fn law_kitty_functional_key_codes(input: KeyInput, k: NamedKey)
    requires
        kitty_active(input.mode),
        *input.key == Key::Named(k),
        spec_event_suffix(input.mode.has(16), input.event_type) is Some,
    ensures
        k == NamedKey::Escape ==> spec_encode_key(input) == kitty_sequence(input, 27),
        k == NamedKey::Enter ==> spec_encode_key(input) == kitty_sequence(input, 13),
        k == NamedKey::Tab ==> spec_encode_key(input) == kitty_sequence(input, 9),
        k == NamedKey::Backspace ==> spec_encode_key(input) == kitty_sequence(input, 127),
        k == NamedKey::Space ==> spec_encode_key(input) == kitty_sequence(input, 32),
        k == NamedKey::Insert ==> spec_encode_key(input) == kitty_sequence(input, 57348),
        k == NamedKey::Delete ==> spec_encode_key(input) == kitty_sequence(input, 57349),
        k == NamedKey::ArrowLeft ==> spec_encode_key(input) == kitty_sequence(input, 57350),
        k == NamedKey::ArrowRight ==> spec_encode_key(input) == kitty_sequence(input, 57351),
        k == NamedKey::ArrowUp ==> spec_encode_key(input) == kitty_sequence(input, 57352),
        k == NamedKey::ArrowDown ==> spec_encode_key(input) == kitty_sequence(input, 57353),
        k == NamedKey::PageUp ==> spec_encode_key(input) == kitty_sequence(input, 57354),
        k == NamedKey::PageDown ==> spec_encode_key(input) == kitty_sequence(input, 57355),
        k == NamedKey::Home ==> spec_encode_key(input) == kitty_sequence(input, 57356),
        k == NamedKey::End ==> spec_encode_key(input) == kitty_sequence(input, 57357),
        k == NamedKey::CapsLock ==> spec_encode_key(input) == kitty_sequence(input, 57358),
        k == NamedKey::ScrollLock ==> spec_encode_key(input) == kitty_sequence(input, 57359),
        k == NamedKey::NumLock ==> spec_encode_key(input) == kitty_sequence(input, 57360),
        k == NamedKey::PrintScreen ==> spec_encode_key(input) == kitty_sequence(input, 57361),
        k == NamedKey::Pause ==> spec_encode_key(input) == kitty_sequence(input, 57362),
        k == NamedKey::ContextMenu ==> spec_encode_key(input) == kitty_sequence(input, 57363),
        function_key_number(k) matches Some(n) ==> spec_encode_key(input) == kitty_sequence(input, (57363 + n) as u32),
        k == NamedKey::Shift || k == NamedKey::Control || k == NamedKey::Alt || k == NamedKey::Super
            ==> spec_encode_key(input) == Seq::<u8>::empty(),
{
}

/// An unmodified arrow press under Kitty disambiguation alone sends
/// `ESC [ code u`, the codes of Left, Right, Up and Down being 57350,
/// 57351, 57352 and 57353.
pub proof fn law_kitty_unmodified_arrows(input: KeyInput)
    requires
        kitty_active(input.mode),
        !input.mode.has(16),
        !input.mode.has(128),
        input.mods.bits == 0,
        input.event_type == KeyEventType::Press,
    ensures
        *input.key == Key::Named(NamedKey::ArrowLeft) ==> spec_encode_key(input) == seq![27u8, 91, 53, 55, 51, 53, 48, 117],
        *input.key == Key::Named(NamedKey::ArrowRight) ==> spec_encode_key(input) == seq![27u8, 91, 53, 55, 51, 53, 49, 117],
        *input.key == Key::Named(NamedKey::ArrowUp) ==> spec_encode_key(input) == seq![27u8, 91, 53, 55, 51, 53, 50, 117],
        *input.key == Key::Named(NamedKey::ArrowDown) ==> spec_encode_key(input) == seq![27u8, 91, 53, 55, 51, 53, 51, 117],
{
    reveal_with_fuel(decimal, 6);
    assert(decimal(57350) =~= seq![53u8, 55, 51, 53, 48]);
    assert(decimal(57351) =~= seq![53u8, 55, 51, 53, 49]);
    assert(decimal(57352) =~= seq![53u8, 55, 51, 53, 50]);
    assert(decimal(57353) =~= seq![53u8, 55, 51, 53, 51]);
    super::law_xterm_param(input.mods);
    assert(spec_event_suffix(input.mode.has(16), input.event_type) == Some(EventSuffix::Empty));
    assert(spec_associated_text(input.mode.has(128), input.event_type, input.text).len() == 0);
    if input.key is Named {
        let k = input.key->Named_0;
        law_kitty_functional_key_codes(input, k);
    }
}

/// `ESC [ num ~`, or `ESC [ num ; p ~` when a modifier parameter `p` is set.
pub open spec fn tilde_sequence(num: nat, p: u8) -> Seq<u8> {
    if p > 0 {
        seq![27u8, 91u8] + decimal(num) + seq![59u8] + decimal(p as nat) + seq![126u8]
    } else {
        seq![27u8, 91u8] + decimal(num) + seq![126u8]
    }
}

/// `ESC [ 1 ; p term` with a modifier parameter `p`; without one `ESC O
/// term` when SS3 applies, else `ESC [ term`.
pub open spec fn letter_sequence(term: u8, p: u8, ss3: bool) -> Seq<u8> {
    if p > 0 {
        seq![27u8, 91u8, 49u8, 59u8] + decimal(p as nat) + seq![term]
    } else if ss3 {
        seq![27u8, 79u8, term]
    } else {
        seq![27u8, 91u8, term]
    }
}

/// Without the Kitty protocol, named keys send the xterm sequences: Up,
/// Down, Right, Left, Home and End end in A, B, C, D, H and F (SS3 form
/// only in application cursor mode); F1-F4 end in P, Q, R, S (always SS3
/// when unmodified); Insert, Delete, PageUp and PageDown are `ESC [ 2/3/5/6
/// ~`; F5-F12 are `ESC [ 15/17/18/19/20/21/23/24 ~`.
pub proof fn law_legacy_named_key_sequences(input: KeyInput, k: NamedKey)
    requires
        !kitty_active(input.mode),
        input.event_type != KeyEventType::Release,
        !(input.location == KeyLocation::Numpad && input.mode.has(2)),
        *input.key == Key::Named(k),
    ensures
        ({
            let p = input.mods.spec_xterm_param();
            let out = spec_encode_key(input);
            &&& k == NamedKey::ArrowUp ==> out == letter_sequence(65, p, input.mode.has(1))
            &&& k == NamedKey::ArrowDown ==> out == letter_sequence(66, p, input.mode.has(1))
            &&& k == NamedKey::ArrowRight ==> out == letter_sequence(67, p, input.mode.has(1))
            &&& k == NamedKey::ArrowLeft ==> out == letter_sequence(68, p, input.mode.has(1))
            &&& k == NamedKey::Home ==> out == letter_sequence(72, p, input.mode.has(1))
            &&& k == NamedKey::End ==> out == letter_sequence(70, p, input.mode.has(1))
            &&& (function_key_number(k) matches Some(n) ==> (n <= 4 ==> out == letter_sequence((79 + n) as u8, p, true)))
            &&& k == NamedKey::Insert ==> out == tilde_sequence(2, p)
            &&& k == NamedKey::Delete ==> out == tilde_sequence(3, p)
            &&& k == NamedKey::PageUp ==> out == tilde_sequence(5, p)
            &&& k == NamedKey::PageDown ==> out == tilde_sequence(6, p)
            &&& k == NamedKey::F5 ==> out == tilde_sequence(15, p)
            &&& k == NamedKey::F6 ==> out == tilde_sequence(17, p)
            &&& k == NamedKey::F7 ==> out == tilde_sequence(18, p)
            &&& k == NamedKey::F8 ==> out == tilde_sequence(19, p)
            &&& k == NamedKey::F9 ==> out == tilde_sequence(20, p)
            &&& k == NamedKey::F10 ==> out == tilde_sequence(21, p)
            &&& k == NamedKey::F11 ==> out == tilde_sequence(23, p)
            &&& k == NamedKey::F12 ==> out == tilde_sequence(24, p)
        }),
{
    match k {
        NamedKey::ArrowUp | NamedKey::ArrowDown | NamedKey::ArrowRight | NamedKey::ArrowLeft | NamedKey::Home | NamedKey::End
        | NamedKey::F1 | NamedKey::F2 | NamedKey::F3 | NamedKey::F4 => {
            assert(spec_encode_key(input) == spec_encode_legacy(*input.key, input.mods, input.mode, input.text));
        },
        _ => {
            assert(spec_encode_key(input) == spec_encode_legacy(*input.key, input.mods, input.mode, input.text));
        },
    }
}

/// Unmodified F7, F8, F9 and F10 send `ESC [ 18 ~`, `ESC [ 19 ~`,
/// `ESC [ 20 ~` and `ESC [ 21 ~`.
pub proof fn law_legacy_unmodified_f7_to_f10(input: KeyInput)
    requires
        !kitty_active(input.mode),
        input.event_type != KeyEventType::Release,
        !(input.location == KeyLocation::Numpad && input.mode.has(2)),
        input.mods.bits == 0,
    ensures
        *input.key == Key::Named(NamedKey::F7) ==> spec_encode_key(input) == seq![27u8, 91, 49, 56, 126],
        *input.key == Key::Named(NamedKey::F8) ==> spec_encode_key(input) == seq![27u8, 91, 49, 57, 126],
        *input.key == Key::Named(NamedKey::F9) ==> spec_encode_key(input) == seq![27u8, 91, 50, 48, 126],
        *input.key == Key::Named(NamedKey::F10) ==> spec_encode_key(input) == seq![27u8, 91, 50, 49, 126],
{
    reveal_with_fuel(decimal, 3);
    assert(decimal(18) =~= seq![49u8, 56]);
    assert(decimal(19) =~= seq![49u8, 57]);
    assert(decimal(20) =~= seq![50u8, 48]);
    assert(decimal(21) =~= seq![50u8, 49]);
    super::law_xterm_param(input.mods);
    if input.key is Named {
        law_legacy_named_key_sequences(input, input.key->Named_0);
    }
}

/// With event types reported, an unmodified Left arrow sends
/// `ESC [ 57350 u` when pressed, `ESC [ 57350 ; 1 : 2 u` on auto-repeat and
/// `ESC [ 57350 ; 1 : 3 u` when released.
pub proof fn law_kitty_event_types(input: KeyInput)
    requires
        kitty_active(input.mode),
        input.mode.has(16),
        !input.mode.has(128),
        input.mods.bits == 0,
        *input.key == Key::Named(NamedKey::ArrowLeft),
    ensures
        input.event_type == KeyEventType::Press ==> spec_encode_key(input) == seq![27u8, 91, 53, 55, 51, 53, 48, 117],
        input.event_type == KeyEventType::Repeat ==> spec_encode_key(input) == seq![27u8, 91, 53, 55, 51, 53, 48, 59, 49, 58, 50, 117],
        input.event_type == KeyEventType::Release ==> spec_encode_key(input) == seq![27u8, 91, 53, 55, 51, 53, 48, 59, 49, 58, 51, 117],
{
    reveal_with_fuel(decimal, 6);
    assert(decimal(57350) =~= seq![53u8, 55, 51, 53, 48]);
    assert(decimal(1) =~= seq![49u8]);
    super::law_xterm_param(input.mods);
    assert(spec_associated_text(input.mode.has(128), input.event_type, input.text).len() == 0);
    law_kitty_functional_key_codes(input, NamedKey::ArrowLeft);
}

/// Without the Kitty protocol the keys with a fixed byte send it: Enter a
/// carriage return (CR LF in line-feed/new-line mode), Backspace DEL (BS
/// with Ctrl), Tab HT (`ESC [ Z` with Shift), Escape ESC and Space a space
/// (NUL with Ctrl); Alt without Ctrl puts ESC before Enter, Backspace and
/// Space.
pub proof fn law_legacy_fixed_keys(input: KeyInput, k: NamedKey)
    requires
        !kitty_active(input.mode),
        input.event_type != KeyEventType::Release,
        !(input.location == KeyLocation::Numpad && input.mode.has(2)),
        *input.key == Key::Named(k),
    ensures
        ({
            let out = spec_encode_key(input);
            let esc: Seq<u8> = if input.mods.has(2) { seq![27u8] } else { Seq::empty() };
            &&& k == NamedKey::Enter ==> out == esc + (if input.mode.has(4) { seq![13u8, 10] } else { seq![13u8] })
            &&& k == NamedKey::Backspace ==> out == esc + (if input.mods.has(4) { seq![8u8] } else { seq![127u8] })
            &&& k == NamedKey::Tab ==> out == (if input.mods.has(1) { seq![27u8, 91, 90] } else { seq![9u8] })
            &&& k == NamedKey::Escape ==> out == seq![27u8]
            &&& k == NamedKey::Space ==> out == esc + (if input.mods.has(4) { seq![0u8] } else { seq![32u8] })
        }),
{
    assert(spec_encode_key(input) == spec_encode_legacy(*input.key, input.mods, input.mode, input.text));
}

/// Without the Kitty protocol, Ctrl with a one-character key sends its C0
/// control byte (after ESC when Alt is also held): a letter of either case
/// its position in the alphabet (`a` and `A` 1 through `z` and `Z` 26);
/// `[` and `3` ESC, `\` and `4` FS, `]` and `5` GS, `^` and `6` RS, `_`
/// and `7` US, `` ` `` and `2` NUL, `8` DEL.
pub proof fn law_legacy_ctrl_keys(input: KeyInput, c: char)
    requires
        !kitty_active(input.mode),
        input.event_type != KeyEventType::Release,
        !(input.location == KeyLocation::Numpad && input.mode.has(2)),
        (*input.key) matches Key::Character(s) && s@ == seq![c],
        input.mods.has(4),
        (c as u32) < 128,
    ensures
        ({
            let out = spec_encode_key(input);
            let esc: Seq<u8> = if input.mods.has(2) { seq![27u8] } else { Seq::empty() };
            &&& 'a' <= c <= 'z' ==> out == esc + seq![(c as u32 - 'a' as u32 + 1) as u8]
            &&& 'A' <= c <= 'Z' ==> out == esc + seq![(c as u32 - 'A' as u32 + 1) as u8]
            &&& (c == '[' || c == '3') ==> out == esc + seq![0x1bu8]
            &&& (c == '\\' || c == '4') ==> out == esc + seq![0x1cu8]
            &&& (c == ']' || c == '5') ==> out == esc + seq![0x1du8]
            &&& (c == '^' || c == '6') ==> out == esc + seq![0x1eu8]
            &&& (c == '_' || c == '7') ==> out == esc + seq![0x1fu8]
            &&& (c == '`' || c == '2') ==> out == esc + seq![0u8]
            &&& c == '8' ==> out == esc + seq![0x7fu8]
        }),
{
    let s = input.key->Character_0;
    assert(is_ascii_chars(seq![c]));
    is_ascii_chars_encode_utf8(seq![c]);
    assert(encode_utf8(s@) =~= seq![c as u8]);
    assert(spec_encode_key(input) == spec_encode_legacy(*input.key, input.mods, input.mode, input.text));
}

/// In application keypad mode a numpad key sends `ESC O` and its keypad
/// code: digits 0-9 `p` through `y`, `+` `k`, `-` `m`, `*` `j`, `/` `o`,
/// `.` `n` and Enter `M`.
pub proof fn law_numpad_application_codes(input: KeyInput, c: char)
    requires
        !kitty_active(input.mode),
        input.event_type != KeyEventType::Release,
        input.location == KeyLocation::Numpad,
        input.mode.has(2),
    ensures
        ((*input.key) matches Key::Character(s) && s@ == seq![c]) ==> {
            let out = spec_encode_key(input);
            &&& '0' <= c <= '9' ==> out == seq![27u8, 79, (c as u32 - '0' as u32 + 'p' as u32) as u8]
            &&& c == '+' ==> out == seq![27u8, 79, 107]
            &&& c == '-' ==> out == seq![27u8, 79, 109]
            &&& c == '*' ==> out == seq![27u8, 79, 106]
            &&& c == '/' ==> out == seq![27u8, 79, 111]
            &&& c == '.' ==> out == seq![27u8, 79, 110]
        },
        *input.key == Key::Named(NamedKey::Enter) ==> spec_encode_key(input) == seq![27u8, 79, 77],
{
    if input.key is Character {
        let s = input.key->Character_0;
        if s@ == seq![c] && (c as u32) < 128 {
            assert(is_ascii_chars(seq![c]));
            is_ascii_chars_encode_utf8(seq![c]);
            assert(encode_utf8(s@) =~= seq![c as u8]);
        }
    }
}

} // verus!
