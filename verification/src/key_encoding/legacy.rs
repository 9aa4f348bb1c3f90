//! Legacy xterm-style key encoding and `APP_KEYPAD` numpad sequences.
//!
//! Produces VT/xterm escape sequences for named keys (arrows, function keys),
//! C0 control codes for Ctrl+letter, and ESC-prefixed bytes for Alt+key. This
//! is the baseline encoding used when the Kitty keyboard protocol is not active.

use vstd::prelude::*;
use vstd::string::StringSliceAdditionalSpecFns;
use vstd::string::StrSliceExecFns;
use vstd::utf8::encode_utf8;

use super::{decimal, push_decimal, text_bytes, text_to_bytes, Key, Modifiers, NamedKey, TermMode};

verus! {

/// Named key with a letter terminator (SS3 / CSI variant).
///
/// With modifiers, all letter keys use CSI format: `ESC [ 1 ; {mod} {term}`.
/// Without modifiers, the SS3 behavior depends on the key type:
/// - F1-F4: always SS3 (`ESC O P/Q/R/S`), matching xterm.
/// - Arrows, Home, End: SS3 only in application cursor mode (DECCKM).
#[derive(Debug, Clone, Copy, PartialEq, Eq, Structural)]
pub struct LetterKey {
    /// Terminator byte (e.g. `65` for Up).
    pub term: u8,
    /// Whether SS3 requires application cursor mode.
    pub needs_app_cursor: bool,
}

/// Named key with a tilde terminator (`ESC [ {num} ~`).
#[derive(Debug, Clone, Copy, PartialEq, Eq, Structural)]
pub struct TildeKey {
    /// Numeric parameter before the tilde.
    pub num: u8,
}

/// Letter-terminated named keys: arrows, Home, End (SS3 only in DECCKM)
/// and F1-F4 (always SS3 when unmodified).
pub open spec fn spec_letter_key(key: NamedKey) -> Option<LetterKey> {
    match key {
        NamedKey::ArrowUp => Some(LetterKey { term: 65u8, needs_app_cursor: true }),
        NamedKey::ArrowDown => Some(LetterKey { term: 66u8, needs_app_cursor: true }),
        NamedKey::ArrowRight => Some(LetterKey { term: 67u8, needs_app_cursor: true }),
        NamedKey::ArrowLeft => Some(LetterKey { term: 68u8, needs_app_cursor: true }),
        NamedKey::Home => Some(LetterKey { term: 72u8, needs_app_cursor: true }),
        NamedKey::End => Some(LetterKey { term: 70u8, needs_app_cursor: true }),
        NamedKey::F1 => Some(LetterKey { term: 80u8, needs_app_cursor: false }),
        NamedKey::F2 => Some(LetterKey { term: 81u8, needs_app_cursor: false }),
        NamedKey::F3 => Some(LetterKey { term: 82u8, needs_app_cursor: false }),
        NamedKey::F4 => Some(LetterKey { term: 83u8, needs_app_cursor: false }),
        _ => None,
    }
}

/// Look up a letter-terminated named key.
pub fn letter_key(key: NamedKey) -> (r: Option<LetterKey>)
    ensures
        r == spec_letter_key(key),
{
    match key {
        NamedKey::ArrowUp => Some(LetterKey { term: 65, needs_app_cursor: true }),
        NamedKey::ArrowDown => Some(LetterKey { term: 66, needs_app_cursor: true }),
        NamedKey::ArrowRight => Some(LetterKey { term: 67, needs_app_cursor: true }),
        NamedKey::ArrowLeft => Some(LetterKey { term: 68, needs_app_cursor: true }),
        NamedKey::Home => Some(LetterKey { term: 72, needs_app_cursor: true }),
        NamedKey::End => Some(LetterKey { term: 70, needs_app_cursor: true }),
        NamedKey::F1 => Some(LetterKey { term: 80, needs_app_cursor: false }),
        NamedKey::F2 => Some(LetterKey { term: 81, needs_app_cursor: false }),
        NamedKey::F3 => Some(LetterKey { term: 82, needs_app_cursor: false }),
        NamedKey::F4 => Some(LetterKey { term: 83, needs_app_cursor: false }),
        _ => None,
    }
}

/// Tilde-terminated named keys: Insert, Delete, PgUp, PgDn, F5-F12.
pub open spec fn spec_tilde_key(key: NamedKey) -> Option<TildeKey> {
    match key {
        NamedKey::Insert => Some(TildeKey { num: 2u8 }),
        NamedKey::Delete => Some(TildeKey { num: 3u8 }),
        NamedKey::PageUp => Some(TildeKey { num: 5u8 }),
        NamedKey::PageDown => Some(TildeKey { num: 6u8 }),
        NamedKey::F5 => Some(TildeKey { num: 15u8 }),
        NamedKey::F6 => Some(TildeKey { num: 17u8 }),
        NamedKey::F7 => Some(TildeKey { num: 18u8 }),
        NamedKey::F8 => Some(TildeKey { num: 19u8 }),
        NamedKey::F9 => Some(TildeKey { num: 20u8 }),
        NamedKey::F10 => Some(TildeKey { num: 21u8 }),
        NamedKey::F11 => Some(TildeKey { num: 23u8 }),
        NamedKey::F12 => Some(TildeKey { num: 24u8 }),
        _ => None,
    }
}

/// Look up a tilde-terminated named key.
pub fn tilde_key(key: NamedKey) -> (r: Option<TildeKey>)
    ensures
        r == spec_tilde_key(key),
{
    match key {
        NamedKey::Insert => Some(TildeKey { num: 2 }),
        NamedKey::Delete => Some(TildeKey { num: 3 }),
        NamedKey::PageUp => Some(TildeKey { num: 5 }),
        NamedKey::PageDown => Some(TildeKey { num: 6 }),
        NamedKey::F5 => Some(TildeKey { num: 15 }),
        NamedKey::F6 => Some(TildeKey { num: 17 }),
        NamedKey::F7 => Some(TildeKey { num: 18 }),
        NamedKey::F8 => Some(TildeKey { num: 19 }),
        NamedKey::F9 => Some(TildeKey { num: 20 }),
        NamedKey::F10 => Some(TildeKey { num: 21 }),
        NamedKey::F11 => Some(TildeKey { num: 23 }),
        NamedKey::F12 => Some(TildeKey { num: 24 }),
        _ => None,
    }
}

/// ESC followed by `rest` when `alt` holds, else `rest`.
pub open spec fn alt_prefixed(alt: bool, rest: Seq<u8>) -> Seq<u8> {
    if alt {
        seq![27u8] + rest
    } else {
        rest
    }
}

/// Space with modifiers: Ctrl gives NUL, Alt adds an ESC prefix.
pub open spec fn spec_encode_space(mods: Modifiers) -> Seq<u8> {
    if mods.has(4) {
        alt_prefixed(mods.has(2), seq![0u8])
    } else {
        alt_prefixed(mods.has(2), seq![32u8])
    }
}

/// Encode Space with modifier combinations.
pub fn encode_space(mods: Modifiers) -> (v: Vec<u8>)
    ensures
        v@ == spec_encode_space(mods),
{
    if mods.contains(Modifiers::control()) {
        let mut v = Vec::with_capacity(2);
        if mods.contains(Modifiers::alt()) {
            v.push(0x1b);
        }
        v.push(0x00);
        proof {
            assert(v@ =~= spec_encode_space(mods));
        }
        v
    } else if mods.contains(Modifiers::alt()) {
        let v = vec![0x1b, 32];
        proof {
            assert(v@ =~= spec_encode_space(mods));
        }
        v
    } else {
        let v = vec![32];
        proof {
            assert(v@ =~= spec_encode_space(mods));
        }
        v
    }
}

/// Bytes for the simple named keys (Enter, Backspace, Tab, Escape, Space);
/// empty for every other named key.
pub open spec fn spec_encode_simple_named(named: NamedKey, mods: Modifiers, mode: TermMode) -> Seq<u8> {
    match named {
        NamedKey::Enter => alt_prefixed(
            mods.has(2),
            if mode.has(4) {
                seq![13u8, 10u8]
            } else {
                seq![13u8]
            },
        ),
        NamedKey::Backspace => alt_prefixed(
            mods.has(2),
            if mods.has(4) {
                seq![8u8]
            } else {
                seq![127u8]
            },
        ),
        NamedKey::Tab => if mods.has(1) {
            seq![27u8, 91u8, 90u8]
        } else {
            seq![9u8]
        },
        NamedKey::Escape => seq![27u8],
        NamedKey::Space => spec_encode_space(mods),
        _ => Seq::empty(),
    }
}

/// Encode simple named keys (Enter, Backspace, Tab, Escape, Space).
pub fn encode_simple_named(named: NamedKey, mods: Modifiers, mode: TermMode) -> (v: Vec<u8>)
    ensures
        v@ == spec_encode_simple_named(named, mods, mode),
{
    match named {
        NamedKey::Enter => {
            let mut v: Vec<u8> = Vec::new();
            if mods.contains(Modifiers::alt()) {
                v.push(0x1b);
            }
            v.push(13);
            if mode.contains(TermMode::line_feed_new_line()) {
                v.push(10);
            }
            proof {
                assert(v@ =~= spec_encode_simple_named(named, mods, mode));
            }
            v
        },
        NamedKey::Backspace => {
            let byte: u8 = if mods.contains(Modifiers::control()) {
                0x08
            } else {
                0x7f
            };
            let v = if mods.contains(Modifiers::alt()) {
                vec![0x1b, byte]
            } else {
                vec![byte]
            };
            proof {
                assert(v@ =~= spec_encode_simple_named(named, mods, mode));
            }
            v
        },
        NamedKey::Tab => {
            let v = if mods.contains(Modifiers::shift()) {
                vec![0x1b, 91, 90]
            } else {
                vec![9]
            };
            proof {
                assert(v@ =~= spec_encode_simple_named(named, mods, mode));
            }
            v
        },
        NamedKey::Escape => {
            let v = vec![0x1b];
            proof {
                assert(v@ =~= spec_encode_simple_named(named, mods, mode));
            }
            v
        },
        NamedKey::Space => encode_space(mods),
        _ => Vec::new(),
    }
}

/// The C0 control byte for Ctrl plus a one-byte key text: letters (either
/// case) give 0x01-0x1A; `[`/`3` ESC, `\`/`4` FS, `]`/`5` GS, `^`/`6` RS,
/// `_`/`7` US, `` ` ``/`2` NUL and `8` DEL.
pub open spec fn spec_ctrl_byte(b: u8) -> Option<u8> {
    if 97 <= b <= 122 {
        Some((b - 96) as u8)
    } else if 65 <= b <= 90 {
        Some((b - 64) as u8)
    } else if b == 91 || b == 51 {
        Some(0x1bu8)
    } else if b == 92 || b == 52 {
        Some(0x1cu8)
    } else if b == 93 || b == 53 {
        Some(0x1du8)
    } else if b == 94 || b == 54 {
        Some(0x1eu8)
    } else if b == 95 || b == 55 {
        Some(0x1fu8)
    } else if b == 96 || b == 50 {
        Some(0u8)
    } else if b == 56 {
        Some(0x7fu8)
    } else {
        None
    }
}

/// Control byte of a key whose text is exactly one byte long.
pub open spec fn spec_ctrl_key_byte(bytes: Seq<u8>) -> Option<u8> {
    if bytes.len() == 1 {
        spec_ctrl_byte(bytes[0])
    } else {
        None
    }
}

/// Map a Ctrl+key combination to its C0 control byte.
///
/// Handles a-z (case-insensitive), bracket/punctuation keys (`[`, `\\`, `]`,
/// `^`, `_`, `` ` ``), and the digit shortcuts 2-8 (xterm-compatible).
pub fn ctrl_key_byte(s: &str) -> (r: Option<u8>)
    ensures
        r == spec_ctrl_key_byte(s.spec_bytes()),
{
    let bytes = s.as_bytes();
    if bytes.len() != 1 {
        return None;
    }
    let b = bytes[0];
    if 97 <= b && b <= 122 {
        Some(b - 97 + 1)
    } else if 65 <= b && b <= 90 {
        Some(b - 65 + 1)
    } else if b == 91 || b == 51 {
        Some(0x1b)
    } else if b == 92 || b == 52 {
        Some(0x1c)
    } else if b == 93 || b == 53 {
        Some(0x1d)
    } else if b == 94 || b == 54 {
        Some(0x1e)
    } else if b == 95 || b == 55 {
        Some(0x1f)
    } else if b == 96 || b == 50 {
        Some(0x00)
    } else if b == 56 {
        Some(0x7f)
    } else {
        None
    }
}

/// A character key: Ctrl+key gives its C0 byte (ESC-prefixed with Alt);
/// Alt without Ctrl prefixes the text with ESC; otherwise the text as-is.
pub open spec fn spec_encode_character(s: Seq<u8>, mods: Modifiers, text: Option<&str>) -> Seq<u8> {
    if mods.has(4) && spec_ctrl_key_byte(s) is Some {
        alt_prefixed(mods.has(2), seq![spec_ctrl_key_byte(s)->0])
    } else if mods.has(2) && !mods.has(4) && text is Some {
        seq![27u8] + text_bytes(text)
    } else {
        text_bytes(text)
    }
}

/// Encode a character key (Ctrl+letter → C0, Alt → ESC prefix, or plain text).
pub fn encode_character(s: &str, mods: Modifiers, text: Option<&str>) -> (v: Vec<u8>)
    ensures
        v@ == spec_encode_character(s.spec_bytes(), mods, text),
{
    if mods.contains(Modifiers::control()) {
        if let Some(c0) = ctrl_key_byte(s) {
            let mut v = Vec::with_capacity(2);
            if mods.contains(Modifiers::alt()) {
                v.push(0x1b);
            }
            v.push(c0);
            proof {
                assert(v@ =~= spec_encode_character(s.spec_bytes(), mods, text));
            }
            return v;
        }
    }
    if mods.contains(Modifiers::alt()) && !mods.contains(Modifiers::control()) {
        if let Some(t) = text {
            let mut v: Vec<u8> = Vec::new();
            v.push(0x1b);
            let mut tb = t.as_bytes_vec();
            v.append(&mut tb);
            proof {
                assert(v@ =~= spec_encode_character(s.spec_bytes(), mods, text));
            }
            return v;
        }
    }
    text_to_bytes(text)
}

/// What the legacy encoder sends for a key.
pub open spec fn spec_encode_legacy(key: Key, mods: Modifiers, mode: TermMode, text: Option<&str>) -> Seq<u8> {
    let p = mods.spec_xterm_param();
    match key {
        Key::Named(named) => if spec_letter_key(named) is Some {
            let lk = spec_letter_key(named)->0;
            if p > 0 {
                seq![27u8, 91u8, 49u8, 59u8] + decimal(p as nat) + seq![lk.term]
            } else if !lk.needs_app_cursor || mode.has(1) {
                seq![27u8, 79u8, lk.term]
            } else {
                seq![27u8, 91u8, lk.term]
            }
        } else if spec_tilde_key(named) is Some {
            let tk = spec_tilde_key(named)->0;
            if p > 0 {
                seq![27u8, 91u8] + decimal(tk.num as nat) + seq![59u8] + decimal(p as nat) + seq![126u8]
            } else {
                seq![27u8, 91u8] + decimal(tk.num as nat) + seq![126u8]
            }
        } else {
            spec_encode_simple_named(named, mods, mode)
        },
        Key::Character(ch) => spec_encode_character(encode_utf8(ch@), mods, text),
        _ => Seq::empty(),
    }
}

/// Encode a key event using legacy xterm/VT sequences.
///
/// Handles named keys (arrows, function keys, Home/End, etc.), Ctrl+letter
/// C0 control codes, Alt+key ESC prefix, and plain text fallback.
pub fn encode_legacy(key: &Key, mods: Modifiers, mode: TermMode, text: Option<&str>) -> (v: Vec<u8>)
    ensures
        v@ == spec_encode_legacy(*key, mods, mode, text),
{
    let app_cursor = mode.contains(TermMode::app_cursor());
    let mod_param = mods.xterm_param();

    if let Key::Named(named) = key {
        if let Some(lk) = letter_key(*named) {
            let mut v: Vec<u8> = Vec::new();
            if mod_param > 0 {
                v.push(0x1b);
                v.push(91);
                v.push(49);
                v.push(59);
                push_decimal(&mut v, mod_param as u32);
                v.push(lk.term);
            } else if !lk.needs_app_cursor || app_cursor {
                v.push(0x1b);
                v.push(79);
                v.push(lk.term);
            } else {
                v.push(0x1b);
                v.push(91);
                v.push(lk.term);
            }
            proof {
                assert(v@ =~= spec_encode_legacy(*key, mods, mode, text));
            }
            return v;
        }
        if let Some(tk) = tilde_key(*named) {
            let mut v: Vec<u8> = Vec::new();
            v.push(0x1b);
            v.push(91);
            push_decimal(&mut v, tk.num as u32);
            if mod_param > 0 {
                v.push(59);
                push_decimal(&mut v, mod_param as u32);
            }
            v.push(126);
            proof {
                assert(v@ =~= spec_encode_legacy(*key, mods, mode, text));
            }
            return v;
        }
        return encode_simple_named(*named, mods, mode);
    }
    if let Key::Character(ch) = key {
        return encode_character(ch.as_str(), mods, text);
    }
    Vec::new()
}

/// The SS3 final byte of a numpad key in application keypad mode.
pub open spec fn spec_numpad_code(key: Key) -> Option<u8> {
    match key {
        Key::Character(c) => {
            let b = encode_utf8(c@);
            if b.len() != 1 {
                None
            } else if 48 <= b[0] <= 57 {
                Some((b[0] + 64) as u8)
            } else if b[0] == 43 {
                Some(107u8)
            } else if b[0] == 45 {
                Some(109u8)
            } else if b[0] == 42 {
                Some(106u8)
            } else if b[0] == 47 {
                Some(111u8)
            } else if b[0] == 46 {
                Some(110u8)
            } else {
                None
            }
        },
        Key::Named(NamedKey::Enter) => Some(77u8),
        _ => None,
    }
}

/// Encode numpad keys in `APP_KEYPAD` mode (SS3 sequences).
///
/// Produces `ESC O {code}` for numpad digits 0-9 (`p`..`y`), operators
/// (`+` k, `-` m, `*` j, `/` o), decimal (`n`) and Enter (`M`). Returns
/// `None` for non-numpad keys.
pub fn encode_numpad_app(key: &Key) -> (r: Option<Vec<u8>>)
    ensures
        match spec_numpad_code(*key) {
            Some(code) => r is Some && r->0@ == seq![27u8, 79u8, code],
            None => r is None,
        },
{
    let code: u8 = match key {
        Key::Character(c) => {
            let b = c.as_str().as_bytes();
            if b.len() != 1 {
                return None;
            }
            let x = b[0];
            if 48 <= x && x <= 57 {
                x + 64
            } else if x == 43 {
                107
            } else if x == 45 {
                109
            } else if x == 42 {
                106
            } else if x == 47 {
                111
            } else if x == 46 {
                110
            } else {
                return None;
            }
        },
        Key::Named(NamedKey::Enter) => 77,
        _ => {
            return None;
        },
    };
    let v = vec![0x1b, 79, code];
    proof {
        assert(v@ =~= seq![27u8, 79u8, code]);
    }
    Some(v)
}

} // verus!
