//! Config parsing and merge for keybindings.

use vstd::prelude::*;


use super::{binding_key_eq, bindings_view, is_unbind, Action, ActionOf, ActionView, BindingKey, BindingKeyView, KeyBinding, KeyBindingView};
use super::defaults::{default_bindings, spec_default_bindings};
use super::laws::{law_merged_bindings_one_per_slot, one_per_slot};
use crate::key_encoding::{Modifiers, NamedKey};
use crate::text::{
    char_lower, char_to_lowercase, chars_are, is_whitespace, str_to_chars, string_from_chars,
    unicode_whitespace,
};

verus! {

/// One user keybinding entry from the configuration file.
#[derive(Debug, Clone)]
pub struct KeybindConfig {
    pub key: String,
    pub mods: String,
    pub action: String,
}

/// Mathematical view of a [`KeybindConfig`].
pub struct KeybindConfigView {
    pub key: Seq<char>,
    pub mods: Seq<char>,
    pub action: Seq<char>,
}

impl View for KeybindConfig {
    type V = KeybindConfigView;

    open spec fn view(&self) -> KeybindConfigView {
        KeybindConfigView { key: self.key@, mods: self.mods@, action: self.action@ }
    }
}

// ── Keys ──

/// Named keys accepted in configuration files.
pub open spec fn spec_parse_named(s: Seq<char>) -> Option<NamedKey> {
    if s == "Tab"@ {
        Some(NamedKey::Tab)
    }
    else if s == "PageUp"@ {
        Some(NamedKey::PageUp)
    }
    else if s == "PageDown"@ {
        Some(NamedKey::PageDown)
    }
    else if s == "Home"@ {
        Some(NamedKey::Home)
    }
    else if s == "End"@ {
        Some(NamedKey::End)
    }
    else if s == "Insert"@ {
        Some(NamedKey::Insert)
    }
    else if s == "Delete"@ {
        Some(NamedKey::Delete)
    }
    else if s == "Escape"@ {
        Some(NamedKey::Escape)
    }
    else if s == "Enter"@ {
        Some(NamedKey::Enter)
    }
    else if s == "Backspace"@ {
        Some(NamedKey::Backspace)
    }
    else if s == "Space"@ {
        Some(NamedKey::Space)
    }
    else if s == "ArrowUp"@ {
        Some(NamedKey::ArrowUp)
    }
    else if s == "ArrowDown"@ {
        Some(NamedKey::ArrowDown)
    }
    else if s == "ArrowLeft"@ {
        Some(NamedKey::ArrowLeft)
    }
    else if s == "ArrowRight"@ {
        Some(NamedKey::ArrowRight)
    }
    else if s == "F1"@ {
        Some(NamedKey::F1)
    }
    else if s == "F2"@ {
        Some(NamedKey::F2)
    }
    else if s == "F3"@ {
        Some(NamedKey::F3)
    }
    else if s == "F4"@ {
        Some(NamedKey::F4)
    }
    else if s == "F5"@ {
        Some(NamedKey::F5)
    }
    else if s == "F6"@ {
        Some(NamedKey::F6)
    }
    else if s == "F7"@ {
        Some(NamedKey::F7)
    }
    else if s == "F8"@ {
        Some(NamedKey::F8)
    }
    else if s == "F9"@ {
        Some(NamedKey::F9)
    }
    else if s == "F10"@ {
        Some(NamedKey::F10)
    }
    else if s == "F11"@ {
        Some(NamedKey::F11)
    }
    else if s == "F12"@ {
        Some(NamedKey::F12)
    }
    else if s == "F13"@ {
        Some(NamedKey::F13)
    }
    else if s == "F14"@ {
        Some(NamedKey::F14)
    }
    else if s == "F15"@ {
        Some(NamedKey::F15)
    }
    else if s == "F16"@ {
        Some(NamedKey::F16)
    }
    else if s == "F17"@ {
        Some(NamedKey::F17)
    }
    else if s == "F18"@ {
        Some(NamedKey::F18)
    }
    else if s == "F19"@ {
        Some(NamedKey::F19)
    }
    else if s == "F20"@ {
        Some(NamedKey::F20)
    }
    else if s == "F21"@ {
        Some(NamedKey::F21)
    }
    else if s == "F22"@ {
        Some(NamedKey::F22)
    }
    else if s == "F23"@ {
        Some(NamedKey::F23)
    }
    else if s == "F24"@ {
        Some(NamedKey::F24)
    }
    else {
        None
    }
}

/// The binding key named by a configuration string: a named key, or a single
/// character mapped to its lowercase form (ASCII lowercase for an ASCII
/// character).
pub open spec fn spec_parse_key(s: Seq<char>) -> Option<BindingKeyView> {
    if spec_parse_named(s) is Some {
        Some(BindingKeyView::Named(spec_parse_named(s)->0))
    } else if s.len() == 1 {
        Some(BindingKeyView::Character(char_lower(s[0])))
    } else {
        None
    }
}

/// Look up a named key.
fn parse_named(v: &Vec<char>) -> (r: Option<NamedKey>)
    ensures
        r == spec_parse_named(v@),
{
    if chars_are(v, "Tab") {
        Some(NamedKey::Tab)
    }
    else if chars_are(v, "PageUp") {
        Some(NamedKey::PageUp)
    }
    else if chars_are(v, "PageDown") {
        Some(NamedKey::PageDown)
    }
    else if chars_are(v, "Home") {
        Some(NamedKey::Home)
    }
    else if chars_are(v, "End") {
        Some(NamedKey::End)
    }
    else if chars_are(v, "Insert") {
        Some(NamedKey::Insert)
    }
    else if chars_are(v, "Delete") {
        Some(NamedKey::Delete)
    }
    else if chars_are(v, "Escape") {
        Some(NamedKey::Escape)
    }
    else if chars_are(v, "Enter") {
        Some(NamedKey::Enter)
    }
    else if chars_are(v, "Backspace") {
        Some(NamedKey::Backspace)
    }
    else if chars_are(v, "Space") {
        Some(NamedKey::Space)
    }
    else if chars_are(v, "ArrowUp") {
        Some(NamedKey::ArrowUp)
    }
    else if chars_are(v, "ArrowDown") {
        Some(NamedKey::ArrowDown)
    }
    else if chars_are(v, "ArrowLeft") {
        Some(NamedKey::ArrowLeft)
    }
    else if chars_are(v, "ArrowRight") {
        Some(NamedKey::ArrowRight)
    }
    else if chars_are(v, "F1") {
        Some(NamedKey::F1)
    }
    else if chars_are(v, "F2") {
        Some(NamedKey::F2)
    }
    else if chars_are(v, "F3") {
        Some(NamedKey::F3)
    }
    else if chars_are(v, "F4") {
        Some(NamedKey::F4)
    }
    else if chars_are(v, "F5") {
        Some(NamedKey::F5)
    }
    else if chars_are(v, "F6") {
        Some(NamedKey::F6)
    }
    else if chars_are(v, "F7") {
        Some(NamedKey::F7)
    }
    else if chars_are(v, "F8") {
        Some(NamedKey::F8)
    }
    else if chars_are(v, "F9") {
        Some(NamedKey::F9)
    }
    else if chars_are(v, "F10") {
        Some(NamedKey::F10)
    }
    else if chars_are(v, "F11") {
        Some(NamedKey::F11)
    }
    else if chars_are(v, "F12") {
        Some(NamedKey::F12)
    }
    else if chars_are(v, "F13") {
        Some(NamedKey::F13)
    }
    else if chars_are(v, "F14") {
        Some(NamedKey::F14)
    }
    else if chars_are(v, "F15") {
        Some(NamedKey::F15)
    }
    else if chars_are(v, "F16") {
        Some(NamedKey::F16)
    }
    else if chars_are(v, "F17") {
        Some(NamedKey::F17)
    }
    else if chars_are(v, "F18") {
        Some(NamedKey::F18)
    }
    else if chars_are(v, "F19") {
        Some(NamedKey::F19)
    }
    else if chars_are(v, "F20") {
        Some(NamedKey::F20)
    }
    else if chars_are(v, "F21") {
        Some(NamedKey::F21)
    }
    else if chars_are(v, "F22") {
        Some(NamedKey::F22)
    }
    else if chars_are(v, "F23") {
        Some(NamedKey::F23)
    }
    else if chars_are(v, "F24") {
        Some(NamedKey::F24)
    }
    else {
        None
    }
}

/// Parse a key string from TOML config.
///
/// Named keys: `Tab`, `PageUp`, `PageDown`, `Home`, `End`, `Insert`,
/// `Delete`, `Escape`, `Enter`, `Backspace`, `Space`, arrow keys, F1-F24.
/// Single characters are lowercased.
pub fn parse_key(s: &str) -> (r: Option<BindingKey>)
    ensures
        match r {
            Some(k) => spec_parse_key(s@) == Some(k@),
            None => spec_parse_key(s@) is None,
        },
{
    let v = str_to_chars(s);
    if let Some(n) = parse_named(&v) {
        return Some(BindingKey::Named(n));
    }
    if v.len() == 1 {
        return Some(BindingKey::Character(char_to_lowercase(v[0])));
    }
    None
}

// ── Modifiers ──

/// The `|`-separated parts of a modifier string.
pub open spec fn split_bar(s: Seq<char>) -> Seq<Seq<char>>
    decreases s.len(),
{
    if s.len() == 0 {
        seq![Seq::<char>::empty()]
    } else {
        let r = split_bar(s.drop_last());
        if s.last() == '|' {
            r.push(Seq::<char>::empty())
        } else {
            r.update(r.len() - 1, r.last().push(s.last()))
        }
    }
}

/// `s` without leading Unicode whitespace.
pub open spec fn trim_start(s: Seq<char>) -> Seq<char>
    decreases s.len(),
{
    if s.len() > 0 && unicode_whitespace(s[0]) {
        trim_start(s.drop_first())
    } else {
        s
    }
}

/// `s` without trailing Unicode whitespace.
pub open spec fn trim_end(s: Seq<char>) -> Seq<char>
    decreases s.len(),
{
    if s.len() > 0 && unicode_whitespace(s.last()) {
        trim_end(s.drop_last())
    } else {
        s
    }
}

/// `s` without leading or trailing Unicode whitespace.
pub open spec fn trim(s: Seq<char>) -> Seq<char> {
    trim_end(trim_start(s))
}

/// The modifier bit named by one (trimmed) part: `Ctrl`/`Control`, `Shift`,
/// `Alt`, `Super`; any other text names no modifier.
pub open spec fn token_bits(t: Seq<char>) -> u8 {
    if t == "Ctrl"@ || t == "Control"@ {
        4u8
    } else if t == "Shift"@ {
        1u8
    } else if t == "Alt"@ {
        2u8
    } else if t == "Super"@ {
        8u8
    } else {
        0u8
    }
}

/// Union of the modifier bits named by the parts.
pub open spec fn or_parts(parts: Seq<Seq<char>>) -> u8
    decreases parts.len(),
{
    if parts.len() == 0 {
        0u8
    } else {
        or_parts(parts.drop_last()) | token_bits(trim(parts.last()))
    }
}

/// The modifiers named by a configuration string.
pub open spec fn spec_parse_mods(s: Seq<char>) -> Modifiers {
    Modifiers { bits: or_parts(split_bar(s)) }
}

/// A modifier string has at least one part.
pub(crate) proof fn lemma_split_bar_nonempty(s: Seq<char>)
    ensures
        split_bar(s).len() >= 1,
    decreases s.len(),
{
    if s.len() > 0 {
        lemma_split_bar_nonempty(s.drop_last());
    }
}

/// Whether `v[lo..hi]` spells exactly `lit`.
fn range_is(v: &Vec<char>, lo: usize, hi: usize, lit: &str) -> (r: bool)
    requires
        lo <= hi <= v.len(),
    ensures
        r == (v@.subrange(lo as int, hi as int) == lit@),
{
    let l = str_to_chars(lit);
    if hi - lo != l.len() {
        return false;
    }
    let mut i: usize = 0;
    while i < l.len()
        invariant
            lo <= hi <= v.len(),
            hi - lo == l.len(),
            l@ == lit@,
            i <= l.len(),
            forall|j: int| 0 <= j < i ==> v@[lo + j] == l@[j],
        decreases l.len() - i,
    {
        if v[lo + i] != l[i] {
            assert(v@.subrange(lo as int, hi as int)[i as int] == v@[lo + i]);
            assert(v@.subrange(lo as int, hi as int)[i as int] != l@[i as int]);
            return false;
        }
        i = i + 1;
    }
    assert(v@.subrange(lo as int, hi as int) =~= l@);
    true
}

/// Modifier bit named by the trimmed part `v[lo..hi]`.
fn part_bits(v: &Vec<char>, lo: usize, hi: usize) -> (b: u8)
    requires
        lo <= hi <= v.len(),
    ensures
        b == token_bits(trim(v@.subrange(lo as int, hi as int))),
{
    let mut a = lo;
    while a < hi && is_whitespace(v[a])
        invariant
            lo <= a <= hi <= v.len(),
            trim_start(v@.subrange(lo as int, hi as int)) == trim_start(v@.subrange(a as int, hi as int)),
        decreases hi - a,
    {
        assert(v@.subrange(a as int, hi as int).drop_first() =~= v@.subrange(a + 1, hi as int));
        a = a + 1;
    }
    let mut b = hi;
    while b > a && is_whitespace(v[b - 1])
        invariant
            lo <= a <= b <= hi <= v.len(),
            trim(v@.subrange(lo as int, hi as int)) == trim_end(v@.subrange(a as int, b as int)),
            a < hi ==> !unicode_whitespace(v@[a as int]),
        decreases b - a,
    {
        assert(v@.subrange(a as int, b as int).drop_last() =~= v@.subrange(a as int, b - 1));
        b = b - 1;
    }
    proof {
        assert(trim(v@.subrange(lo as int, hi as int)) == v@.subrange(a as int, b as int));
    }
    if range_is(v, a, b, "Ctrl") || range_is(v, a, b, "Control") {
        4
    } else if range_is(v, a, b, "Shift") {
        1
    } else if range_is(v, a, b, "Alt") {
        2
    } else if range_is(v, a, b, "Super") {
        8
    } else {
        0
    }
}

/// Parse a modifier string like "Ctrl", "Ctrl|Shift", "Alt", "", or "None".
///
/// Parts are separated by `|` and trimmed of surrounding whitespace; names
/// are case-sensitive, and unknown names (including "None" and empty parts)
/// add no modifier.
pub fn parse_mods(s: &str) -> (m: Modifiers)
    ensures
        m == spec_parse_mods(s@),
{
    let v = str_to_chars(s);
    let mut acc: u8 = 0;
    let mut start: usize = 0;
    let mut i: usize = 0;
    proof {
        assert(v@.take(0) =~= Seq::<char>::empty());
    }
    while i < v.len()
        invariant
            start <= i <= v.len(),
            split_bar(v@.take(i as int)).len() >= 1,
            acc == or_parts(split_bar(v@.take(i as int)).drop_last()),
            split_bar(v@.take(i as int)).last() == v@.subrange(start as int, i as int),
        decreases v.len() - i,
    {
        let ghost old_parts = split_bar(v@.take(i as int));
        proof {
            assert(v@.take(i + 1).drop_last() =~= v@.take(i as int));
            assert(v@.take(i + 1).last() == v@[i as int]);
        }
        if v[i] == '|' {
            let b = part_bits(&v, start, i);
            proof {
                let new_parts = split_bar(v@.take(i + 1));
                assert(new_parts == old_parts.push(Seq::<char>::empty()));
                assert(new_parts.drop_last() =~= old_parts);
                assert(old_parts.drop_last().push(old_parts.last()) =~= old_parts);
                assert(new_parts.last() =~= v@.subrange(i + 1, i + 1));
            }
            acc = acc | b;
            start = i + 1;
        } else {
            proof {
                let new_parts = split_bar(v@.take(i + 1));
                assert(new_parts.drop_last() =~= old_parts.drop_last());
                assert(new_parts.last() =~= v@.subrange(start as int, i + 1));
            }
        }
        i = i + 1;
    }
    let b = part_bits(&v, start, i);
    proof {
        let parts = split_bar(v@.take(i as int));
        assert(v@.take(i as int) =~= v@);
        assert(parts.drop_last().push(parts.last()) =~= parts);
    }
    Modifiers { bits: acc | b }
}

// ── Actions ──

/// Value of an ASCII hexadecimal digit.
pub open spec fn hex_val(c: char) -> Option<u8> {
    if '0' <= c <= '9' {
        Some(((c as u32) - 48) as u8)
    } else if 'a' <= c <= 'f' {
        Some(((c as u32) - 87) as u8)
    } else if 'A' <= c <= 'F' {
        Some(((c as u32) - 55) as u8)
    } else {
        None
    }
}

/// Base-16 value of the two-character text `hi lo` as an unsigned byte: two
/// hex digits, or a `+` sign followed by one hex digit; `None` otherwise.
pub open spec fn hex_pair(hi: char, lo: char) -> Option<u8> {
    if hi == '+' {
        hex_val(lo)
    } else if hex_val(hi) is Some && hex_val(lo) is Some {
        Some((hex_val(hi)->0 * 16 + hex_val(lo)->0) as u8)
    } else {
        None
    }
}

/// The text of a `SendText` value after escape processing:
/// `\xHH` gives the character with code HH (missing digits read as `0`,
/// invalid digits drop the escape), `\n`, `\r`, `\t`, `\\` give newline,
/// CR, tab and backslash; a trailing lone backslash stays; any other
/// escaped character keeps its backslash.
pub open spec fn spec_unescape(s: Seq<char>) -> Seq<char>
    decreases s.len(),
{
    if s.len() == 0 {
        Seq::empty()
    } else if s[0] != '\\' {
        seq![s[0]] + spec_unescape(s.drop_first())
    } else if s.len() == 1 {
        seq!['\\']
    } else if s[1] == 'x' {
        let rest = s.skip(2);
        let hi = if rest.len() > 0 { rest[0] } else { '0' };
        let lo = if rest.len() > 1 { rest[1] } else { '0' };
        let used: int = if rest.len() >= 2 { 2 } else { rest.len() as int };
        let piece = match hex_pair(hi, lo) {
            Some(b) => seq![(b as u32) as char],
            None => Seq::empty(),
        };
        piece + spec_unescape(rest.skip(used))
    } else if s[1] == 'n' {
        seq!['\n'] + spec_unescape(s.skip(2))
    } else if s[1] == 'r' {
        seq!['\r'] + spec_unescape(s.skip(2))
    } else if s[1] == 't' {
        seq!['\t'] + spec_unescape(s.skip(2))
    } else if s[1] == '\\' {
        seq!['\\'] + spec_unescape(s.skip(2))
    } else {
        seq!['\\', s[1]] + spec_unescape(s.skip(2))
    }
}
/// Value of a hex digit character.
fn hex_digit(c: char) -> (r: Option<u8>)
    ensures
        r == hex_val(c),
{
    if '0' <= c && c <= '9' {
        Some((c as u32 - 48) as u8)
    } else if 'a' <= c && c <= 'f' {
        Some((c as u32 - 87) as u8)
    } else if 'A' <= c && c <= 'F' {
        Some((c as u32 - 55) as u8)
    } else {
        None
    }
}

/// Parse the two-character text `hi lo` as a base-16 byte.
fn parse_hex_pair(hi: char, lo: char) -> (r: Option<u8>)
    ensures
        r == hex_pair(hi, lo),
{
    if hi == '+' {
        return hex_digit(lo);
    }
    match (hex_digit(hi), hex_digit(lo)) {
        (Some(h), Some(l)) => Some(h * 16 + l),
        _ => None,
    }
}

/// The character whose code is the byte `b`.
fn char_of_byte(b: u8) -> (c: char)
    ensures
        c == ((b as u32) as char),
{
    b as char
}

/// Process escape sequences in `v[from..]`.
fn unescape_chars(v: &Vec<char>, from: usize) -> (out: Vec<char>)
    requires
        from <= v.len(),
    ensures
        out@ == spec_unescape(v@.skip(from as int)),
{
    let mut out: Vec<char> = Vec::new();
    let mut i = from;
    while i < v.len()
        invariant
            from <= i <= v.len(),
            out@ + spec_unescape(v@.skip(i as int)) == spec_unescape(v@.skip(from as int)),
        decreases v.len() - i,
    {
        let ghost s = v@.skip(i as int);
        let ghost before = out@;
        let c = v[i];
        assert(s[0] == c);
        if c != '\\' {
            out.push(c);
            i = i + 1;
            proof {
                assert(s.drop_first() =~= v@.skip(i as int));
                assert(out@ + spec_unescape(v@.skip(i as int)) =~= before + spec_unescape(s));
            }
        } else if i + 1 == v.len() {
            out.push('\\');
            i = i + 1;
            proof {
                assert(v@.skip(i as int) =~= Seq::<char>::empty());
                assert(out@ + spec_unescape(v@.skip(i as int)) =~= before + spec_unescape(s));
            }
        } else {
            let e = v[i + 1];
            assert(s[1] == e);
            if e == 'x' {
                let n = v.len() - (i + 2);
                let hi = if n > 0 { v[i + 2] } else { '0' };
                let lo = if n > 1 { v[i + 3] } else { '0' };
                let used: usize = if n >= 2 { 2 } else { n };
                if let Some(b) = parse_hex_pair(hi, lo) {
                    out.push(char_of_byte(b));
                }
                proof {
                    let rest = s.skip(2);
                    assert(rest =~= v@.skip(i + 2));
                    assert(rest.skip(used as int) =~= v@.skip(i + 2 + used));
                    if n > 0 {
                        assert(rest[0] == hi);
                    }
                    if n > 1 {
                        assert(rest[1] == lo);
                    }
                }
                i = i + 2 + used;
                proof {
                    assert(out@ + spec_unescape(v@.skip(i as int)) =~= before + spec_unescape(s));
                }
            } else {
                if e == 'n' {
                    out.push('\n');
                } else if e == 'r' {
                    out.push('\r');
                } else if e == 't' {
                    out.push('\t');
                } else if e == '\\' {
                    out.push('\\');
                } else {
                    out.push('\\');
                    out.push(e);
                }
                i = i + 2;
                proof {
                    assert(s.skip(2) =~= v@.skip(i as int));
                    assert(out@ + spec_unescape(v@.skip(i as int)) =~= before + spec_unescape(s));
                }
            }
        }
    }
    proof {
        assert(v@.skip(i as int) =~= Seq::<char>::empty());
        assert(out@ + Seq::<char>::empty() =~= out@);
    }
    out
}

/// Process escape sequences in `SendText` values.
///
/// Supports: `\\x1b` -> ESC, `\\n` -> newline, `\\r` -> CR,
/// `\\t` -> tab, `\\\\` -> backslash, `\\xHH` -> hex byte.
pub fn unescape_send_text(s: &str) -> (r: String)
    ensures
        r@ == spec_unescape(s@),
{
    let v = str_to_chars(s);
    proof {
        assert(v@.skip(0) =~= v@);
    }
    let out = unescape_chars(&v, 0);
    string_from_chars(&out)
}

/// The action named by a configuration string.
pub open spec fn spec_parse_action(s: Seq<char>) -> Option<ActionView> {
    if s.len() >= 9 && s.take(9) == "SendText:"@ {
        Some(ActionOf::SendText(spec_unescape(s.skip(9))))
    }
    else if s == "Copy"@ {
        Some(ActionOf::Copy)
    }
    else if s == "Paste"@ {
        Some(ActionOf::Paste)
    }
    else if s == "SmartCopy"@ {
        Some(ActionOf::SmartCopy)
    }
    else if s == "SmartPaste"@ {
        Some(ActionOf::SmartPaste)
    }
    else if s == "NewTab"@ {
        Some(ActionOf::NewTab)
    }
    else if s == "CloseTab"@ {
        Some(ActionOf::CloseTab)
    }
    else if s == "NextTab"@ {
        Some(ActionOf::NextTab)
    }
    else if s == "PrevTab"@ {
        Some(ActionOf::PrevTab)
    }
    else if s == "ZoomIn"@ {
        Some(ActionOf::ZoomIn)
    }
    else if s == "ZoomOut"@ {
        Some(ActionOf::ZoomOut)
    }
    else if s == "ZoomReset"@ {
        Some(ActionOf::ZoomReset)
    }
    else if s == "ScrollPageUp"@ {
        Some(ActionOf::ScrollPageUp)
    }
    else if s == "ScrollPageDown"@ {
        Some(ActionOf::ScrollPageDown)
    }
    else if s == "ScrollToTop"@ {
        Some(ActionOf::ScrollToTop)
    }
    else if s == "ScrollToBottom"@ {
        Some(ActionOf::ScrollToBottom)
    }
    else if s == "OpenSearch"@ {
        Some(ActionOf::OpenSearch)
    }
    else if s == "ReloadConfig"@ {
        Some(ActionOf::ReloadConfig)
    }
    else if s == "PreviousPrompt"@ {
        Some(ActionOf::PreviousPrompt)
    }
    else if s == "NextPrompt"@ {
        Some(ActionOf::NextPrompt)
    }
    else if s == "DuplicateTab"@ {
        Some(ActionOf::DuplicateTab)
    }
    else if s == "MoveTabToNewWindow"@ {
        Some(ActionOf::MoveTabToNewWindow)
    }
    else if s == "ToggleFullscreen"@ {
        Some(ActionOf::ToggleFullscreen)
    }
    else if s == "EnterMarkMode"@ {
        Some(ActionOf::EnterMarkMode)
    }
    else if s == "SplitRight"@ {
        Some(ActionOf::SplitRight)
    }
    else if s == "SplitDown"@ {
        Some(ActionOf::SplitDown)
    }
    else if s == "FocusPaneUp"@ {
        Some(ActionOf::FocusPaneUp)
    }
    else if s == "FocusPaneDown"@ {
        Some(ActionOf::FocusPaneDown)
    }
    else if s == "FocusPaneLeft"@ {
        Some(ActionOf::FocusPaneLeft)
    }
    else if s == "FocusPaneRight"@ {
        Some(ActionOf::FocusPaneRight)
    }
    else if s == "NextPane"@ {
        Some(ActionOf::NextPane)
    }
    else if s == "PrevPane"@ {
        Some(ActionOf::PrevPane)
    }
    else if s == "ClosePane"@ {
        Some(ActionOf::ClosePane)
    }
    else if s == "ResizePaneUp"@ {
        Some(ActionOf::ResizePaneUp)
    }
    else if s == "ResizePaneDown"@ {
        Some(ActionOf::ResizePaneDown)
    }
    else if s == "ResizePaneLeft"@ {
        Some(ActionOf::ResizePaneLeft)
    }
    else if s == "ResizePaneRight"@ {
        Some(ActionOf::ResizePaneRight)
    }
    else if s == "EqualizePanes"@ {
        Some(ActionOf::EqualizePanes)
    }
    else if s == "ToggleZoom"@ {
        Some(ActionOf::ToggleZoom)
    }
    else if s == "ToggleFloatingPane"@ {
        Some(ActionOf::ToggleFloatingPane)
    }
    else if s == "ToggleFloatTile"@ {
        Some(ActionOf::ToggleFloatTile)
    }
    else if s == "UndoSplit"@ {
        Some(ActionOf::UndoSplit)
    }
    else if s == "RedoSplit"@ {
        Some(ActionOf::RedoSplit)
    }
    else if s == "None"@ {
        Some(ActionOf::Unbind)
    } else {
        None
    }
}

/// Whether `v` starts with the characters of `lit`.
fn starts_with(v: &Vec<char>, lit: &str) -> (r: bool)
    ensures
        r == (v@.len() >= lit@.len() && v@.take(lit@.len() as int) == lit@),
{
    let l = str_to_chars(lit);
    if v.len() < l.len() {
        return false;
    }
    range_is(v, 0, l.len(), lit)
}

/// Parse an action string.
///
/// Supports `SendText:...` for literal text with escape sequences; every
/// other action is named by the string that [`Action::as_str`] returns.
pub fn parse_action(s: &str) -> (r: Option<Action>)
    ensures
        match r {
            Some(a) => spec_parse_action(s@) == Some(a@),
            None => spec_parse_action(s@) is None,
        },
{
    let v = str_to_chars(s);
    proof {
        reveal_strlit("SendText:");
    }
    if starts_with(&v, "SendText:") {
        let t = unescape_chars(&v, 9);
        return Some(ActionOf::SendText(string_from_chars(&t)));
    }
    if chars_are(&v, "Copy") {
        Some(ActionOf::Copy)
    }
    else if chars_are(&v, "Paste") {
        Some(ActionOf::Paste)
    }
    else if chars_are(&v, "SmartCopy") {
        Some(ActionOf::SmartCopy)
    }
    else if chars_are(&v, "SmartPaste") {
        Some(ActionOf::SmartPaste)
    }
    else if chars_are(&v, "NewTab") {
        Some(ActionOf::NewTab)
    }
    else if chars_are(&v, "CloseTab") {
        Some(ActionOf::CloseTab)
    }
    else if chars_are(&v, "NextTab") {
        Some(ActionOf::NextTab)
    }
    else if chars_are(&v, "PrevTab") {
        Some(ActionOf::PrevTab)
    }
    else if chars_are(&v, "ZoomIn") {
        Some(ActionOf::ZoomIn)
    }
    else if chars_are(&v, "ZoomOut") {
        Some(ActionOf::ZoomOut)
    }
    else if chars_are(&v, "ZoomReset") {
        Some(ActionOf::ZoomReset)
    }
    else if chars_are(&v, "ScrollPageUp") {
        Some(ActionOf::ScrollPageUp)
    }
    else if chars_are(&v, "ScrollPageDown") {
        Some(ActionOf::ScrollPageDown)
    }
    else if chars_are(&v, "ScrollToTop") {
        Some(ActionOf::ScrollToTop)
    }
    else if chars_are(&v, "ScrollToBottom") {
        Some(ActionOf::ScrollToBottom)
    }
    else if chars_are(&v, "OpenSearch") {
        Some(ActionOf::OpenSearch)
    }
    else if chars_are(&v, "ReloadConfig") {
        Some(ActionOf::ReloadConfig)
    }
    else if chars_are(&v, "PreviousPrompt") {
        Some(ActionOf::PreviousPrompt)
    }
    else if chars_are(&v, "NextPrompt") {
        Some(ActionOf::NextPrompt)
    }
    else if chars_are(&v, "DuplicateTab") {
        Some(ActionOf::DuplicateTab)
    }
    else if chars_are(&v, "MoveTabToNewWindow") {
        Some(ActionOf::MoveTabToNewWindow)
    }
    else if chars_are(&v, "ToggleFullscreen") {
        Some(ActionOf::ToggleFullscreen)
    }
    else if chars_are(&v, "EnterMarkMode") {
        Some(ActionOf::EnterMarkMode)
    }
    else if chars_are(&v, "SplitRight") {
        Some(ActionOf::SplitRight)
    }
    else if chars_are(&v, "SplitDown") {
        Some(ActionOf::SplitDown)
    }
    else if chars_are(&v, "FocusPaneUp") {
        Some(ActionOf::FocusPaneUp)
    }
    else if chars_are(&v, "FocusPaneDown") {
        Some(ActionOf::FocusPaneDown)
    }
    else if chars_are(&v, "FocusPaneLeft") {
        Some(ActionOf::FocusPaneLeft)
    }
    else if chars_are(&v, "FocusPaneRight") {
        Some(ActionOf::FocusPaneRight)
    }
    else if chars_are(&v, "NextPane") {
        Some(ActionOf::NextPane)
    }
    else if chars_are(&v, "PrevPane") {
        Some(ActionOf::PrevPane)
    }
    else if chars_are(&v, "ClosePane") {
        Some(ActionOf::ClosePane)
    }
    else if chars_are(&v, "ResizePaneUp") {
        Some(ActionOf::ResizePaneUp)
    }
    else if chars_are(&v, "ResizePaneDown") {
        Some(ActionOf::ResizePaneDown)
    }
    else if chars_are(&v, "ResizePaneLeft") {
        Some(ActionOf::ResizePaneLeft)
    }
    else if chars_are(&v, "ResizePaneRight") {
        Some(ActionOf::ResizePaneRight)
    }
    else if chars_are(&v, "EqualizePanes") {
        Some(ActionOf::EqualizePanes)
    }
    else if chars_are(&v, "ToggleZoom") {
        Some(ActionOf::ToggleZoom)
    }
    else if chars_are(&v, "ToggleFloatingPane") {
        Some(ActionOf::ToggleFloatingPane)
    }
    else if chars_are(&v, "ToggleFloatTile") {
        Some(ActionOf::ToggleFloatTile)
    }
    else if chars_are(&v, "UndoSplit") {
        Some(ActionOf::UndoSplit)
    }
    else if chars_are(&v, "RedoSplit") {
        Some(ActionOf::RedoSplit)
    }
    else if chars_are(&v, "None") {
        Some(ActionOf::Unbind)
    } else {
        None
    }
}

// ── Merge ──

/// `bs` without the bindings for `key` with exactly `mods`.
pub open spec fn spec_without(bs: Seq<KeyBindingView>, key: BindingKeyView, mods: Modifiers) -> Seq<KeyBindingView>
    decreases bs.len(),
{
    if bs.len() == 0 {
        Seq::empty()
    } else {
        let r = spec_without(bs.drop_last(), key, mods);
        if bs.last().key == key && bs.last().mods == mods {
            r
        } else {
            r.push(bs.last())
        }
    }
}

/// Apply one user entry: an entry whose key or action does not parse is
/// skipped; otherwise bindings for the same key and modifiers are removed and,
/// unless the action is `None`, the new binding is appended.
pub open spec fn spec_merge_one(bs: Seq<KeyBindingView>, cfg: KeybindConfigView) -> Seq<KeyBindingView> {
    match (spec_parse_key(cfg.key), spec_parse_action(cfg.action)) {
        (Some(k), Some(a)) => {
            let m = spec_parse_mods(cfg.mods);
            let kept = spec_without(bs, k, m);
            if a == ActionView::Unbind {
                kept
            } else {
                kept.push(KeyBindingView { key: k, mods: m, action: a })
            }
        },
        _ => bs,
    }
}

/// Apply all user entries, in order, to `bs`.
pub open spec fn spec_merge(bs: Seq<KeyBindingView>, user: Seq<KeybindConfigView>) -> Seq<KeyBindingView>
    decreases user.len(),
{
    if user.len() == 0 {
        bs
    } else {
        spec_merge_one(spec_merge(bs, user.drop_last()), user.last())
    }
}

/// The views of a sequence of user entries.
pub open spec fn configs_view(user: Seq<KeybindConfig>) -> Seq<KeybindConfigView> {
    user.map_values(|c: KeybindConfig| c@)
}

/// Remove every binding for `key` with exactly `mods`, keeping the order of the rest.
fn remove_bindings(bindings: &mut Vec<KeyBinding>, key: &BindingKey, mods: Modifiers)
    ensures
        bindings_view(final(bindings)@) == spec_without(bindings_view(old(bindings)@), key@, mods),
{
    let ghost ov = bindings_view(bindings@);
    let mut out: Vec<KeyBinding> = Vec::new();
    let ghost mut j: int = 0;
    proof {
        assert(ov.take(0) =~= Seq::<KeyBindingView>::empty());
        assert(bindings_view(bindings@) =~= ov.skip(0));
    }
    while bindings.len() > 0
        invariant
            0 <= j <= ov.len(),
            bindings_view(out@) == spec_without(ov.take(j), key@, mods),
            bindings_view(bindings@) == ov.skip(j),
        decreases bindings.len(),
    {
        let ghost before = bindings@;
        proof {
            assert(bindings_view(before).len() == before.len());
            assert(j < ov.len());
            assert(ov.skip(j)[0] == ov[j]);
        }
        let b = bindings.remove(0);
        proof {
            assert(bindings_view(before)[0] == b@);
            assert(ov[j] == b@);
            assert(ov.take(j + 1).drop_last() =~= ov.take(j));
            assert(ov.take(j + 1).last() == ov[j]);
            assert forall|k: int| 0 <= k < bindings@.len() implies bindings_view(bindings@)[k] == ov.skip(j + 1)[k] by {
                assert(bindings@[k] == before[k + 1]);
                assert(bindings_view(before)[k + 1] == ov.skip(j)[k + 1]);
            }
            assert(bindings_view(bindings@) =~= ov.skip(j + 1));
        }
        if binding_key_eq(&b.key, key) && b.mods == mods {
        } else {
            let ghost prev = out@;
            out.push(b);
            proof {
                assert(bindings_view(out@) =~= bindings_view(prev).push(b@));
            }
        }
        proof {
            j = j + 1;
        }
    }
    proof {
        assert(ov.skip(j).len() == 0);
        assert(ov.take(j) =~= ov);
    }
    *bindings = out;
}

/// Merge user keybinding overrides with defaults.
///
/// User bindings replace defaults that share the same (key, mods).
/// `Action::Unbind` (config token `None`) removes a binding without adding a
/// replacement. Entries with an unknown key or action are skipped.
pub fn merge_bindings(user: &[KeybindConfig]) -> (r: Vec<KeyBinding>)
    ensures
        bindings_view(r@) == spec_merge(spec_default_bindings(), configs_view(user@)),
        one_per_slot(bindings_view(r@)),
{
    proof {
        law_merged_bindings_one_per_slot(configs_view(user@));
    }
    merge_bindings_over(default_bindings(), user)
}

/// Apply user entries, in order, to the binding table `base` (the defaults
/// of a platform): as [`merge_bindings`], over another starting table.
pub fn merge_bindings_over(base: Vec<KeyBinding>, user: &[KeybindConfig]) -> (r: Vec<KeyBinding>)
    ensures
        bindings_view(r@) == spec_merge(bindings_view(base@), configs_view(user@)),
{
    let ghost b0 = bindings_view(base@);
    let mut bindings = base;
    let ghost uv = configs_view(user@);
    proof {
        assert(uv.take(0) =~= Seq::<KeybindConfigView>::empty());
    }
    let mut j: usize = 0;
    while j < user.len()
        invariant
            j <= user.len(),
            uv == configs_view(user@),
            bindings_view(bindings@) == spec_merge(b0, uv.take(j as int)),
        decreases user.len() - j,
    {
        let cfg = &user[j];
        proof {
            assert(uv.take(j + 1).drop_last() =~= uv.take(j as int));
            assert(uv.take(j + 1).last() == cfg@);
        }
        let pk = parse_key(cfg.key.as_str());
        let pa = parse_action(cfg.action.as_str());
        match (pk, pa) {
            (Some(key), Some(action)) => {
                let mods = parse_mods(cfg.mods.as_str());
                remove_bindings(&mut bindings, &key, mods);
                if !is_unbind(&action) {
                    let ghost prev = bindings@;
                    bindings.push(KeyBinding { key, mods, action });
                    proof {
                        assert(bindings_view(bindings@) =~= bindings_view(prev).push(bindings@.last()@));
                    }
                }
            },
            _ => {},
        }
        j = j + 1;
    }
    proof {
        assert(uv.take(j as int) =~= uv);
    }
    bindings
}

} // verus!
