//! Kitty keyboard protocol encoding (CSI u format).
//!
//! Progressive enhancement keyboard protocol for modern terminal applications.
//! Encodes keys in `ESC [ codepoint ; modifiers [: event_type] [; text] u` format.
//! Mode flags control which information is reported, from basic disambiguation
//! through full key release/repeat reporting.

use vstd::prelude::*;
use vstd::string::StringSliceAdditionalSpecFns;

use super::{
    decimal, push_decimal, text_bytes, text_to_bytes, Key, KeyEventType, KeyInput, Modifiers,
    NamedKey, TermMode,
};

verus! {

broadcast use vstd::string::group_string_axioms;

/// Kitty-defined codepoints for functional keys.
pub open spec fn spec_kitty_codepoint(key: NamedKey) -> Option<u32> {
    match key {
        NamedKey::Escape => Some(27u32),
        NamedKey::Enter => Some(13u32),
        NamedKey::Tab => Some(9u32),
        NamedKey::Backspace => Some(127u32),
        NamedKey::Insert => Some(57348u32),
        NamedKey::Delete => Some(57349u32),
        NamedKey::ArrowLeft => Some(57350u32),
        NamedKey::ArrowRight => Some(57351u32),
        NamedKey::ArrowUp => Some(57352u32),
        NamedKey::ArrowDown => Some(57353u32),
        NamedKey::PageUp => Some(57354u32),
        NamedKey::PageDown => Some(57355u32),
        NamedKey::Home => Some(57356u32),
        NamedKey::End => Some(57357u32),
        NamedKey::CapsLock => Some(57358u32),
        NamedKey::ScrollLock => Some(57359u32),
        NamedKey::NumLock => Some(57360u32),
        NamedKey::PrintScreen => Some(57361u32),
        NamedKey::Pause => Some(57362u32),
        NamedKey::ContextMenu => Some(57363u32),
        NamedKey::F1 => Some(57364u32),
        NamedKey::F2 => Some(57365u32),
        NamedKey::F3 => Some(57366u32),
        NamedKey::F4 => Some(57367u32),
        NamedKey::F5 => Some(57368u32),
        NamedKey::F6 => Some(57369u32),
        NamedKey::F7 => Some(57370u32),
        NamedKey::F8 => Some(57371u32),
        NamedKey::F9 => Some(57372u32),
        NamedKey::F10 => Some(57373u32),
        NamedKey::F11 => Some(57374u32),
        NamedKey::F12 => Some(57375u32),
        NamedKey::F13 => Some(57376u32),
        NamedKey::F14 => Some(57377u32),
        NamedKey::F15 => Some(57378u32),
        NamedKey::F16 => Some(57379u32),
        NamedKey::F17 => Some(57380u32),
        NamedKey::F18 => Some(57381u32),
        NamedKey::F19 => Some(57382u32),
        NamedKey::F20 => Some(57383u32),
        NamedKey::F21 => Some(57384u32),
        NamedKey::F22 => Some(57385u32),
        NamedKey::F23 => Some(57386u32),
        NamedKey::F24 => Some(57387u32),
        NamedKey::F25 => Some(57388u32),
        NamedKey::F26 => Some(57389u32),
        NamedKey::F27 => Some(57390u32),
        NamedKey::F28 => Some(57391u32),
        NamedKey::F29 => Some(57392u32),
        NamedKey::F30 => Some(57393u32),
        NamedKey::F31 => Some(57394u32),
        NamedKey::F32 => Some(57395u32),
        NamedKey::F33 => Some(57396u32),
        NamedKey::F34 => Some(57397u32),
        NamedKey::F35 => Some(57398u32),
        NamedKey::Space => Some(32u32),
        _ => None,
    }
}

/// Kitty-defined codepoints for functional keys.
///
/// Character keys use their Unicode codepoint directly. Named/functional
/// keys use the codepoints defined by the Kitty keyboard protocol spec.
pub fn kitty_codepoint(key: NamedKey) -> (r: Option<u32>)
    ensures
        r == spec_kitty_codepoint(key),
{
    match key {
        NamedKey::Escape => Some(27),
        NamedKey::Enter => Some(13),
        NamedKey::Tab => Some(9),
        NamedKey::Backspace => Some(127),
        NamedKey::Insert => Some(57348),
        NamedKey::Delete => Some(57349),
        NamedKey::ArrowLeft => Some(57350),
        NamedKey::ArrowRight => Some(57351),
        NamedKey::ArrowUp => Some(57352),
        NamedKey::ArrowDown => Some(57353),
        NamedKey::PageUp => Some(57354),
        NamedKey::PageDown => Some(57355),
        NamedKey::Home => Some(57356),
        NamedKey::End => Some(57357),
        NamedKey::CapsLock => Some(57358),
        NamedKey::ScrollLock => Some(57359),
        NamedKey::NumLock => Some(57360),
        NamedKey::PrintScreen => Some(57361),
        NamedKey::Pause => Some(57362),
        NamedKey::ContextMenu => Some(57363),
        NamedKey::F1 => Some(57364),
        NamedKey::F2 => Some(57365),
        NamedKey::F3 => Some(57366),
        NamedKey::F4 => Some(57367),
        NamedKey::F5 => Some(57368),
        NamedKey::F6 => Some(57369),
        NamedKey::F7 => Some(57370),
        NamedKey::F8 => Some(57371),
        NamedKey::F9 => Some(57372),
        NamedKey::F10 => Some(57373),
        NamedKey::F11 => Some(57374),
        NamedKey::F12 => Some(57375),
        NamedKey::F13 => Some(57376),
        NamedKey::F14 => Some(57377),
        NamedKey::F15 => Some(57378),
        NamedKey::F16 => Some(57379),
        NamedKey::F17 => Some(57380),
        NamedKey::F18 => Some(57381),
        NamedKey::F19 => Some(57382),
        NamedKey::F20 => Some(57383),
        NamedKey::F21 => Some(57384),
        NamedKey::F22 => Some(57385),
        NamedKey::F23 => Some(57386),
        NamedKey::F24 => Some(57387),
        NamedKey::F25 => Some(57388),
        NamedKey::F26 => Some(57389),
        NamedKey::F27 => Some(57390),
        NamedKey::F28 => Some(57391),
        NamedKey::F29 => Some(57392),
        NamedKey::F30 => Some(57393),
        NamedKey::F31 => Some(57394),
        NamedKey::F32 => Some(57395),
        NamedKey::F33 => Some(57396),
        NamedKey::F34 => Some(57397),
        NamedKey::F35 => Some(57398),
        NamedKey::Space => Some(32),
        _ => None,
    }
}

/// The codepoint of a string that holds exactly one character.
pub open spec fn spec_char_codepoint(s: Seq<char>) -> Option<u32> {
    if s.len() == 1 {
        Some(s[0] as u32)
    } else {
        None
    }
}

/// Extract the Unicode codepoint from a single-character string.
///
/// Returns `None` for empty and multi-character strings (send as text instead).
pub fn resolve_char_codepoint(s: &str) -> (r: Option<u32>)
    ensures
        r == spec_char_codepoint(s@),
{
    let mut chars = s.chars();
    let c = match chars.next() {
        Some(c) => c,
        None => {
            return None;
        },
    };
    if chars.next().is_some() {
        return None;
    }
    Some(c as u32)
}

/// Whether a character key bypasses CSI u and is sent as plain text:
/// printable (codepoint >= 32, not DEL), no modifiers, and none of
/// report-all-keys, report-associated-text or a reported non-press event
/// type asks for encoding.
pub open spec fn spec_send_as_text(
    cp: u32,
    mods: Modifiers,
    report_all: bool,
    report_text: bool,
    report_events: bool,
    event_type: KeyEventType,
) -> bool {
    let needs_event_type = report_events && event_type != KeyEventType::Press;
    !report_all && !report_text && !needs_event_type && mods.bits == 0 && cp >= 32 && cp != 127
}

/// Whether a character key should bypass CSI u and send plain text.
pub fn should_send_as_text(
    cp: u32,
    mods: Modifiers,
    report_all: bool,
    report_text: bool,
    report_events: bool,
    event_type: KeyEventType,
) -> (b: bool)
    ensures
        b == spec_send_as_text(cp, mods, report_all, report_text, report_events, event_type),
{
    let needs_event_type = report_events && !matches!(event_type, KeyEventType::Press);
    !report_all && !report_text && !needs_event_type && mods.is_empty() && cp >= 32 && cp != 127
}

/// Whether a text codepoint is reported as associated text: not a C0
/// control, DEL or C1 control.
pub open spec fn is_text_codepoint(c: u32) -> bool {
    c >= 32 && c != 127 && !(128 <= c && c <= 159)
}

/// The codepoints of `s` reported as associated text, in order.
pub open spec fn spec_text_codepoints(s: Seq<char>) -> Seq<u32>
    decreases s.len(),
{
    if s.len() == 0 {
        Seq::empty()
    } else {
        let rest = spec_text_codepoints(s.drop_last());
        let c = s.last() as u32;
        if is_text_codepoint(c) {
            rest.push(c)
        } else {
            rest
        }
    }
}

/// The codepoints of `text` reported as associated text: control
/// characters (C0, DEL, C1) are left out.
pub fn text_codepoints(text: &str) -> (v: Vec<u32>)
    ensures
        v@ == spec_text_codepoints(text@),
{
    let chars = crate::text::str_to_chars(text);
    let mut v: Vec<u32> = Vec::new();
    let mut i: usize = 0;
    while i < chars.len()
        invariant
            i <= chars@.len(),
            chars@ == text@,
            v@ == spec_text_codepoints(chars@.take(i as int)),
        decreases chars@.len() - i,
    {
        let c = chars[i] as u32;
        proof {
            assert(chars@.take(i as int + 1).drop_last() =~= chars@.take(i as int));
        }
        if c >= 32 && c != 127 && !(128 <= c && c <= 159) {
            v.push(c);
        }
        i = i + 1;
    }
    proof {
        assert(chars@.take(chars@.len() as int) =~= chars@);
    }
    v
}

/// Decimal codepoints joined by `:`.
pub open spec fn join_codepoints(cps: Seq<u32>) -> Seq<u8>
    decreases cps.len(),
{
    if cps.len() == 0 {
        Seq::empty()
    } else if cps.len() == 1 {
        decimal(cps[0] as nat)
    } else {
        join_codepoints(cps.drop_last()) + seq![58u8] + decimal(cps.last() as nat)
    }
}

/// Append the decimal codepoints joined by `:` to `out`.
fn push_joined(out: &mut Vec<u8>, cps: &Vec<u32>)
    ensures
        final(out)@ == old(out)@ + join_codepoints(cps@),
{
    let mut i: usize = 0;
    while i < cps.len()
        invariant
            i <= cps@.len(),
            out@ == old(out)@ + join_codepoints(cps@.take(i as int)),
        decreases cps@.len() - i,
    {
        proof {
            assert(cps@.take(i as int + 1).drop_last() =~= cps@.take(i as int));
        }
        if i > 0 {
            out.push(58);
        }
        push_decimal(out, cps[i]);
        proof {
            if i == 0 {
                assert(cps@.take(1).len() == 1);
                assert(out@ =~= old(out)@ + join_codepoints(cps@.take(i as int + 1)));
            } else {
                assert(out@ =~= old(out)@ + join_codepoints(cps@.take(i as int + 1)));
            }
        }
        i = i + 1;
    }
    proof {
        assert(cps@.take(cps@.len() as int) =~= cps@);
    }
}

/// The associated text reported with an event: the text's codepoints when
/// associated text is reported and the event is not a release.
pub open spec fn spec_associated_text(report_text: bool, event_type: KeyEventType, text: Option<&str>) -> Seq<u32> {
    if report_text && event_type != KeyEventType::Release {
        match text {
            Some(t) => spec_text_codepoints(t@),
            None => Seq::empty(),
        }
    } else {
        Seq::empty()
    }
}

/// Event-type suffix of a CSI u sequence.
#[derive(Debug, Clone, Copy, PartialEq, Eq, Structural)]
pub enum EventSuffix {
    /// No suffix (press).
    Empty,
    /// `:2` (repeat).
    Repeat,
    /// `:3` (release).
    Release,
}

/// Bytes of an event-type suffix.
pub open spec fn suffix_bytes(s: EventSuffix) -> Seq<u8> {
    match s {
        EventSuffix::Empty => Seq::empty(),
        EventSuffix::Repeat => seq![58u8, 50u8],
        EventSuffix::Release => seq![58u8, 51u8],
    }
}

/// The event-type suffix, or `None` when the event is suppressed
/// (a release while event types are not reported).
pub open spec fn spec_event_suffix(report_events: bool, event_type: KeyEventType) -> Option<EventSuffix> {
    if report_events {
        Some(
            match event_type {
                KeyEventType::Press => EventSuffix::Empty,
                KeyEventType::Repeat => EventSuffix::Repeat,
                KeyEventType::Release => EventSuffix::Release,
            },
        )
    } else if event_type == KeyEventType::Release {
        None
    } else {
        Some(EventSuffix::Empty)
    }
}

/// Compute the event type suffix for the CSI u sequence.
///
/// Returns `None` if the event should be suppressed (release without
/// `REPORT_EVENT_TYPES`). Returns the empty suffix for normal press events.
pub fn resolve_event_suffix(report_events: bool, event_type: KeyEventType) -> (r: Option<EventSuffix>)
    ensures
        r == spec_event_suffix(report_events, event_type),
{
    if report_events {
        Some(
            match event_type {
                KeyEventType::Press => EventSuffix::Empty,
                KeyEventType::Repeat => EventSuffix::Repeat,
                KeyEventType::Release => EventSuffix::Release,
            },
        )
    } else {
        match event_type {
            KeyEventType::Release => None,
            _ => Some(EventSuffix::Empty),
        }
    }
}

/// `ESC [ codepoint ; modifier [: event_type] [; text] u`, or
/// `ESC [ codepoint u` when there is no modifier, event suffix or text; the
/// modifier field is 1 when no modifier is held but a later field follows.
pub open spec fn spec_csi_u(codepoint: u32, mod_param: u8, suffix: EventSuffix, text: Seq<u32>) -> Seq<u8> {
    if mod_param > 0 || suffix != EventSuffix::Empty || text.len() > 0 {
        let m: u8 = if mod_param > 0 { mod_param } else { 1u8 };
        let t = if text.len() > 0 { seq![59u8] + join_codepoints(text) } else { Seq::empty() };
        seq![27u8, 91u8] + decimal(codepoint as nat) + seq![59u8] + decimal(m as nat)
            + suffix_bytes(suffix) + t + seq![117u8]
    } else {
        seq![27u8, 91u8] + decimal(codepoint as nat) + seq![117u8]
    }
}

/// Build the final `ESC [ codepoint ; modifier [: event_type] [; text] u`
/// sequence.
pub fn build_csi_u(codepoint: u32, mods: Modifiers, event_suffix: EventSuffix, text: &Vec<u32>) -> (v: Vec<u8>)
    ensures
        v@ == spec_csi_u(codepoint, mods.spec_xterm_param(), event_suffix, text@),
{
    let mod_param = mods.xterm_param();
    let mut out: Vec<u8> = Vec::new();
    out.push(27);
    out.push(91);
    push_decimal(&mut out, codepoint);
    if mod_param > 0 || !matches!(event_suffix, EventSuffix::Empty) || text.len() > 0 {
        let m: u8 = if mod_param > 0 { mod_param } else { 1 };
        out.push(59);
        push_decimal(&mut out, m as u32);
        match event_suffix {
            EventSuffix::Empty => {},
            EventSuffix::Repeat => {
                out.push(58);
                out.push(50);
            },
            EventSuffix::Release => {
                out.push(58);
                out.push(51);
            },
        }
        if text.len() > 0 {
            out.push(59);
            push_joined(&mut out, text);
        }
    }
    out.push(117);
    proof {
        assert(out@ =~= spec_csi_u(codepoint, mods.spec_xterm_param(), event_suffix, text@));
    }
    out
}

/// What the Kitty encoder sends for a key event.
pub open spec fn spec_encode_kitty(input: KeyInput) -> Seq<u8> {
    let report_all = input.mode.has(64);
    let report_events = input.mode.has(16);
    let report_text = input.mode.has(128);
    let codepoint: Option<u32> = match *input.key {
        Key::Named(named) => spec_kitty_codepoint(named),
        Key::Character(ch) => spec_char_codepoint(ch@),
        _ => None,
    };
    match *input.key {
        Key::Character(ch) if spec_char_codepoint(ch@) is None => text_bytes(input.text),
        Key::Character(ch) if spec_send_as_text(
            spec_char_codepoint(ch@)->0,
            input.mods,
            report_all,
            report_text,
            report_events,
            input.event_type,
        ) => text_bytes(input.text),
        _ => match codepoint {
            None => Seq::empty(),
            Some(cp) => match spec_event_suffix(report_events, input.event_type) {
                None => Seq::empty(),
                Some(suffix) => spec_csi_u(
                    cp,
                    input.mods.spec_xterm_param(),
                    suffix,
                    spec_associated_text(report_text, input.event_type, input.text),
                ),
            },
        },
    }
}

/// Encode a key event using the Kitty keyboard protocol (CSI u format).
///
/// Format: `ESC [ codepoint ; modifiers [: event_type] [; text] u`
///
/// Returns an empty `Vec` for unhandled keys or suppressed release events.
pub fn encode_kitty(input: &KeyInput<'_>) -> (v: Vec<u8>)
    ensures
        v@ == spec_encode_kitty(*input),
{
    let report_all = input.mode.contains(TermMode::report_all_keys_as_esc());
    let report_events = input.mode.contains(TermMode::report_event_types());
    let report_text = input.mode.contains(TermMode::report_associated_text());

    let codepoint = match input.key {
        Key::Named(named) => match kitty_codepoint(*named) {
            Some(cp) => cp,
            None => {
                return Vec::new();
            },
        },
        Key::Character(ch) => match resolve_char_codepoint(ch.as_str()) {
            Some(cp) => {
                if should_send_as_text(cp, input.mods, report_all, report_text, report_events, input.event_type) {
                    return text_to_bytes(input.text);
                }
                cp
            },
            None => {
                return text_to_bytes(input.text);
            },
        },
        _ => {
            return Vec::new();
        },
    };

    let event_suffix = match resolve_event_suffix(report_events, input.event_type) {
        Some(s) => s,
        None => {
            return Vec::new();
        },
    };

    let text: Vec<u32> = if report_text && !matches!(input.event_type, KeyEventType::Release) {
        match input.text {
            Some(t) => text_codepoints(t),
            None => Vec::new(),
        }
    } else {
        Vec::new()
    };
    build_csi_u(codepoint, input.mods, event_suffix, &text)
}

} // verus!
