//! Key event encoding: the xterm-style legacy encoder and the Kitty keyboard
//! protocol encoder, together with the key, modifier and terminal-mode types
//! that both encoders read.

use vstd::prelude::*;
use vstd::string::StringSliceAdditionalSpecFns;
use vstd::string::StrSliceExecFns;

use self::kitty::{encode_kitty, spec_encode_kitty};
use self::legacy::{encode_legacy, encode_numpad_app, spec_encode_legacy, spec_numpad_code};

pub mod kitty;
pub mod laws;
pub mod legacy;

verus! {

// ── Modifiers ──

/// Keyboard modifier set (Shift, Alt, Control, Super) as a small bit set.
#[derive(Debug, Clone, Copy, PartialEq, Eq, Structural, Hash)]
pub struct Modifiers {
    pub bits: u8,
}

impl Modifiers {
    /// Shift held.
    pub fn shift() -> (m: Modifiers)
        ensures
            m.bits == 1,
    {
        Modifiers { bits: 1 }
    }

    /// Alt held.
    pub fn alt() -> (m: Modifiers)
        ensures
            m.bits == 2,
    {
        Modifiers { bits: 2 }
    }

    /// Control held.
    pub fn control() -> (m: Modifiers)
        ensures
            m.bits == 4,
    {
        Modifiers { bits: 4 }
    }

    /// Super (Windows / Command) held.
    pub fn super_key() -> (m: Modifiers)
        ensures
            m.bits == 8,
    {
        Modifiers { bits: 8 }
    }

    /// The empty modifier set.
    pub fn empty() -> (m: Modifiers)
        ensures
            m.bits == 0,
    {
        Modifiers { bits: 0 }
    }

    /// Whether no modifier is held.
    pub fn is_empty(&self) -> (b: bool)
        ensures
            b == (self.bits == 0),
    {
        self.bits == 0
    }

    /// Whether every modifier of `other` is held.
    pub fn contains(&self, other: Modifiers) -> (b: bool)
        ensures
            b == self.has(other.bits),
    {
        self.bits & other.bits == other.bits
    }

    /// The union of two modifier sets.
    pub fn union(self, other: Modifiers) -> (m: Modifiers)
        ensures
            m.bits == self.bits | other.bits,
    {
        Modifiers { bits: self.bits | other.bits }
    }

    /// Whether the modifier with bit mask `mask` is held.
    pub open spec fn has(self, mask: u8) -> bool {
        self.bits & mask == mask
    }

    /// The xterm modifier parameter: `1 + shift + 2*alt + 4*ctrl + 8*super`,
    /// or 0 when no modifier is held.
    pub open spec fn spec_xterm_param(self) -> u8 {
        let sum = (if self.has(1) { 1u8 } else { 0u8 }) + (if self.has(2) { 2u8 } else { 0u8 })
            + (if self.has(4) { 4u8 } else { 0u8 }) + (if self.has(8) { 8u8 } else { 0u8 });
        if sum == 0 {
            0u8
        } else {
            (sum + 1) as u8
        }
    }

    /// Modifier parameter used by xterm-style and Kitty CSI sequences.
    ///
    /// Shift = 1, Alt = 2, Control = 4, Super = 8; the parameter is one more
    /// than the sum of the held modifiers, and 0 when none is held.
    pub fn xterm_param(&self) -> (p: u8)
        ensures
            p == self.spec_xterm_param(),
            p <= 16,
    {
        let mut sum: u8 = 0;
        if self.bits & 1 == 1 {
            sum = sum + 1;
        }
        if self.bits & 2 == 2 {
            sum = sum + 2;
        }
        if self.bits & 4 == 4 {
            sum = sum + 4;
        }
        if self.bits & 8 == 8 {
            sum = sum + 8;
        }
        if sum == 0 {
            0
        } else {
            sum + 1
        }
    }
}

impl core::ops::BitOr for Modifiers {
    type Output = Modifiers;

    fn bitor(self, rhs: Modifiers) -> (m: Modifiers) {
        Modifiers { bits: self.bits | rhs.bits }
    }
}

impl vstd::std_specs::ops::BitOrSpecImpl for Modifiers {
    open spec fn obeys_bitor_spec() -> bool {
        true
    }

    open spec fn bitor_req(self, rhs: Modifiers) -> bool {
        true
    }

    open spec fn bitor_spec(self, rhs: Modifiers) -> Modifiers {
        Modifiers { bits: self.bits | rhs.bits }
    }
}

impl core::ops::BitOrAssign for Modifiers {
    fn bitor_assign(&mut self, rhs: Modifiers)
        ensures
            final(self).bits == old(self).bits | rhs.bits,
    {
        self.bits = self.bits | rhs.bits;
    }
}

// ── Terminal modes ──

/// Terminal mode flags that affect key encoding.
#[derive(Debug, Clone, Copy, PartialEq, Eq, Structural, Hash, Default)]
pub struct TermMode {
    pub bits: u32,
}

impl TermMode {
    /// No mode set.
    pub fn empty() -> (m: TermMode)
        ensures
            m.bits == 0,
    {
        TermMode { bits: 0 }
    }

    /// Application cursor keys (DECCKM).
    pub fn app_cursor() -> (m: TermMode)
        ensures
            m.bits == 1,
    {
        TermMode { bits: 1 }
    }

    /// Application keypad (DECKPAM).
    pub fn app_keypad() -> (m: TermMode)
        ensures
            m.bits == 2,
    {
        TermMode { bits: 2 }
    }

    /// Line feed / new line mode (LNM): Enter sends CR LF.
    pub fn line_feed_new_line() -> (m: TermMode)
        ensures
            m.bits == 4,
    {
        TermMode { bits: 4 }
    }

    /// Kitty protocol: disambiguate escape codes.
    pub fn disambiguate_esc_codes() -> (m: TermMode)
        ensures
            m.bits == 8,
    {
        TermMode { bits: 8 }
    }

    /// Kitty protocol: report key event types (press / repeat / release).
    pub fn report_event_types() -> (m: TermMode)
        ensures
            m.bits == 16,
    {
        TermMode { bits: 16 }
    }

    /// Kitty protocol: report alternate keys.
    pub fn report_alternate_keys() -> (m: TermMode)
        ensures
            m.bits == 32,
    {
        TermMode { bits: 32 }
    }

    /// Kitty protocol: report all keys as escape codes.
    pub fn report_all_keys_as_esc() -> (m: TermMode)
        ensures
            m.bits == 64,
    {
        TermMode { bits: 64 }
    }

    /// Kitty protocol: report associated text.
    pub fn report_associated_text() -> (m: TermMode)
        ensures
            m.bits == 128,
    {
        TermMode { bits: 128 }
    }

    /// Whether the mode bit(s) `mask` are all set.
    pub open spec fn has(self, mask: u32) -> bool {
        self.bits & mask == mask
    }

    /// Whether every flag of `other` is set.
    pub fn contains(&self, other: TermMode) -> (b: bool)
        ensures
            b == self.has(other.bits),
    {
        self.bits & other.bits == other.bits
    }
}

impl core::ops::BitOr for TermMode {
    type Output = TermMode;

    fn bitor(self, rhs: TermMode) -> (m: TermMode) {
        TermMode { bits: self.bits | rhs.bits }
    }
}

impl vstd::std_specs::ops::BitOrSpecImpl for TermMode {
    open spec fn obeys_bitor_spec() -> bool {
        true
    }

    open spec fn bitor_req(self, rhs: TermMode) -> bool {
        true
    }

    open spec fn bitor_spec(self, rhs: TermMode) -> TermMode {
        TermMode { bits: self.bits | rhs.bits }
    }
}

// ── Keys ──

/// Named (non-character) keys read by the encoders and keybindings.
///
/// Keys that no encoder or binding distinguishes are collected in `Other`.
#[derive(Debug, Clone, Copy, PartialEq, Eq, Structural, Hash)]
pub enum NamedKey {
    Escape,
    Enter,
    Tab,
    Backspace,
    Space,
    Insert,
    Delete,
    ArrowLeft,
    ArrowRight,
    ArrowUp,
    ArrowDown,
    PageUp,
    PageDown,
    Home,
    End,
    CapsLock,
    ScrollLock,
    NumLock,
    PrintScreen,
    Pause,
    ContextMenu,
    Shift,
    Control,
    Alt,
    Super,
    F1,
    F2,
    F3,
    F4,
    F5,
    F6,
    F7,
    F8,
    F9,
    F10,
    F11,
    F12,
    F13,
    F14,
    F15,
    F16,
    F17,
    F18,
    F19,
    F20,
    F21,
    F22,
    F23,
    F24,
    F25,
    F26,
    F27,
    F28,
    F29,
    F30,
    F31,
    F32,
    F33,
    F34,
    F35,
    Other,
}

/// A logical key: a named key, the text of a character key, a dead key,
/// or a key the platform could not identify.
#[derive(Debug, Clone, PartialEq, Eq)]
pub enum Key {
    Named(NamedKey),
    Character(String),
    Dead(Option<char>),
    Unidentified,
}

/// Press, auto-repeat, or release.
#[derive(Debug, Clone, Copy, PartialEq, Eq, Structural)]
pub enum KeyEventType {
    Press,
    Repeat,
    Release,
}

/// Physical location of the key on the keyboard.
#[derive(Debug, Clone, Copy, PartialEq, Eq, Structural)]
pub enum KeyLocation {
    Standard,
    Left,
    Right,
    Numpad,
}

/// Everything an encoder needs to know about one key event.
pub struct KeyInput<'a> {
    pub key: &'a Key,
    pub mods: Modifiers,
    pub mode: TermMode,
    pub text: Option<&'a str>,
    pub location: KeyLocation,
    pub event_type: KeyEventType,
}

// ── Byte helpers ──

/// ASCII decimal digits of `n`, most significant first, without leading zeros.
pub open spec fn decimal(n: nat) -> Seq<u8>
    decreases n,
{
    if n < 10 {
        seq![(48 + n) as u8]
    } else {
        decimal(n / 10).push((48 + n % 10) as u8)
    }
}

/// Append the decimal digits of `n` to `out`.
pub fn push_decimal(out: &mut Vec<u8>, n: u32)
    ensures
        final(out)@ == old(out)@ + decimal(n as nat),
    decreases n,
{
    if n >= 10 {
        push_decimal(out, n / 10);
    }
    let d: u8 = (n % 10) as u8;
    out.push(48 + d);
    proof {
        if n >= 10 {
            assert(old(out)@ + decimal(n as nat) =~= old(out)@ + decimal((n / 10) as nat) + seq![(48 + n % 10) as u8]);
        }
    }
}

/// UTF-8 bytes of an optional text, empty when absent.
pub open spec fn text_bytes(text: Option<&str>) -> Seq<u8> {
    match text {
        Some(t) => t.spec_bytes(),
        None => Seq::empty(),
    }
}

/// Copy the UTF-8 bytes of an optional text into a new vector.
pub fn text_to_bytes(text: Option<&str>) -> (v: Vec<u8>)
    ensures
        v@ == text_bytes(text),
{
    match text {
        Some(t) => t.as_bytes_vec(),
        None => Vec::new(),
    }
}

// ── Dispatch ──

/// Mode bits of the Kitty keyboard protocol: disambiguate, report event
/// types, report alternate keys, report all keys, report associated text.
pub open spec fn kitty_flags() -> u32 {
    8u32 | 16u32 | 32u32 | 64u32 | 128u32
}

/// Whether any Kitty keyboard protocol flag is set.
pub open spec fn kitty_active(mode: TermMode) -> bool {
    mode.bits & kitty_flags() != 0
}

/// The bytes sent to the terminal for a key event: the Kitty encoding when
/// any Kitty flag is set; otherwise nothing for a release, the SS3 sequence
/// of a numpad key in application keypad mode, and the legacy encoding for
/// everything else.
pub open spec fn spec_encode_key(input: KeyInput) -> Seq<u8> {
    if kitty_active(input.mode) {
        spec_encode_kitty(input)
    } else if input.event_type == KeyEventType::Release {
        Seq::empty()
    } else if input.location == KeyLocation::Numpad && input.mode.has(2) && spec_numpad_code(*input.key) is Some {
        seq![27u8, 79u8, spec_numpad_code(*input.key)->0]
    } else {
        spec_encode_legacy(*input.key, input.mods, input.mode, input.text)
    }
}

/// Encode a key event for the terminal.
///
/// The Kitty keyboard protocol takes over as soon as any of its flags is
/// set. Otherwise releases send nothing, numpad keys in application keypad
/// mode send SS3 sequences, and all other keys use the legacy xterm
/// encoding.
pub fn encode_key(input: &KeyInput<'_>) -> (v: Vec<u8>)
    ensures
        v@ == spec_encode_key(*input),
{
    let kitty_mask: u32 = 8 | 16 | 32 | 64 | 128;
    if input.mode.bits & kitty_mask != 0 {
        return encode_kitty(input);
    }
    if matches!(input.event_type, KeyEventType::Release) {
        return Vec::new();
    }
    if matches!(input.location, KeyLocation::Numpad) && input.mode.contains(TermMode::app_keypad()) {
        if let Some(bytes) = encode_numpad_app(input.key) {
            return bytes;
        }
    }
    encode_legacy(input.key, input.mods, input.mode, input.text)
}

// ── Laws ──

/// The modifier parameter is one more than the modifier bits (Shift = 1,
/// Alt = 2, Control = 4, Super = 8), and 0 when no modifier is held.
pub proof fn law_xterm_param(m: Modifiers)
    requires
        m.bits < 16,
    ensures
        m.spec_xterm_param() == if m.bits == 0 { 0 } else { m.bits + 1 },
{
    let b = m.bits;
    assert(((if b & 1 == 1 { 1u8 } else { 0u8 }) + (if b & 2 == 2 { 2u8 } else { 0u8 }) + (if b & 4 == 4 { 4u8 } else { 0u8 })
        + (if b & 8 == 8 { 8u8 } else { 0u8 })) == b) by (bit_vector)
        requires
            b < 16,
    ;
}

/// Whenever a Kitty flag is set, the Kitty encoding is what is sent.
pub proof fn law_kitty_overrides_legacy(input: KeyInput)
    requires
        kitty_active(input.mode),
    ensures
        spec_encode_key(input) == spec_encode_kitty(input),
{
}

/// Releasing a named key sends nothing unless the Kitty protocol reports
/// event types.
pub proof fn law_named_release_needs_event_types(input: KeyInput)
    requires
        input.event_type == KeyEventType::Release,
        input.key is Named,
        !input.mode.has(16),
    ensures
        spec_encode_key(input) == Seq::<u8>::empty(),
{
}

} // verus!
