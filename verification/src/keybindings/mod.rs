//! Keybinding system — map key+modifiers to actions.

use vstd::prelude::*;

pub mod defaults;
pub mod laws;
pub mod parse;

use crate::key_encoding::{Key, Modifiers, NamedKey};
use crate::text::{str_lower, str_to_lowercase, string_from_chars};

pub use defaults::{default_bindings, macos_bindings};
pub use parse::{merge_bindings, merge_bindings_over, parse_action, parse_key, parse_mods, unescape_send_text, KeybindConfig};




verus! {

/// Identifies a key independent of modifiers.
#[derive(Debug, Clone, PartialEq, Eq, Hash)]
pub enum BindingKey {
    Named(NamedKey),
    /// Always stored lowercase.
    Character(String),
}

/// Mathematical view of a [`BindingKey`]: the character text as a sequence.
pub enum BindingKeyView {
    Named(NamedKey),
    Character(Seq<char>),
}

impl View for BindingKey {
    type V = BindingKeyView;

    open spec fn view(&self) -> BindingKeyView {
        match self {
            BindingKey::Named(n) => BindingKeyView::Named(*n),
            BindingKey::Character(s) => BindingKeyView::Character(s@),
        }
    }
}

/// Whether two binding keys are the same key.
pub fn binding_key_eq(a: &BindingKey, b: &BindingKey) -> (r: bool)
    ensures
        r == (a@ == b@),
{
    match (a, b) {
        (BindingKey::Named(x), BindingKey::Named(y)) => *x == *y,
        (BindingKey::Character(x), BindingKey::Character(y)) => *x == *y,
        _ => false,
    }
}

/// Action to execute when a keybinding matches, generic over the text of
/// `SendText` (a `String` at run time, a character sequence in contracts).
#[derive(Debug, Clone, PartialEq, Eq)]
pub enum ActionOf<S> {
    Copy,
    Paste,
    /// Copy if selection exists, else fall through to PTY.
    SmartCopy,
    /// Paste from clipboard (Ctrl+V without Shift).
    SmartPaste,
    NewTab,
    CloseTab,
    NextTab,
    PrevTab,
    ZoomIn,
    ZoomOut,
    ZoomReset,
    ScrollPageUp,
    ScrollPageDown,
    ScrollToTop,
    ScrollToBottom,
    OpenSearch,
    ReloadConfig,
    /// Navigate to previous prompt mark (OSC 133;A).
    PreviousPrompt,
    /// Navigate to next prompt mark (OSC 133;A).
    NextPrompt,
    /// Duplicate the current tab (spawn new tab with same CWD).
    DuplicateTab,
    /// Move the current tab into a new window.
    MoveTabToNewWindow,
    /// Toggle fullscreen mode.
    ToggleFullscreen,
    /// Enter vi-style mark/selection mode.
    EnterMarkMode,
    /// Split the focused pane, placing the new pane to the right.
    SplitRight,
    /// Split the focused pane, placing the new pane below.
    SplitDown,
    /// Move focus to the pane above.
    FocusPaneUp,
    /// Move focus to the pane below.
    FocusPaneDown,
    /// Move focus to the pane to the left.
    FocusPaneLeft,
    /// Move focus to the pane to the right.
    FocusPaneRight,
    /// Cycle to the next pane (sequential order).
    NextPane,
    /// Cycle to the previous pane (sequential order).
    PrevPane,
    /// Close the focused pane (not the entire tab).
    ClosePane,
    /// Resize the focused pane upward (push nearest horizontal border up).
    ResizePaneUp,
    /// Resize the focused pane downward (push nearest horizontal border down).
    ResizePaneDown,
    /// Resize the focused pane leftward (push nearest vertical border left).
    ResizePaneLeft,
    /// Resize the focused pane rightward (push nearest vertical border right).
    ResizePaneRight,
    /// Reset all split ratios to equal.
    EqualizePanes,
    /// Toggle zoom on the focused pane.
    ToggleZoom,
    /// Toggle a floating pane: spawn one if none exist, or focus the topmost.
    ToggleFloatingPane,
    /// Move the focused pane between floating and tiled.
    ToggleFloatTile,
    /// Undo the last split tree mutation.
    UndoSplit,
    /// Redo the last undone split tree mutation.
    RedoSplit,
    /// Send literal bytes to the PTY.
    SendText(S),
    /// Explicitly unbinds a default binding (config token `None`).
    Unbind,
}

/// Action to execute when a keybinding matches.
pub type Action = ActionOf<String>;

/// Mathematical view of an [`Action`].
pub type ActionView = ActionOf<Seq<char>>;

impl View for ActionOf<String> {
    type V = ActionOf<Seq<char>>;

    open spec fn view(&self) -> ActionOf<Seq<char>> {
        match self {
            ActionOf::Copy => ActionOf::Copy,
            ActionOf::Paste => ActionOf::Paste,
            ActionOf::SmartCopy => ActionOf::SmartCopy,
            ActionOf::SmartPaste => ActionOf::SmartPaste,
            ActionOf::NewTab => ActionOf::NewTab,
            ActionOf::CloseTab => ActionOf::CloseTab,
            ActionOf::NextTab => ActionOf::NextTab,
            ActionOf::PrevTab => ActionOf::PrevTab,
            ActionOf::ZoomIn => ActionOf::ZoomIn,
            ActionOf::ZoomOut => ActionOf::ZoomOut,
            ActionOf::ZoomReset => ActionOf::ZoomReset,
            ActionOf::ScrollPageUp => ActionOf::ScrollPageUp,
            ActionOf::ScrollPageDown => ActionOf::ScrollPageDown,
            ActionOf::ScrollToTop => ActionOf::ScrollToTop,
            ActionOf::ScrollToBottom => ActionOf::ScrollToBottom,
            ActionOf::OpenSearch => ActionOf::OpenSearch,
            ActionOf::ReloadConfig => ActionOf::ReloadConfig,
            ActionOf::PreviousPrompt => ActionOf::PreviousPrompt,
            ActionOf::NextPrompt => ActionOf::NextPrompt,
            ActionOf::DuplicateTab => ActionOf::DuplicateTab,
            ActionOf::MoveTabToNewWindow => ActionOf::MoveTabToNewWindow,
            ActionOf::ToggleFullscreen => ActionOf::ToggleFullscreen,
            ActionOf::EnterMarkMode => ActionOf::EnterMarkMode,
            ActionOf::SplitRight => ActionOf::SplitRight,
            ActionOf::SplitDown => ActionOf::SplitDown,
            ActionOf::FocusPaneUp => ActionOf::FocusPaneUp,
            ActionOf::FocusPaneDown => ActionOf::FocusPaneDown,
            ActionOf::FocusPaneLeft => ActionOf::FocusPaneLeft,
            ActionOf::FocusPaneRight => ActionOf::FocusPaneRight,
            ActionOf::NextPane => ActionOf::NextPane,
            ActionOf::PrevPane => ActionOf::PrevPane,
            ActionOf::ClosePane => ActionOf::ClosePane,
            ActionOf::ResizePaneUp => ActionOf::ResizePaneUp,
            ActionOf::ResizePaneDown => ActionOf::ResizePaneDown,
            ActionOf::ResizePaneLeft => ActionOf::ResizePaneLeft,
            ActionOf::ResizePaneRight => ActionOf::ResizePaneRight,
            ActionOf::EqualizePanes => ActionOf::EqualizePanes,
            ActionOf::ToggleZoom => ActionOf::ToggleZoom,
            ActionOf::ToggleFloatingPane => ActionOf::ToggleFloatingPane,
            ActionOf::ToggleFloatTile => ActionOf::ToggleFloatTile,
            ActionOf::UndoSplit => ActionOf::UndoSplit,
            ActionOf::RedoSplit => ActionOf::RedoSplit,
            ActionOf::SendText(s) => ActionOf::SendText(s@),
            ActionOf::Unbind => ActionOf::Unbind,
        }
    }
}

/// Canonical name of an action variant (the string that [`parse_action`] accepts).
pub open spec fn action_name(a: ActionView) -> Seq<char> {
    match a {
        ActionOf::Copy => "Copy"@,
        ActionOf::Paste => "Paste"@,
        ActionOf::SmartCopy => "SmartCopy"@,
        ActionOf::SmartPaste => "SmartPaste"@,
        ActionOf::NewTab => "NewTab"@,
        ActionOf::CloseTab => "CloseTab"@,
        ActionOf::NextTab => "NextTab"@,
        ActionOf::PrevTab => "PrevTab"@,
        ActionOf::ZoomIn => "ZoomIn"@,
        ActionOf::ZoomOut => "ZoomOut"@,
        ActionOf::ZoomReset => "ZoomReset"@,
        ActionOf::ScrollPageUp => "ScrollPageUp"@,
        ActionOf::ScrollPageDown => "ScrollPageDown"@,
        ActionOf::ScrollToTop => "ScrollToTop"@,
        ActionOf::ScrollToBottom => "ScrollToBottom"@,
        ActionOf::OpenSearch => "OpenSearch"@,
        ActionOf::ReloadConfig => "ReloadConfig"@,
        ActionOf::PreviousPrompt => "PreviousPrompt"@,
        ActionOf::NextPrompt => "NextPrompt"@,
        ActionOf::DuplicateTab => "DuplicateTab"@,
        ActionOf::MoveTabToNewWindow => "MoveTabToNewWindow"@,
        ActionOf::ToggleFullscreen => "ToggleFullscreen"@,
        ActionOf::EnterMarkMode => "EnterMarkMode"@,
        ActionOf::SplitRight => "SplitRight"@,
        ActionOf::SplitDown => "SplitDown"@,
        ActionOf::FocusPaneUp => "FocusPaneUp"@,
        ActionOf::FocusPaneDown => "FocusPaneDown"@,
        ActionOf::FocusPaneLeft => "FocusPaneLeft"@,
        ActionOf::FocusPaneRight => "FocusPaneRight"@,
        ActionOf::NextPane => "NextPane"@,
        ActionOf::PrevPane => "PrevPane"@,
        ActionOf::ClosePane => "ClosePane"@,
        ActionOf::ResizePaneUp => "ResizePaneUp"@,
        ActionOf::ResizePaneDown => "ResizePaneDown"@,
        ActionOf::ResizePaneLeft => "ResizePaneLeft"@,
        ActionOf::ResizePaneRight => "ResizePaneRight"@,
        ActionOf::EqualizePanes => "EqualizePanes"@,
        ActionOf::ToggleZoom => "ToggleZoom"@,
        ActionOf::ToggleFloatingPane => "ToggleFloatingPane"@,
        ActionOf::ToggleFloatTile => "ToggleFloatTile"@,
        ActionOf::UndoSplit => "UndoSplit"@,
        ActionOf::RedoSplit => "RedoSplit"@,
        ActionOf::SendText(_) => "SendText"@,
        ActionOf::Unbind => "None"@,
    }
}

impl ActionOf<String> {
    /// Canonical string for this action variant.
    ///
    /// Returns the same strings that [`parse_action`] accepts, ensuring
    /// round-trip consistency between `show-keys` output and TOML config.
    /// `SendText` is not covered — it carries dynamic payload.
    pub fn as_str(&self) -> (s: &'static str)
        ensures
            s@ == action_name(self@),
    {
        match self {
            ActionOf::Copy => "Copy",
            ActionOf::Paste => "Paste",
            ActionOf::SmartCopy => "SmartCopy",
            ActionOf::SmartPaste => "SmartPaste",
            ActionOf::NewTab => "NewTab",
            ActionOf::CloseTab => "CloseTab",
            ActionOf::NextTab => "NextTab",
            ActionOf::PrevTab => "PrevTab",
            ActionOf::ZoomIn => "ZoomIn",
            ActionOf::ZoomOut => "ZoomOut",
            ActionOf::ZoomReset => "ZoomReset",
            ActionOf::ScrollPageUp => "ScrollPageUp",
            ActionOf::ScrollPageDown => "ScrollPageDown",
            ActionOf::ScrollToTop => "ScrollToTop",
            ActionOf::ScrollToBottom => "ScrollToBottom",
            ActionOf::OpenSearch => "OpenSearch",
            ActionOf::ReloadConfig => "ReloadConfig",
            ActionOf::PreviousPrompt => "PreviousPrompt",
            ActionOf::NextPrompt => "NextPrompt",
            ActionOf::DuplicateTab => "DuplicateTab",
            ActionOf::MoveTabToNewWindow => "MoveTabToNewWindow",
            ActionOf::ToggleFullscreen => "ToggleFullscreen",
            ActionOf::EnterMarkMode => "EnterMarkMode",
            ActionOf::SplitRight => "SplitRight",
            ActionOf::SplitDown => "SplitDown",
            ActionOf::FocusPaneUp => "FocusPaneUp",
            ActionOf::FocusPaneDown => "FocusPaneDown",
            ActionOf::FocusPaneLeft => "FocusPaneLeft",
            ActionOf::FocusPaneRight => "FocusPaneRight",
            ActionOf::NextPane => "NextPane",
            ActionOf::PrevPane => "PrevPane",
            ActionOf::ClosePane => "ClosePane",
            ActionOf::ResizePaneUp => "ResizePaneUp",
            ActionOf::ResizePaneDown => "ResizePaneDown",
            ActionOf::ResizePaneLeft => "ResizePaneLeft",
            ActionOf::ResizePaneRight => "ResizePaneRight",
            ActionOf::EqualizePanes => "EqualizePanes",
            ActionOf::ToggleZoom => "ToggleZoom",
            ActionOf::ToggleFloatingPane => "ToggleFloatingPane",
            ActionOf::ToggleFloatTile => "ToggleFloatTile",
            ActionOf::UndoSplit => "UndoSplit",
            ActionOf::RedoSplit => "RedoSplit",
            ActionOf::SendText(_) => "SendText",
            ActionOf::Unbind => "None",
        }
    }
}

/// Whether an action is the unbinding marker.
pub fn is_unbind(a: &Action) -> (b: bool)
    ensures
        b == (a@ == ActionView::Unbind),
{
    match a {
        ActionOf::Unbind => true,
        _ => false,
    }
}

/// A resolved keybinding: key + modifiers -> action.
#[derive(Debug, Clone)]
pub struct KeyBinding {
    pub key: BindingKey,
    pub mods: Modifiers,
    pub action: Action,
}

/// Mathematical view of a [`KeyBinding`].
pub struct KeyBindingView {
    pub key: BindingKeyView,
    pub mods: Modifiers,
    pub action: ActionView,
}

impl View for KeyBinding {
    type V = KeyBindingView;

    open spec fn view(&self) -> KeyBindingView {
        KeyBindingView { key: self.key@, mods: self.mods, action: self.action@ }
    }
}

/// The views of a sequence of bindings.
pub open spec fn bindings_view(bs: Seq<KeyBinding>) -> Seq<KeyBindingView> {
    bs.map_values(|b: KeyBinding| b@)
}

/// The action of the first binding for `key` with exactly `mods`.
pub open spec fn spec_find_binding(bs: Seq<KeyBindingView>, key: BindingKeyView, mods: Modifiers) -> Option<ActionView>
    decreases bs.len(),
{
    if bs.len() == 0 {
        None
    } else if bs[0].key == key && bs[0].mods == mods {
        Some(bs[0].action)
    } else {
        spec_find_binding(bs.drop_first(), key, mods)
    }
}

/// Find the first binding matching the given key and modifiers.
///
/// Modifiers must match exactly: a superset or subset of the bound
/// modifiers does not match.
pub fn find_binding<'a>(bindings: &'a [KeyBinding], key: &BindingKey, mods: Modifiers) -> (r: Option<&'a Action>)
    ensures
        match r {
            Some(a) => spec_find_binding(bindings_view(bindings@), key@, mods) == Some(a@),
            None => spec_find_binding(bindings_view(bindings@), key@, mods) is None,
        },
{
    let mut i: usize = 0;
    proof {
        assert(bindings_view(bindings@).skip(0) =~= bindings_view(bindings@));
    }
    while i < bindings.len()
        invariant
            i <= bindings@.len(),
            spec_find_binding(bindings_view(bindings@), key@, mods) == spec_find_binding(
                bindings_view(bindings@).skip(i as int),
                key@,
                mods,
            ),
        decreases bindings.len() - i,
    {
        let b = &bindings[i];
        proof {
            let rest = bindings_view(bindings@).skip(i as int);
            assert(rest[0] == bindings@[i as int]@);
            assert(rest.drop_first() =~= bindings_view(bindings@).skip(i + 1));
        }
        if binding_key_eq(&b.key, key) && b.mods == mods {
            return Some(&b.action);
        }
        i = i + 1;
    }
    proof {
        assert(bindings_view(bindings@).skip(i as int) =~= Seq::<KeyBindingView>::empty());
    }
    None
}

/// A single ASCII character lowered to ASCII lowercase.
pub open spec fn ascii_lower(c: char) -> char {
    crate::text::ascii_lowercase(c)
}

/// The binding key of a logical key: named keys as-is, character keys
/// lowercased (ASCII text by ASCII rules, anything else by Unicode
/// lowercase), `None` for an empty lowercase text, dead keys and
/// unidentified keys.
pub open spec fn spec_key_to_binding_key(key: Key) -> Option<BindingKeyView> {
    match key {
        Key::Named(n) => Some(BindingKeyView::Named(n)),
        Key::Character(s) => if s@.len() == 1 && (s@[0] as u32) < 128 {
            Some(BindingKeyView::Character(seq![ascii_lower(s@[0])]))
        } else if str_lower(s@).len() == 0 {
            None
        } else {
            Some(BindingKeyView::Character(str_lower(s@)))
        },
        _ => None,
    }
}

/// Convert a logical key to a [`BindingKey`], normalizing characters to lowercase.
pub fn key_to_binding_key(key: &Key) -> (r: Option<BindingKey>)
    ensures
        match r {
            Some(k) => spec_key_to_binding_key(*key) == Some(k@),
            None => spec_key_to_binding_key(*key) is None,
        },
{
    match key {
        Key::Named(n) => Some(BindingKey::Named(*n)),
        Key::Character(s) => {
            let chars = crate::text::str_to_chars(s.as_str());
            if chars.len() == 1 && (chars[0] as u32) < 128 {
                let c = chars[0];
                let lower = if 'A' <= c && c <= 'Z' {
                    char_from_ascii((c as u32 + 32) as u8)
                } else {
                    c
                };
                let v = vec![lower];
                proof {
                    assert(v@ =~= seq![ascii_lower(chars@[0])]);
                }
                Some(BindingKey::Character(string_from_chars(&v)))
            } else {
                let l = str_to_lowercase(s.as_str());
                let lc = crate::text::str_to_chars(l.as_str());
                if lc.len() == 0 {
                    None
                } else {
                    Some(BindingKey::Character(l))
                }
            }
        },
        _ => None,
    }
}

/// The character with the given ASCII code.
pub fn char_from_ascii(b: u8) -> (c: char)
    requires
        b < 128,
    ensures
        c == (b as char),
        c as u32 == b as u32,
{
    b as char
}

} // verus!
