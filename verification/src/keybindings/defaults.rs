//! Built-in default keybindings.

use vstd::prelude::*;

use super::{bindings_view, ActionOf, BindingKey, BindingKeyView, KeyBinding, KeyBindingView};
use crate::key_encoding::{Modifiers, NamedKey};

verus! {

/// The view of one default binding.
pub open spec fn kb(key: BindingKeyView, bits: u8, action: super::ActionView) -> KeyBindingView {
    KeyBindingView { key, mods: Modifiers { bits }, action }
}

/// All built-in default keybindings, in lookup order.
///
/// More-specific modifier combos come first so that e.g.
/// Ctrl+Shift+C (Copy) is checked before Ctrl+C (`SmartCopy`).
pub open spec fn spec_default_bindings() -> Seq<KeyBindingView> {
    seq![
        kb(BindingKeyView::Character("c"@), 5u8, ActionOf::Copy),
        kb(BindingKeyView::Character("v"@), 5u8, ActionOf::Paste),
        kb(BindingKeyView::Named(NamedKey::Insert), 4u8, ActionOf::Copy),
        kb(BindingKeyView::Named(NamedKey::Insert), 1u8, ActionOf::Paste),
        kb(BindingKeyView::Character("r"@), 5u8, ActionOf::ReloadConfig),
        kb(BindingKeyView::Character("f"@), 5u8, ActionOf::OpenSearch),
        kb(BindingKeyView::Character("="@), 4u8, ActionOf::ZoomIn),
        kb(BindingKeyView::Character("+"@), 4u8, ActionOf::ZoomIn),
        kb(BindingKeyView::Character("-"@), 4u8, ActionOf::ZoomOut),
        kb(BindingKeyView::Character("0"@), 4u8, ActionOf::ZoomReset),
        kb(BindingKeyView::Character("t"@), 4u8, ActionOf::NewTab),
        kb(BindingKeyView::Character("w"@), 4u8, ActionOf::CloseTab),
        kb(BindingKeyView::Named(NamedKey::Tab), 4u8, ActionOf::NextTab),
        kb(BindingKeyView::Named(NamedKey::Tab), 5u8, ActionOf::PrevTab),
        kb(BindingKeyView::Named(NamedKey::PageUp), 1u8, ActionOf::ScrollPageUp),
        kb(BindingKeyView::Named(NamedKey::PageDown), 1u8, ActionOf::ScrollPageDown),
        kb(BindingKeyView::Named(NamedKey::Home), 1u8, ActionOf::ScrollToTop),
        kb(BindingKeyView::Named(NamedKey::End), 1u8, ActionOf::ScrollToBottom),
        kb(BindingKeyView::Named(NamedKey::ArrowUp), 5u8, ActionOf::PreviousPrompt),
        kb(BindingKeyView::Named(NamedKey::ArrowDown), 5u8, ActionOf::NextPrompt),
        kb(BindingKeyView::Named(NamedKey::Enter), 2u8, ActionOf::ToggleFullscreen),
        kb(BindingKeyView::Character("m"@), 5u8, ActionOf::EnterMarkMode),
        kb(BindingKeyView::Character("o"@), 5u8, ActionOf::SplitRight),
        kb(BindingKeyView::Character("e"@), 5u8, ActionOf::SplitDown),
        kb(BindingKeyView::Named(NamedKey::ArrowUp), 6u8, ActionOf::FocusPaneUp),
        kb(BindingKeyView::Named(NamedKey::ArrowDown), 6u8, ActionOf::FocusPaneDown),
        kb(BindingKeyView::Named(NamedKey::ArrowLeft), 6u8, ActionOf::FocusPaneLeft),
        kb(BindingKeyView::Named(NamedKey::ArrowRight), 6u8, ActionOf::FocusPaneRight),
        kb(BindingKeyView::Character("["@), 6u8, ActionOf::PrevPane),
        kb(BindingKeyView::Character("]"@), 6u8, ActionOf::NextPane),
        kb(BindingKeyView::Character("w"@), 5u8, ActionOf::ClosePane),
        kb(BindingKeyView::Named(NamedKey::ArrowUp), 7u8, ActionOf::ResizePaneUp),
        kb(BindingKeyView::Named(NamedKey::ArrowDown), 7u8, ActionOf::ResizePaneDown),
        kb(BindingKeyView::Named(NamedKey::ArrowLeft), 7u8, ActionOf::ResizePaneLeft),
        kb(BindingKeyView::Named(NamedKey::ArrowRight), 7u8, ActionOf::ResizePaneRight),
        kb(BindingKeyView::Character("="@), 5u8, ActionOf::EqualizePanes),
        kb(BindingKeyView::Character("z"@), 5u8, ActionOf::ToggleZoom),
        kb(BindingKeyView::Character("c"@), 4u8, ActionOf::SmartCopy),
        kb(BindingKeyView::Character("v"@), 4u8, ActionOf::SmartPaste),
    ]
}

/// Construct a `KeyBinding` from parts.
pub fn bind(key: BindingKey, mods: Modifiers, action: super::Action) -> (b: KeyBinding)
    ensures
        b.key == key,
        b.mods == mods,
        b.action == action,
{
    KeyBinding { key, mods, action }
}

/// A character binding key.
fn ch(s: &str) -> (k: BindingKey)
    ensures
        k@ == BindingKeyView::Character(s@),
{
    BindingKey::Character(s.to_owned())
}

/// All built-in default keybindings.
///
/// More-specific modifier combos come first so that e.g.
/// Ctrl+Shift+C (Copy) is checked before Ctrl+C (`SmartCopy`).
pub fn default_bindings() -> (v: Vec<KeyBinding>)
    ensures
        bindings_view(v@) == spec_default_bindings(),
{
    let ctrl = Modifiers::control();
    let shift = Modifiers::shift();
    let alt = Modifiers::alt();
    let cs = ctrl.union(shift);
    let ca = ctrl.union(alt);
    let cas = ca.union(shift);
    proof {
        assert(4u8 | 1u8 == 5u8) by (bit_vector);
        assert(4u8 | 2u8 == 6u8) by (bit_vector);
        assert(6u8 | 1u8 == 7u8) by (bit_vector);
    }
    let mut v: Vec<KeyBinding> = Vec::new();
    // Explicit copy / paste (Ctrl+Shift+C/V).
    v.push(bind(ch("c"), cs, ActionOf::Copy));
    v.push(bind(ch("v"), cs, ActionOf::Paste));
    // Ctrl+Insert / Shift+Insert.
    v.push(bind(BindingKey::Named(NamedKey::Insert), ctrl, ActionOf::Copy));
    v.push(bind(BindingKey::Named(NamedKey::Insert), shift, ActionOf::Paste));
    // Config / search.
    v.push(bind(ch("r"), cs, ActionOf::ReloadConfig));
    v.push(bind(ch("f"), cs, ActionOf::OpenSearch));
    // Zoom.
    v.push(bind(ch("="), ctrl, ActionOf::ZoomIn));
    v.push(bind(ch("+"), ctrl, ActionOf::ZoomIn));
    v.push(bind(ch("-"), ctrl, ActionOf::ZoomOut));
    v.push(bind(ch("0"), ctrl, ActionOf::ZoomReset));
    // Tabs.
    v.push(bind(ch("t"), ctrl, ActionOf::NewTab));
    v.push(bind(ch("w"), ctrl, ActionOf::CloseTab));
    v.push(bind(BindingKey::Named(NamedKey::Tab), ctrl, ActionOf::NextTab));
    v.push(bind(BindingKey::Named(NamedKey::Tab), cs, ActionOf::PrevTab));
    // Scrollback.
    v.push(bind(BindingKey::Named(NamedKey::PageUp), shift, ActionOf::ScrollPageUp));
    v.push(bind(BindingKey::Named(NamedKey::PageDown), shift, ActionOf::ScrollPageDown));
    v.push(bind(BindingKey::Named(NamedKey::Home), shift, ActionOf::ScrollToTop));
    v.push(bind(BindingKey::Named(NamedKey::End), shift, ActionOf::ScrollToBottom));
    // Prompt navigation.
    v.push(bind(BindingKey::Named(NamedKey::ArrowUp), cs, ActionOf::PreviousPrompt));
    v.push(bind(BindingKey::Named(NamedKey::ArrowDown), cs, ActionOf::NextPrompt));
    // Fullscreen (Alt+Enter).
    v.push(bind(BindingKey::Named(NamedKey::Enter), alt, ActionOf::ToggleFullscreen));
    // Mark mode (vi-style selection navigation).
    v.push(bind(ch("m"), cs, ActionOf::EnterMarkMode));
    // Pane splitting and navigation.
    v.push(bind(ch("o"), cs, ActionOf::SplitRight));
    v.push(bind(ch("e"), cs, ActionOf::SplitDown));
    v.push(bind(BindingKey::Named(NamedKey::ArrowUp), ca, ActionOf::FocusPaneUp));
    v.push(bind(BindingKey::Named(NamedKey::ArrowDown), ca, ActionOf::FocusPaneDown));
    v.push(bind(BindingKey::Named(NamedKey::ArrowLeft), ca, ActionOf::FocusPaneLeft));
    v.push(bind(BindingKey::Named(NamedKey::ArrowRight), ca, ActionOf::FocusPaneRight));
    v.push(bind(ch("["), ca, ActionOf::PrevPane));
    v.push(bind(ch("]"), ca, ActionOf::NextPane));
    v.push(bind(ch("w"), cs, ActionOf::ClosePane));
    // Pane resize (Ctrl+Alt+Shift+Arrow for resize, Ctrl+Shift+= for equalize).
    v.push(bind(BindingKey::Named(NamedKey::ArrowUp), cas, ActionOf::ResizePaneUp));
    v.push(bind(BindingKey::Named(NamedKey::ArrowDown), cas, ActionOf::ResizePaneDown));
    v.push(bind(BindingKey::Named(NamedKey::ArrowLeft), cas, ActionOf::ResizePaneLeft));
    v.push(bind(BindingKey::Named(NamedKey::ArrowRight), cas, ActionOf::ResizePaneRight));
    v.push(bind(ch("="), cs, ActionOf::EqualizePanes));
    // Pane zoom toggle.
    v.push(bind(ch("z"), cs, ActionOf::ToggleZoom));
    // Smart copy/paste (Ctrl+C/V without Shift) — after the Ctrl+Shift variants so those match first.
    v.push(bind(ch("c"), ctrl, ActionOf::SmartCopy));
    v.push(bind(ch("v"), ctrl, ActionOf::SmartPaste));
    proof {
        assert(bindings_view(v@) =~= spec_default_bindings());
    }
    v
}

/// The Cmd (Super) bindings added on macOS, matching its native
/// conventions, in lookup order.
pub open spec fn spec_macos_bindings() -> Seq<KeyBindingView> {
    seq![
        kb(BindingKeyView::Character("c"@), 8u8, ActionOf::Copy),
        kb(BindingKeyView::Character("v"@), 8u8, ActionOf::Paste),
        kb(BindingKeyView::Character("t"@), 8u8, ActionOf::NewTab),
        kb(BindingKeyView::Character("w"@), 8u8, ActionOf::CloseTab),
        kb(BindingKeyView::Character("n"@), 8u8, ActionOf::MoveTabToNewWindow),
        kb(BindingKeyView::Character("="@), 8u8, ActionOf::ZoomIn),
        kb(BindingKeyView::Character("+"@), 8u8, ActionOf::ZoomIn),
        kb(BindingKeyView::Character("-"@), 8u8, ActionOf::ZoomOut),
        kb(BindingKeyView::Character("0"@), 8u8, ActionOf::ZoomReset),
        kb(BindingKeyView::Character("f"@), 8u8, ActionOf::OpenSearch),
        kb(BindingKeyView::Named(NamedKey::ArrowUp), 8u8, ActionOf::ScrollToTop),
        kb(BindingKeyView::Named(NamedKey::ArrowDown), 8u8, ActionOf::ScrollToBottom),
        kb(BindingKeyView::Character("f"@), 12u8, ActionOf::ToggleFullscreen),
        kb(BindingKeyView::Named(NamedKey::Tab), 8u8, ActionOf::NextTab),
        kb(BindingKeyView::Named(NamedKey::Tab), 9u8, ActionOf::PrevTab),
    ]
}

/// The Cmd (Super) bindings that macOS adds after the defaults: Cmd+C/V
/// copy and paste, Cmd+T/W/N tabs and windows, Cmd+=/+/-/0 zoom, Cmd+F
/// search, Cmd+Up/Down scroll to top and bottom, Cmd+Ctrl+F native
/// fullscreen, and Cmd+Tab / Cmd+Shift+Tab tab cycling.
pub fn macos_bindings() -> (v: Vec<KeyBinding>)
    ensures
        bindings_view(v@) == spec_macos_bindings(),
{
    let ctrl = Modifiers::control();
    let shift = Modifiers::shift();
    let cmd = Modifiers::super_key();
    let cmd_shift = cmd.union(shift);
    let cmd_ctrl = cmd.union(ctrl);
    proof {
        assert(8u8 | 1u8 == 9u8) by (bit_vector);
        assert(8u8 | 4u8 == 12u8) by (bit_vector);
    }
    let mut v: Vec<KeyBinding> = Vec::new();
    v.push(bind(ch("c"), cmd, ActionOf::Copy));
    v.push(bind(ch("v"), cmd, ActionOf::Paste));
    v.push(bind(ch("t"), cmd, ActionOf::NewTab));
    v.push(bind(ch("w"), cmd, ActionOf::CloseTab));
    v.push(bind(ch("n"), cmd, ActionOf::MoveTabToNewWindow));
    v.push(bind(ch("="), cmd, ActionOf::ZoomIn));
    v.push(bind(ch("+"), cmd, ActionOf::ZoomIn));
    v.push(bind(ch("-"), cmd, ActionOf::ZoomOut));
    v.push(bind(ch("0"), cmd, ActionOf::ZoomReset));
    v.push(bind(ch("f"), cmd, ActionOf::OpenSearch));
    v.push(bind(BindingKey::Named(NamedKey::ArrowUp), cmd, ActionOf::ScrollToTop));
    v.push(bind(BindingKey::Named(NamedKey::ArrowDown), cmd, ActionOf::ScrollToBottom));
    // Cmd+Ctrl+F: native fullscreen (the green window button).
    v.push(bind(ch("f"), cmd_ctrl, ActionOf::ToggleFullscreen));
    v.push(bind(BindingKey::Named(NamedKey::Tab), cmd, ActionOf::NextTab));
    v.push(bind(BindingKey::Named(NamedKey::Tab), cmd_shift, ActionOf::PrevTab));
    proof {
        assert(bindings_view(v@) =~= spec_macos_bindings());
    }
    v
}

} // verus!
