//! Laws of the keybinding parser and merge.

use vstd::prelude::*;

use super::parse::{
    hex_val, spec_unescape, lemma_split_bar_nonempty, or_parts, spec_merge, spec_merge_one, spec_parse_action, spec_parse_key, spec_parse_mods, spec_without, split_bar, token_bits,
    trim, KeybindConfigView,
};
use super::defaults::{spec_default_bindings, spec_macos_bindings};
use super::{action_name, spec_find_binding, ActionOf, ActionView, BindingKeyView, KeyBindingView};
use crate::key_encoding::{Modifiers, NamedKey};

verus! {

/// A name that `spec_parse_action` reads as `SendText:` starts with `Se`.
proof fn lemma_send_text_prefix(s: Seq<char>)
    ensures
        s.len() >= 9 && s.take(9) == "SendText:"@ ==> s[0] == 'S' && s[1] == 'e',
{
    reveal_strlit("SendText:");
    if s.len() >= 9 && s.take(9) == "SendText:"@ {
        assert(s.take(9)[0] == s[0]);
        assert(s.take(9)[1] == s[1]);
    }
}

/// Every action except `SendText` parses back from its canonical name:
/// `parse_action(a.as_str()) == Some(a)`.
#[verifier::spinoff_prover]
pub proof fn law_action_name_roundtrip(a: ActionView)
    requires
        !(a is SendText),
    ensures
        spec_parse_action(action_name(a)) == Some(a),
{
    lemma_send_text_prefix(action_name(a));
    // Names of different lengths differ; a name is told apart from an
    // earlier one of the same length by their first differing character.
    reveal_strlit("None");
    reveal_strlit("Copy");
    reveal_strlit("Paste");
    reveal_strlit("SmartCopy");
    reveal_strlit("SmartPaste");
    reveal_strlit("NewTab");
    reveal_strlit("CloseTab");
    reveal_strlit("NextTab");
    reveal_strlit("PrevTab");
    reveal_strlit("ZoomIn");
    reveal_strlit("ZoomOut");
    reveal_strlit("ZoomReset");
    reveal_strlit("ScrollPageUp");
    reveal_strlit("ScrollPageDown");
    reveal_strlit("ScrollToTop");
    reveal_strlit("ScrollToBottom");
    reveal_strlit("OpenSearch");
    reveal_strlit("ReloadConfig");
    reveal_strlit("PreviousPrompt");
    reveal_strlit("NextPrompt");
    reveal_strlit("DuplicateTab");
    reveal_strlit("MoveTabToNewWindow");
    reveal_strlit("ToggleFullscreen");
    reveal_strlit("EnterMarkMode");
    reveal_strlit("SplitRight");
    reveal_strlit("SplitDown");
    reveal_strlit("FocusPaneUp");
    reveal_strlit("FocusPaneDown");
    reveal_strlit("FocusPaneLeft");
    reveal_strlit("FocusPaneRight");
    reveal_strlit("NextPane");
    reveal_strlit("PrevPane");
    reveal_strlit("ClosePane");
    reveal_strlit("ResizePaneUp");
    reveal_strlit("ResizePaneDown");
    reveal_strlit("ResizePaneLeft");
    reveal_strlit("ResizePaneRight");
    reveal_strlit("EqualizePanes");
    reveal_strlit("ToggleZoom");
    reveal_strlit("ToggleFloatingPane");
    reveal_strlit("ToggleFloatTile");
    reveal_strlit("UndoSplit");
    reveal_strlit("RedoSplit");
    match a {
        ActionOf::Copy => assert(spec_parse_action(action_name(a)) == Some(a)),
        ActionOf::Paste => assert(spec_parse_action(action_name(a)) == Some(a)),
        ActionOf::SmartCopy => assert(spec_parse_action(action_name(a)) == Some(a)),
        ActionOf::SmartPaste => assert(spec_parse_action(action_name(a)) == Some(a)),
        ActionOf::NewTab => assert(spec_parse_action(action_name(a)) == Some(a)),
        ActionOf::CloseTab => assert(spec_parse_action(action_name(a)) == Some(a)),
        ActionOf::NextTab => assert(spec_parse_action(action_name(a)) == Some(a)),
        ActionOf::PrevTab => assert(spec_parse_action(action_name(a)) == Some(a)) by {
            assert("PrevTab"@[0] != "NextTab"@[0]);
        },
        ActionOf::ZoomIn => assert(spec_parse_action(action_name(a)) == Some(a)) by {
            assert("ZoomIn"@[0] != "NewTab"@[0]);
        },
        ActionOf::ZoomOut => assert(spec_parse_action(action_name(a)) == Some(a)) by {
            assert("ZoomOut"@[0] != "NextTab"@[0]);
            assert("ZoomOut"@[0] != "PrevTab"@[0]);
        },
        ActionOf::ZoomReset => assert(spec_parse_action(action_name(a)) == Some(a)) by {
            assert("ZoomReset"@[0] != "SmartCopy"@[0]);
        },
        ActionOf::ScrollPageUp => assert(spec_parse_action(action_name(a)) == Some(a)),
        ActionOf::ScrollPageDown => assert(spec_parse_action(action_name(a)) == Some(a)),
        ActionOf::ScrollToTop => assert(spec_parse_action(action_name(a)) == Some(a)),
        ActionOf::ScrollToBottom => assert(spec_parse_action(action_name(a)) == Some(a)) by {
            assert("ScrollToBottom"@[6] != "ScrollPageDown"@[6]);
        },
        ActionOf::OpenSearch => assert(spec_parse_action(action_name(a)) == Some(a)) by {
            assert("OpenSearch"@[0] != "SmartPaste"@[0]);
        },
        ActionOf::ReloadConfig => assert(spec_parse_action(action_name(a)) == Some(a)) by {
            assert("ReloadConfig"@[0] != "ScrollPageUp"@[0]);
        },
        ActionOf::PreviousPrompt => assert(spec_parse_action(action_name(a)) == Some(a)) by {
            assert("PreviousPrompt"@[0] != "ScrollPageDown"@[0]);
            assert("PreviousPrompt"@[0] != "ScrollToBottom"@[0]);
        },
        ActionOf::NextPrompt => assert(spec_parse_action(action_name(a)) == Some(a)) by {
            assert("NextPrompt"@[0] != "SmartPaste"@[0]);
            assert("NextPrompt"@[0] != "OpenSearch"@[0]);
        },
        ActionOf::DuplicateTab => assert(spec_parse_action(action_name(a)) == Some(a)) by {
            assert("DuplicateTab"@[0] != "ScrollPageUp"@[0]);
            assert("DuplicateTab"@[0] != "ReloadConfig"@[0]);
        },
        ActionOf::MoveTabToNewWindow => assert(spec_parse_action(action_name(a)) == Some(a)),
        ActionOf::ToggleFullscreen => assert(spec_parse_action(action_name(a)) == Some(a)),
        ActionOf::EnterMarkMode => assert(spec_parse_action(action_name(a)) == Some(a)),
        ActionOf::SplitRight => assert(spec_parse_action(action_name(a)) == Some(a)) by {
            assert("SplitRight"@[1] != "SmartPaste"@[1]);
            assert("SplitRight"@[0] != "OpenSearch"@[0]);
            assert("SplitRight"@[0] != "NextPrompt"@[0]);
        },
        ActionOf::SplitDown => assert(spec_parse_action(action_name(a)) == Some(a)) by {
            assert("SplitDown"@[1] != "SmartCopy"@[1]);
            assert("SplitDown"@[0] != "ZoomReset"@[0]);
        },
        ActionOf::FocusPaneUp => assert(spec_parse_action(action_name(a)) == Some(a)) by {
            assert("FocusPaneUp"@[0] != "ScrollToTop"@[0]);
        },
        ActionOf::FocusPaneDown => assert(spec_parse_action(action_name(a)) == Some(a)) by {
            assert("FocusPaneDown"@[0] != "EnterMarkMode"@[0]);
        },
        ActionOf::FocusPaneLeft => assert(spec_parse_action(action_name(a)) == Some(a)) by {
            assert("FocusPaneLeft"@[0] != "EnterMarkMode"@[0]);
            assert("FocusPaneLeft"@[9] != "FocusPaneDown"@[9]);
        },
        ActionOf::FocusPaneRight => assert(spec_parse_action(action_name(a)) == Some(a)) by {
            assert("FocusPaneRight"@[0] != "ScrollPageDown"@[0]);
            assert("FocusPaneRight"@[0] != "ScrollToBottom"@[0]);
            assert("FocusPaneRight"@[0] != "PreviousPrompt"@[0]);
        },
        ActionOf::NextPane => assert(spec_parse_action(action_name(a)) == Some(a)) by {
            assert("NextPane"@[0] != "CloseTab"@[0]);
        },
        ActionOf::PrevPane => assert(spec_parse_action(action_name(a)) == Some(a)) by {
            assert("PrevPane"@[0] != "CloseTab"@[0]);
            assert("PrevPane"@[0] != "NextPane"@[0]);
        },
        ActionOf::ClosePane => assert(spec_parse_action(action_name(a)) == Some(a)) by {
            assert("ClosePane"@[0] != "SmartCopy"@[0]);
            assert("ClosePane"@[0] != "ZoomReset"@[0]);
            assert("ClosePane"@[0] != "SplitDown"@[0]);
        },
        ActionOf::ResizePaneUp => assert(spec_parse_action(action_name(a)) == Some(a)) by {
            assert("ResizePaneUp"@[0] != "ScrollPageUp"@[0]);
            assert("ResizePaneUp"@[2] != "ReloadConfig"@[2]);
            assert("ResizePaneUp"@[0] != "DuplicateTab"@[0]);
        },
        ActionOf::ResizePaneDown => assert(spec_parse_action(action_name(a)) == Some(a)) by {
            assert("ResizePaneDown"@[0] != "ScrollPageDown"@[0]);
            assert("ResizePaneDown"@[0] != "ScrollToBottom"@[0]);
            assert("ResizePaneDown"@[0] != "PreviousPrompt"@[0]);
            assert("ResizePaneDown"@[0] != "FocusPaneRight"@[0]);
        },
        ActionOf::ResizePaneLeft => assert(spec_parse_action(action_name(a)) == Some(a)) by {
            assert("ResizePaneLeft"@[0] != "ScrollPageDown"@[0]);
            assert("ResizePaneLeft"@[0] != "ScrollToBottom"@[0]);
            assert("ResizePaneLeft"@[0] != "PreviousPrompt"@[0]);
            assert("ResizePaneLeft"@[0] != "FocusPaneRight"@[0]);
            assert("ResizePaneLeft"@[10] != "ResizePaneDown"@[10]);
        },
        ActionOf::ResizePaneRight => assert(spec_parse_action(action_name(a)) == Some(a)),
        ActionOf::EqualizePanes => assert(spec_parse_action(action_name(a)) == Some(a)) by {
            assert("EqualizePanes"@[1] != "EnterMarkMode"@[1]);
            assert("EqualizePanes"@[0] != "FocusPaneDown"@[0]);
            assert("EqualizePanes"@[0] != "FocusPaneLeft"@[0]);
        },
        ActionOf::ToggleZoom => assert(spec_parse_action(action_name(a)) == Some(a)) by {
            assert("ToggleZoom"@[0] != "SmartPaste"@[0]);
            assert("ToggleZoom"@[0] != "OpenSearch"@[0]);
            assert("ToggleZoom"@[0] != "NextPrompt"@[0]);
            assert("ToggleZoom"@[0] != "SplitRight"@[0]);
        },
        ActionOf::ToggleFloatingPane => assert(spec_parse_action(action_name(a)) == Some(a)) by {
            assert("ToggleFloatingPane"@[0] != "MoveTabToNewWindow"@[0]);
        },
        ActionOf::ToggleFloatTile => assert(spec_parse_action(action_name(a)) == Some(a)) by {
            assert("ToggleFloatTile"@[0] != "ResizePaneRight"@[0]);
        },
        ActionOf::UndoSplit => assert(spec_parse_action(action_name(a)) == Some(a)) by {
            assert("UndoSplit"@[0] != "SmartCopy"@[0]);
            assert("UndoSplit"@[0] != "ZoomReset"@[0]);
            assert("UndoSplit"@[0] != "SplitDown"@[0]);
            assert("UndoSplit"@[0] != "ClosePane"@[0]);
        },
        ActionOf::RedoSplit => assert(spec_parse_action(action_name(a)) == Some(a)) by {
            assert("RedoSplit"@[0] != "SmartCopy"@[0]);
            assert("RedoSplit"@[0] != "ZoomReset"@[0]);
            assert("RedoSplit"@[0] != "SplitDown"@[0]);
            assert("RedoSplit"@[0] != "ClosePane"@[0]);
            assert("RedoSplit"@[0] != "UndoSplit"@[0]);
        },
        ActionOf::Unbind => assert(spec_parse_action(action_name(a)) == Some(a)) by {
            assert("None"@[0] != "Copy"@[0]);
        },
        _ => {},
    }
}

proof fn lemma_find_push(bs: Seq<KeyBindingView>, x: KeyBindingView, key: BindingKeyView, mods: Modifiers)
    ensures
        spec_find_binding(bs.push(x), key, mods) == (if spec_find_binding(bs, key, mods) is Some {
            spec_find_binding(bs, key, mods)
        } else if x.key == key && x.mods == mods {
            Some(x.action)
        } else {
            None
        }),
    decreases bs.len(),
{
    assert(bs.push(x).len() > 0);
    if bs.len() > 0 {
        assert(bs.push(x)[0] == bs[0]);
        assert(bs.push(x).drop_first() =~= bs.drop_first().push(x));
        lemma_find_push(bs.drop_first(), x, key, mods);
    } else {
        assert(bs.push(x)[0] == x);
        assert(bs.push(x).drop_first() =~= Seq::<KeyBindingView>::empty());
        assert(spec_find_binding(Seq::<KeyBindingView>::empty(), key, mods) is None);
        assert(spec_find_binding(bs, key, mods) is None);
    }
}

/// Removing the bindings for one key and modifier set leaves every other
/// lookup unchanged and makes that lookup fail.
pub proof fn law_find_without(
    bs: Seq<KeyBindingView>,
    key: BindingKeyView,
    mods: Modifiers,
    k2: BindingKeyView,
    m2: Modifiers,
)
    ensures
        spec_find_binding(spec_without(bs, key, mods), k2, m2) == (if k2 == key && m2 == mods {
            None
        } else {
            spec_find_binding(bs, k2, m2)
        }),
    decreases bs.len(),
{
    if bs.len() > 0 {
        let init = bs.drop_last();
        law_find_without(init, key, mods, k2, m2);
        assert(init.push(bs.last()) =~= bs);
        lemma_find_push(init, bs.last(), k2, m2);
        if !(bs.last().key == key && bs.last().mods == mods) {
            lemma_find_push(spec_without(init, key, mods), bs.last(), k2, m2);
        }
    }
}

/// Whether a user entry parses to a binding for `key` with exactly `mods`.
pub open spec fn entry_binds(cfg: KeybindConfigView, key: BindingKeyView, mods: Modifiers) -> bool {
    &&& spec_parse_key(cfg.key) == Some(key)
    &&& spec_parse_action(cfg.action) is Some
    &&& spec_parse_mods(cfg.mods) == mods
}

/// What a user entry makes a lookup return: its action, or nothing for `None`.
pub open spec fn entry_result(cfg: KeybindConfigView) -> Option<ActionView> {
    if spec_parse_action(cfg.action)->0 == ActionView::Unbind {
        None
    } else {
        Some(spec_parse_action(cfg.action)->0)
    }
}

/// Applying one user entry overrides the lookup of exactly the key and
/// modifiers it names (with its action, or with nothing for `None`) and
/// leaves every other lookup unchanged.
pub proof fn law_merge_entry(bs: Seq<KeyBindingView>, cfg: KeybindConfigView, key: BindingKeyView, mods: Modifiers)
    ensures
        spec_find_binding(spec_merge_one(bs, cfg), key, mods) == (if entry_binds(cfg, key, mods) {
            entry_result(cfg)
        } else {
            spec_find_binding(bs, key, mods)
        }),
{
    match (spec_parse_key(cfg.key), spec_parse_action(cfg.action)) {
        (Some(k), Some(a)) => {
            let m = spec_parse_mods(cfg.mods);
            let kept = spec_without(bs, k, m);
            law_find_without(bs, k, m, key, mods);
            if a != ActionView::Unbind {
                lemma_find_push(kept, KeyBindingView { key: k, mods: m, action: a }, key, mods);
            }
        },
        _ => {},
    }
}

/// The last user entry that binds `key` with exactly `mods`, if any, as the
/// lookup result it imposes.
pub open spec fn last_override(user: Seq<KeybindConfigView>, key: BindingKeyView, mods: Modifiers) -> Option<Option<ActionView>>
    decreases user.len(),
{
    if user.len() == 0 {
        None
    } else if entry_binds(user.last(), key, mods) {
        Some(entry_result(user.last()))
    } else {
        last_override(user.drop_last(), key, mods)
    }
}

/// After merging, looking up a key and modifier set gives what the last user
/// entry for it says (its action, or nothing for `None`); keys and modifier
/// sets that no valid user entry names keep their default binding.
pub proof fn law_merge_lookup(
    defaults: Seq<KeyBindingView>,
    user: Seq<KeybindConfigView>,
    key: BindingKeyView,
    mods: Modifiers,
)
    ensures
        spec_find_binding(spec_merge(defaults, user), key, mods) == match last_override(user, key, mods) {
            Some(r) => r,
            None => spec_find_binding(defaults, key, mods),
        },
    decreases user.len(),
{
    if user.len() > 0 {
        law_merge_lookup(defaults, user.drop_last(), key, mods);
        law_merge_entry(spec_merge(defaults, user.drop_last()), user.last(), key, mods);
    }
}

/// Splitting at a `|` splits the parts: the parts of `a|b` are those of `a`
/// followed by those of `b`.
proof fn lemma_split_bar_join(a: Seq<char>, b: Seq<char>)
    ensures
        split_bar(a + seq!['|'] + b) == split_bar(a) + split_bar(b),
    decreases b.len(),
{
    let s = a + seq!['|'] + b;
    if b.len() == 0 {
        assert(s.drop_last() =~= a);
        assert(split_bar(a).push(Seq::<char>::empty()) =~= split_bar(a) + split_bar(b));
    } else {
        let b0 = b.drop_last();
        lemma_split_bar_join(a, b0);
        assert(s.drop_last() =~= a + seq!['|'] + b0);
        assert(s.last() == b.last());
        let pa = split_bar(a);
        let pb0 = split_bar(b0);
        lemma_split_bar_nonempty(b0);
        if b.last() == '|' {
            assert((pa + pb0).push(Seq::<char>::empty()) =~= pa + pb0.push(Seq::<char>::empty()));
        } else {
            let r = pa + pb0;
            assert(r.update(r.len() - 1, r.last().push(b.last())) =~= pa + pb0.update(
                pb0.len() - 1,
                pb0.last().push(b.last()),
            ));
        }
    }
}

/// The bits of two lists of parts together are the union of their bits.
proof fn lemma_or_parts_concat(p: Seq<Seq<char>>, q: Seq<Seq<char>>)
    ensures
        or_parts(p + q) == or_parts(p) | or_parts(q),
    decreases q.len(),
{
    if q.len() == 0 {
        assert(p + q =~= p);
        let x = or_parts(p);
        assert(x | 0u8 == x) by (bit_vector);
    } else {
        lemma_or_parts_concat(p, q.drop_last());
        assert((p + q).drop_last() =~= p + q.drop_last());
        assert((p + q).last() == q.last());
        let x = or_parts(p);
        let y = or_parts(q.drop_last());
        let t = token_bits(trim(q.last()));
        assert((x | y) | t == x | (y | t)) by (bit_vector);
    }
}

/// Only the four modifier bits can be named by parts.
proof fn lemma_or_parts_bits(p: Seq<Seq<char>>)
    ensures
        or_parts(p) & 0xF0u8 == 0,
    decreases p.len(),
{
    if p.len() > 0 {
        lemma_or_parts_bits(p.drop_last());
        let x = or_parts(p.drop_last());
        let t = token_bits(trim(p.last()));
        assert(t == 0u8 || t == 1u8 || t == 2u8 || t == 4u8 || t == 8u8);
        assert(x & 0xF0u8 == 0 && (t == 0u8 || t == 1u8 || t == 2u8 || t == 4u8 || t == 8u8) ==> (x | t) & 0xF0u8 == 0)
            by (bit_vector);
    } else {
        assert(0u8 & 0xF0u8 == 0) by (bit_vector);
    }
}

/// Joining two modifier strings with `|` names the union of their
/// modifiers, so repeating or reordering modifiers names the same set; and
/// no bit outside Shift, Alt, Control and Super is ever set.
pub proof fn law_parse_mods_join(a: Seq<char>, b: Seq<char>)
    ensures
        spec_parse_mods(a + seq!['|'] + b).bits == spec_parse_mods(a).bits | spec_parse_mods(b).bits,
        spec_parse_mods(a + seq!['|'] + b) == spec_parse_mods(b + seq!['|'] + a),
        spec_parse_mods(a + seq!['|'] + a) == spec_parse_mods(a),
        spec_parse_mods(a).bits & 0xF0u8 == 0,
{
    lemma_split_bar_join(a, b);
    lemma_or_parts_concat(split_bar(a), split_bar(b));
    lemma_split_bar_join(b, a);
    lemma_or_parts_concat(split_bar(b), split_bar(a));
    lemma_split_bar_join(a, a);
    lemma_or_parts_concat(split_bar(a), split_bar(a));
    lemma_or_parts_bits(split_bar(a));
    let x = spec_parse_mods(a).bits;
    let y = spec_parse_mods(b).bits;
    assert(x | y == y | x) by (bit_vector);
    assert(x | x == x) by (bit_vector);
}

/// Whether two bindings are for the same key and modifier set.
pub open spec fn same_slot(a: KeyBindingView, b: KeyBindingView) -> bool {
    a.key == b.key && a.mods == b.mods
}

/// Whether a binding table holds at most one binding per key and modifier
/// set.
pub open spec fn one_per_slot(bs: Seq<KeyBindingView>) -> bool {
    forall|i: int, j: int| 0 <= i < j < bs.len() ==> !same_slot(#[trigger] bs[i], #[trigger] bs[j])
}

/// Removing a key and modifier set keeps only bindings of the table, none
/// for that key and modifier set, and keeps the table's one binding per
/// slot.
proof fn lemma_without_slots(bs: Seq<KeyBindingView>, key: BindingKeyView, mods: Modifiers)
    ensures
        forall|x: KeyBindingView| #[trigger] spec_without(bs, key, mods).contains(x) ==> bs.contains(x) && !(x.key == key
            && x.mods == mods),
        one_per_slot(bs) ==> one_per_slot(spec_without(bs, key, mods)),
    decreases bs.len(),
{
    if bs.len() > 0 {
        let init = bs.drop_last();
        let x = bs.last();
        lemma_without_slots(init, key, mods);
        let w0 = spec_without(init, key, mods);
        let w = spec_without(bs, key, mods);
        assert forall|y: KeyBindingView| #[trigger] w.contains(y) implies bs.contains(y) && !(y.key == key && y.mods == mods) by {
            if w0.contains(y) {
                let k = choose|k: int| 0 <= k < init.len() && init[k] == y;
                assert(bs[k] == y);
            } else {
                assert(w == w0.push(x));
                let k = choose|k: int| 0 <= k < w.len() && w[k] == y;
                if k < w0.len() {
                    assert(w0[k] == y);
                    assert(w0.contains(y));
                }
                assert(bs[bs.len() - 1] == y);
            }
        }
        if one_per_slot(bs) {
            assert(one_per_slot(init)) by {
                assert forall|i: int, j: int| 0 <= i < j < init.len() implies !same_slot(#[trigger] init[i], #[trigger] init[j]) by {
                    assert(bs[i] == init[i] && bs[j] == init[j]);
                }
            }
            if !(x.key == key && x.mods == mods) {
                assert forall|i: int, j: int| 0 <= i < j < w.len() implies !same_slot(#[trigger] w[i], #[trigger] w[j]) by {
                    if j == w.len() - 1 {
                        assert(w[j] == x);
                        assert(w0[i] == w[i]);
                        assert(w0.contains(w[i]));
                        let k = choose|k: int| 0 <= k < init.len() && init[k] == w[i];
                        assert(bs[k] == init[k] && bs[bs.len() - 1] == x);
                    } else {
                        assert(w0[i] == w[i] && w0[j] == w[j]);
                    }
                }
            }
        }
    }
}

/// Applying one user entry keeps one binding per key and modifier set.
proof fn lemma_merge_one_slots(bs: Seq<KeyBindingView>, cfg: KeybindConfigView)
    requires
        one_per_slot(bs),
    ensures
        one_per_slot(spec_merge_one(bs, cfg)),
{
    match (spec_parse_key(cfg.key), spec_parse_action(cfg.action)) {
        (Some(k), Some(a)) => {
            let m = spec_parse_mods(cfg.mods);
            let kept = spec_without(bs, k, m);
            lemma_without_slots(bs, k, m);
            if a != ActionView::Unbind {
                let nb = KeyBindingView { key: k, mods: m, action: a };
                let r = kept.push(nb);
                assert forall|i: int, j: int| 0 <= i < j < r.len() implies !same_slot(#[trigger] r[i], #[trigger] r[j]) by {
                    assert(r[i] == kept[i]);
                    if j == r.len() - 1 {
                        assert(kept.contains(kept[i]));
                    } else {
                        assert(r[j] == kept[j]);
                    }
                }
            }
        },
        _ => {},
    }
}

/// Merging user entries into a table with one binding per key and modifier
/// set keeps one binding per key and modifier set.
pub proof fn law_merge_one_per_slot(bs: Seq<KeyBindingView>, user: Seq<KeybindConfigView>)
    requires
        one_per_slot(bs),
    ensures
        one_per_slot(spec_merge(bs, user)),
    decreases user.len(),
{
    if user.len() > 0 {
        law_merge_one_per_slot(bs, user.drop_last());
        lemma_merge_one_slots(spec_merge(bs, user.drop_last()), user.last());
    }
}

/// Whether none of the first `n` bindings of `s` is for the same key and
/// modifiers as `x`.
spec fn slot_free_upto(s: Seq<KeyBindingView>, n: nat, x: KeyBindingView) -> bool
    decreases n,
{
    n == 0 || (!same_slot(s[n - 1], x) && slot_free_upto(s, (n - 1) as nat, x))
}

/// Whether each of the first `n` bindings of `s` has a key and modifier
/// set of its own.
spec fn distinct_upto(s: Seq<KeyBindingView>, n: nat) -> bool
    decreases n,
{
    n == 0 || (distinct_upto(s, (n - 1) as nat) && slot_free_upto(s, (n - 1) as nat, s[n - 1]))
}

proof fn lemma_slot_free_upto(s: Seq<KeyBindingView>, n: nat, x: KeyBindingView)
    requires
        slot_free_upto(s, n, x),
    ensures
        forall|i: int| 0 <= i < n ==> !same_slot(#[trigger] s[i], x),
    decreases n,
{
    if n > 0 {
        lemma_slot_free_upto(s, (n - 1) as nat, x);
    }
}

proof fn lemma_distinct_upto(s: Seq<KeyBindingView>, n: nat)
    requires
        distinct_upto(s, n),
    ensures
        forall|i: int, j: int| 0 <= i < j < n ==> !same_slot(#[trigger] s[i], #[trigger] s[j]),
    decreases n,
{
    if n > 0 {
        lemma_distinct_upto(s, (n - 1) as nat);
        lemma_slot_free_upto(s, (n - 1) as nat, s[n - 1]);
    }
}

/// The default table has one binding per key and modifier set.
#[verifier::rlimit(100)]
pub proof fn lemma_defaults_one_per_slot()
    ensures
        one_per_slot(spec_default_bindings()),
{
    reveal_strlit("+");
    reveal_strlit("-");
    reveal_strlit("0");
    reveal_strlit("=");
    reveal_strlit("[");
    reveal_strlit("]");
    reveal_strlit("c");
    reveal_strlit("e");
    reveal_strlit("f");
    reveal_strlit("m");
    reveal_strlit("o");
    reveal_strlit("r");
    reveal_strlit("t");
    reveal_strlit("v");
    reveal_strlit("w");
    reveal_strlit("z");
    assert("+"@[0] != "-"@[0]
        && "+"@[0] != "0"@[0]
        && "+"@[0] != "="@[0]
        && "+"@[0] != "c"@[0]
        && "+"@[0] != "t"@[0]
        && "+"@[0] != "v"@[0]
        && "+"@[0] != "w"@[0]);
    assert("-"@[0] != "0"@[0]
        && "-"@[0] != "="@[0]
        && "-"@[0] != "c"@[0]
        && "-"@[0] != "t"@[0]
        && "-"@[0] != "v"@[0]
        && "-"@[0] != "w"@[0]);
    assert("0"@[0] != "="@[0] && "0"@[0] != "c"@[0] && "0"@[0] != "t"@[0] && "0"@[0] != "v"@[0] && "0"@[0] != "w"@[0]);
    assert("="@[0] != "c"@[0]
        && "="@[0] != "e"@[0]
        && "="@[0] != "f"@[0]
        && "="@[0] != "m"@[0]
        && "="@[0] != "o"@[0]
        && "="@[0] != "r"@[0]
        && "="@[0] != "t"@[0]
        && "="@[0] != "v"@[0]
        && "="@[0] != "w"@[0]
        && "="@[0] != "z"@[0]);
    assert("["@[0] != "]"@[0]);
    assert("c"@[0] != "e"@[0]
        && "c"@[0] != "f"@[0]
        && "c"@[0] != "m"@[0]
        && "c"@[0] != "o"@[0]
        && "c"@[0] != "r"@[0]
        && "c"@[0] != "t"@[0]
        && "c"@[0] != "v"@[0]
        && "c"@[0] != "w"@[0]
        && "c"@[0] != "z"@[0]);
    assert("e"@[0] != "f"@[0]
        && "e"@[0] != "m"@[0]
        && "e"@[0] != "o"@[0]
        && "e"@[0] != "r"@[0]
        && "e"@[0] != "v"@[0]
        && "e"@[0] != "w"@[0]
        && "e"@[0] != "z"@[0]);
    assert("f"@[0] != "m"@[0]
        && "f"@[0] != "o"@[0]
        && "f"@[0] != "r"@[0]
        && "f"@[0] != "v"@[0]
        && "f"@[0] != "w"@[0]
        && "f"@[0] != "z"@[0]);
    assert("m"@[0] != "o"@[0] && "m"@[0] != "r"@[0] && "m"@[0] != "v"@[0] && "m"@[0] != "w"@[0] && "m"@[0] != "z"@[0]);
    assert("o"@[0] != "r"@[0] && "o"@[0] != "v"@[0] && "o"@[0] != "w"@[0] && "o"@[0] != "z"@[0]);
    assert("r"@[0] != "v"@[0] && "r"@[0] != "w"@[0] && "r"@[0] != "z"@[0]);
    assert("t"@[0] != "v"@[0] && "t"@[0] != "w"@[0]);
    assert("v"@[0] != "w"@[0] && "v"@[0] != "z"@[0]);
    assert("w"@[0] != "z"@[0]);
    let d = spec_default_bindings();
    assert(d.len() == 39);
    assert(distinct_upto(d, 39)) by {
        reveal_with_fuel(slot_free_upto, 39);
        reveal_with_fuel(distinct_upto, 40);
    }
    lemma_distinct_upto(d, 39);
}

/// The table merged from the defaults and any user entries holds one
/// binding per key and modifier set.
pub proof fn law_merged_bindings_one_per_slot(user: Seq<KeybindConfigView>)
    ensures
        one_per_slot(spec_merge(spec_default_bindings(), user)),
{
    lemma_defaults_one_per_slot();
    law_merge_one_per_slot(spec_default_bindings(), user);
}

// ── Key names ──

/// The configuration name of a named key: the name it is written with in
/// a binding's `key` field.
pub open spec fn named_key_name(k: NamedKey) -> Option<Seq<char>> {
    match k {
        NamedKey::Tab => Some("Tab"@),
        NamedKey::PageUp => Some("PageUp"@),
        NamedKey::PageDown => Some("PageDown"@),
        NamedKey::Home => Some("Home"@),
        NamedKey::End => Some("End"@),
        NamedKey::Insert => Some("Insert"@),
        NamedKey::Delete => Some("Delete"@),
        NamedKey::Escape => Some("Escape"@),
        NamedKey::Enter => Some("Enter"@),
        NamedKey::Backspace => Some("Backspace"@),
        NamedKey::Space => Some("Space"@),
        NamedKey::ArrowUp => Some("ArrowUp"@),
        NamedKey::ArrowDown => Some("ArrowDown"@),
        NamedKey::ArrowLeft => Some("ArrowLeft"@),
        NamedKey::ArrowRight => Some("ArrowRight"@),
        NamedKey::F1 => Some("F1"@),
        NamedKey::F2 => Some("F2"@),
        NamedKey::F3 => Some("F3"@),
        NamedKey::F4 => Some("F4"@),
        NamedKey::F5 => Some("F5"@),
        NamedKey::F6 => Some("F6"@),
        NamedKey::F7 => Some("F7"@),
        NamedKey::F8 => Some("F8"@),
        NamedKey::F9 => Some("F9"@),
        NamedKey::F10 => Some("F10"@),
        NamedKey::F11 => Some("F11"@),
        NamedKey::F12 => Some("F12"@),
        NamedKey::F13 => Some("F13"@),
        NamedKey::F14 => Some("F14"@),
        NamedKey::F15 => Some("F15"@),
        NamedKey::F16 => Some("F16"@),
        NamedKey::F17 => Some("F17"@),
        NamedKey::F18 => Some("F18"@),
        NamedKey::F19 => Some("F19"@),
        NamedKey::F20 => Some("F20"@),
        NamedKey::F21 => Some("F21"@),
        NamedKey::F22 => Some("F22"@),
        NamedKey::F23 => Some("F23"@),
        NamedKey::F24 => Some("F24"@),
        _ => None,
    }
}

/// Parsing a named key's configuration name gives back that key, so two
/// different names never give the same key.
#[verifier::spinoff_prover]
pub proof fn law_key_name_roundtrip(k: NamedKey)
    requires
        named_key_name(k) is Some,
    ensures
        spec_parse_key(named_key_name(k)->0) == Some(BindingKeyView::Named(k)),
{
    // Each name differs from every name the parser tries before it: by its
    // length, or by the first character where two names of equal length
    // differ.
    match k {
        NamedKey::Tab => assert(spec_parse_key("Tab"@) == Some(BindingKeyView::Named(k))) by {
            reveal_strlit("Tab");
        },
        NamedKey::PageUp => assert(spec_parse_key("PageUp"@) == Some(BindingKeyView::Named(k))) by {
            reveal_strlit("Tab");
            reveal_strlit("PageUp");
            assert("PageUp"@.len() != "Tab"@.len());
        },
        NamedKey::PageDown => assert(spec_parse_key("PageDown"@) == Some(BindingKeyView::Named(k))) by {
            reveal_strlit("Tab");
            reveal_strlit("PageUp");
            reveal_strlit("PageDown");
            assert("PageDown"@.len() != "Tab"@.len());
            assert("PageDown"@.len() != "PageUp"@.len());
        },
        NamedKey::Home => assert(spec_parse_key("Home"@) == Some(BindingKeyView::Named(k))) by {
            reveal_strlit("Tab");
            reveal_strlit("PageUp");
            reveal_strlit("PageDown");
            reveal_strlit("Home");
            assert("Home"@.len() != "Tab"@.len());
            assert("Home"@.len() != "PageUp"@.len());
            assert("Home"@.len() != "PageDown"@.len());
        },
        NamedKey::End => assert(spec_parse_key("End"@) == Some(BindingKeyView::Named(k))) by {
            reveal_strlit("Tab");
            reveal_strlit("PageUp");
            reveal_strlit("PageDown");
            reveal_strlit("Home");
            reveal_strlit("End");
            assert("End"@[0] != "Tab"@[0]);
            assert("End"@.len() != "PageUp"@.len());
            assert("End"@.len() != "PageDown"@.len());
            assert("End"@.len() != "Home"@.len());
        },
        NamedKey::Insert => assert(spec_parse_key("Insert"@) == Some(BindingKeyView::Named(k))) by {
            reveal_strlit("Tab");
            reveal_strlit("PageUp");
            reveal_strlit("PageDown");
            reveal_strlit("Home");
            reveal_strlit("End");
            reveal_strlit("Insert");
            assert("Insert"@.len() != "Tab"@.len());
            assert("Insert"@[0] != "PageUp"@[0]);
            assert("Insert"@.len() != "PageDown"@.len());
            assert("Insert"@.len() != "Home"@.len());
            assert("Insert"@.len() != "End"@.len());
        },
        NamedKey::Delete => assert(spec_parse_key("Delete"@) == Some(BindingKeyView::Named(k))) by {
            reveal_strlit("Tab");
            reveal_strlit("PageUp");
            reveal_strlit("PageDown");
            reveal_strlit("Home");
            reveal_strlit("End");
            reveal_strlit("Insert");
            reveal_strlit("Delete");
            assert("Delete"@.len() != "Tab"@.len());
            assert("Delete"@[0] != "PageUp"@[0]);
            assert("Delete"@.len() != "PageDown"@.len());
            assert("Delete"@.len() != "Home"@.len());
            assert("Delete"@.len() != "End"@.len());
            assert("Delete"@[0] != "Insert"@[0]);
        },
        NamedKey::Escape => assert(spec_parse_key("Escape"@) == Some(BindingKeyView::Named(k))) by {
            reveal_strlit("Tab");
            reveal_strlit("PageUp");
            reveal_strlit("PageDown");
            reveal_strlit("Home");
            reveal_strlit("End");
            reveal_strlit("Insert");
            reveal_strlit("Delete");
            reveal_strlit("Escape");
            assert("Escape"@.len() != "Tab"@.len());
            assert("Escape"@[0] != "PageUp"@[0]);
            assert("Escape"@.len() != "PageDown"@.len());
            assert("Escape"@.len() != "Home"@.len());
            assert("Escape"@.len() != "End"@.len());
            assert("Escape"@[0] != "Insert"@[0]);
            assert("Escape"@[0] != "Delete"@[0]);
        },
        NamedKey::Enter => assert(spec_parse_key("Enter"@) == Some(BindingKeyView::Named(k))) by {
            reveal_strlit("Tab");
            reveal_strlit("PageUp");
            reveal_strlit("PageDown");
            reveal_strlit("Home");
            reveal_strlit("End");
            reveal_strlit("Insert");
            reveal_strlit("Delete");
            reveal_strlit("Escape");
            reveal_strlit("Enter");
            assert("Enter"@.len() != "Tab"@.len());
            assert("Enter"@.len() != "PageUp"@.len());
            assert("Enter"@.len() != "PageDown"@.len());
            assert("Enter"@.len() != "Home"@.len());
            assert("Enter"@.len() != "End"@.len());
            assert("Enter"@.len() != "Insert"@.len());
            assert("Enter"@.len() != "Delete"@.len());
            assert("Enter"@.len() != "Escape"@.len());
        },
        NamedKey::Backspace => assert(spec_parse_key("Backspace"@) == Some(BindingKeyView::Named(k))) by {
            reveal_strlit("Tab");
            reveal_strlit("PageUp");
            reveal_strlit("PageDown");
            reveal_strlit("Home");
            reveal_strlit("End");
            reveal_strlit("Insert");
            reveal_strlit("Delete");
            reveal_strlit("Escape");
            reveal_strlit("Enter");
            reveal_strlit("Backspace");
            assert("Backspace"@.len() != "Tab"@.len());
            assert("Backspace"@.len() != "PageUp"@.len());
            assert("Backspace"@.len() != "PageDown"@.len());
            assert("Backspace"@.len() != "Home"@.len());
            assert("Backspace"@.len() != "End"@.len());
            assert("Backspace"@.len() != "Insert"@.len());
            assert("Backspace"@.len() != "Delete"@.len());
            assert("Backspace"@.len() != "Escape"@.len());
            assert("Backspace"@.len() != "Enter"@.len());
        },
        NamedKey::Space => assert(spec_parse_key("Space"@) == Some(BindingKeyView::Named(k))) by {
            reveal_strlit("Tab");
            reveal_strlit("PageUp");
            reveal_strlit("PageDown");
            reveal_strlit("Home");
            reveal_strlit("End");
            reveal_strlit("Insert");
            reveal_strlit("Delete");
            reveal_strlit("Escape");
            reveal_strlit("Enter");
            reveal_strlit("Backspace");
            reveal_strlit("Space");
            assert("Space"@.len() != "Tab"@.len());
            assert("Space"@.len() != "PageUp"@.len());
            assert("Space"@.len() != "PageDown"@.len());
            assert("Space"@.len() != "Home"@.len());
            assert("Space"@.len() != "End"@.len());
            assert("Space"@.len() != "Insert"@.len());
            assert("Space"@.len() != "Delete"@.len());
            assert("Space"@.len() != "Escape"@.len());
            assert("Space"@[0] != "Enter"@[0]);
            assert("Space"@.len() != "Backspace"@.len());
        },
        NamedKey::ArrowUp => assert(spec_parse_key("ArrowUp"@) == Some(BindingKeyView::Named(k))) by {
            reveal_strlit("Tab");
            reveal_strlit("PageUp");
            reveal_strlit("PageDown");
            reveal_strlit("Home");
            reveal_strlit("End");
            reveal_strlit("Insert");
            reveal_strlit("Delete");
            reveal_strlit("Escape");
            reveal_strlit("Enter");
            reveal_strlit("Backspace");
            reveal_strlit("Space");
            reveal_strlit("ArrowUp");
            assert("ArrowUp"@.len() != "Tab"@.len());
            assert("ArrowUp"@.len() != "PageUp"@.len());
            assert("ArrowUp"@.len() != "PageDown"@.len());
            assert("ArrowUp"@.len() != "Home"@.len());
            assert("ArrowUp"@.len() != "End"@.len());
            assert("ArrowUp"@.len() != "Insert"@.len());
            assert("ArrowUp"@.len() != "Delete"@.len());
            assert("ArrowUp"@.len() != "Escape"@.len());
            assert("ArrowUp"@.len() != "Enter"@.len());
            assert("ArrowUp"@.len() != "Backspace"@.len());
            assert("ArrowUp"@.len() != "Space"@.len());
        },
        NamedKey::ArrowDown => assert(spec_parse_key("ArrowDown"@) == Some(BindingKeyView::Named(k))) by {
            reveal_strlit("Tab");
            reveal_strlit("PageUp");
            reveal_strlit("PageDown");
            reveal_strlit("Home");
            reveal_strlit("End");
            reveal_strlit("Insert");
            reveal_strlit("Delete");
            reveal_strlit("Escape");
            reveal_strlit("Enter");
            reveal_strlit("Backspace");
            reveal_strlit("Space");
            reveal_strlit("ArrowUp");
            reveal_strlit("ArrowDown");
            assert("ArrowDown"@.len() != "Tab"@.len());
            assert("ArrowDown"@.len() != "PageUp"@.len());
            assert("ArrowDown"@.len() != "PageDown"@.len());
            assert("ArrowDown"@.len() != "Home"@.len());
            assert("ArrowDown"@.len() != "End"@.len());
            assert("ArrowDown"@.len() != "Insert"@.len());
            assert("ArrowDown"@.len() != "Delete"@.len());
            assert("ArrowDown"@.len() != "Escape"@.len());
            assert("ArrowDown"@.len() != "Enter"@.len());
            assert("ArrowDown"@[0] != "Backspace"@[0]);
            assert("ArrowDown"@.len() != "Space"@.len());
            assert("ArrowDown"@.len() != "ArrowUp"@.len());
        },
        NamedKey::ArrowLeft => assert(spec_parse_key("ArrowLeft"@) == Some(BindingKeyView::Named(k))) by {
            reveal_strlit("Tab");
            reveal_strlit("PageUp");
            reveal_strlit("PageDown");
            reveal_strlit("Home");
            reveal_strlit("End");
            reveal_strlit("Insert");
            reveal_strlit("Delete");
            reveal_strlit("Escape");
            reveal_strlit("Enter");
            reveal_strlit("Backspace");
            reveal_strlit("Space");
            reveal_strlit("ArrowUp");
            reveal_strlit("ArrowDown");
            reveal_strlit("ArrowLeft");
            assert("ArrowLeft"@.len() != "Tab"@.len());
            assert("ArrowLeft"@.len() != "PageUp"@.len());
            assert("ArrowLeft"@.len() != "PageDown"@.len());
            assert("ArrowLeft"@.len() != "Home"@.len());
            assert("ArrowLeft"@.len() != "End"@.len());
            assert("ArrowLeft"@.len() != "Insert"@.len());
            assert("ArrowLeft"@.len() != "Delete"@.len());
            assert("ArrowLeft"@.len() != "Escape"@.len());
            assert("ArrowLeft"@.len() != "Enter"@.len());
            assert("ArrowLeft"@[0] != "Backspace"@[0]);
            assert("ArrowLeft"@.len() != "Space"@.len());
            assert("ArrowLeft"@.len() != "ArrowUp"@.len());
            assert("ArrowLeft"@[5] != "ArrowDown"@[5]);
        },
        NamedKey::ArrowRight => assert(spec_parse_key("ArrowRight"@) == Some(BindingKeyView::Named(k))) by {
            reveal_strlit("Tab");
            reveal_strlit("PageUp");
            reveal_strlit("PageDown");
            reveal_strlit("Home");
            reveal_strlit("End");
            reveal_strlit("Insert");
            reveal_strlit("Delete");
            reveal_strlit("Escape");
            reveal_strlit("Enter");
            reveal_strlit("Backspace");
            reveal_strlit("Space");
            reveal_strlit("ArrowUp");
            reveal_strlit("ArrowDown");
            reveal_strlit("ArrowLeft");
            reveal_strlit("ArrowRight");
            assert("ArrowRight"@.len() != "Tab"@.len());
            assert("ArrowRight"@.len() != "PageUp"@.len());
            assert("ArrowRight"@.len() != "PageDown"@.len());
            assert("ArrowRight"@.len() != "Home"@.len());
            assert("ArrowRight"@.len() != "End"@.len());
            assert("ArrowRight"@.len() != "Insert"@.len());
            assert("ArrowRight"@.len() != "Delete"@.len());
            assert("ArrowRight"@.len() != "Escape"@.len());
            assert("ArrowRight"@.len() != "Enter"@.len());
            assert("ArrowRight"@.len() != "Backspace"@.len());
            assert("ArrowRight"@.len() != "Space"@.len());
            assert("ArrowRight"@.len() != "ArrowUp"@.len());
            assert("ArrowRight"@.len() != "ArrowDown"@.len());
            assert("ArrowRight"@.len() != "ArrowLeft"@.len());
        },
        NamedKey::F1 => assert(spec_parse_key("F1"@) == Some(BindingKeyView::Named(k))) by {
            reveal_strlit("Tab");
            reveal_strlit("PageUp");
            reveal_strlit("PageDown");
            reveal_strlit("Home");
            reveal_strlit("End");
            reveal_strlit("Insert");
            reveal_strlit("Delete");
            reveal_strlit("Escape");
            reveal_strlit("Enter");
            reveal_strlit("Backspace");
            reveal_strlit("Space");
            reveal_strlit("ArrowUp");
            reveal_strlit("ArrowDown");
            reveal_strlit("ArrowLeft");
            reveal_strlit("ArrowRight");
            reveal_strlit("F1");
            assert("F1"@.len() != "Tab"@.len());
            assert("F1"@.len() != "PageUp"@.len());
            assert("F1"@.len() != "PageDown"@.len());
            assert("F1"@.len() != "Home"@.len());
            assert("F1"@.len() != "End"@.len());
            assert("F1"@.len() != "Insert"@.len());
            assert("F1"@.len() != "Delete"@.len());
            assert("F1"@.len() != "Escape"@.len());
            assert("F1"@.len() != "Enter"@.len());
            assert("F1"@.len() != "Backspace"@.len());
            assert("F1"@.len() != "Space"@.len());
            assert("F1"@.len() != "ArrowUp"@.len());
            assert("F1"@.len() != "ArrowDown"@.len());
            assert("F1"@.len() != "ArrowLeft"@.len());
            assert("F1"@.len() != "ArrowRight"@.len());
        },
        NamedKey::F2 => assert(spec_parse_key("F2"@) == Some(BindingKeyView::Named(k))) by {
            reveal_strlit("Tab");
            reveal_strlit("PageUp");
            reveal_strlit("PageDown");
            reveal_strlit("Home");
            reveal_strlit("End");
            reveal_strlit("Insert");
            reveal_strlit("Delete");
            reveal_strlit("Escape");
            reveal_strlit("Enter");
            reveal_strlit("Backspace");
            reveal_strlit("Space");
            reveal_strlit("ArrowUp");
            reveal_strlit("ArrowDown");
            reveal_strlit("ArrowLeft");
            reveal_strlit("ArrowRight");
            reveal_strlit("F1");
            reveal_strlit("F2");
            assert("F2"@.len() != "Tab"@.len());
            assert("F2"@.len() != "PageUp"@.len());
            assert("F2"@.len() != "PageDown"@.len());
            assert("F2"@.len() != "Home"@.len());
            assert("F2"@.len() != "End"@.len());
            assert("F2"@.len() != "Insert"@.len());
            assert("F2"@.len() != "Delete"@.len());
            assert("F2"@.len() != "Escape"@.len());
            assert("F2"@.len() != "Enter"@.len());
            assert("F2"@.len() != "Backspace"@.len());
            assert("F2"@.len() != "Space"@.len());
            assert("F2"@.len() != "ArrowUp"@.len());
            assert("F2"@.len() != "ArrowDown"@.len());
            assert("F2"@.len() != "ArrowLeft"@.len());
            assert("F2"@.len() != "ArrowRight"@.len());
            assert("F2"@[1] != "F1"@[1]);
        },
        NamedKey::F3 => assert(spec_parse_key("F3"@) == Some(BindingKeyView::Named(k))) by {
            reveal_strlit("Tab");
            reveal_strlit("PageUp");
            reveal_strlit("PageDown");
            reveal_strlit("Home");
            reveal_strlit("End");
            reveal_strlit("Insert");
            reveal_strlit("Delete");
            reveal_strlit("Escape");
            reveal_strlit("Enter");
            reveal_strlit("Backspace");
            reveal_strlit("Space");
            reveal_strlit("ArrowUp");
            reveal_strlit("ArrowDown");
            reveal_strlit("ArrowLeft");
            reveal_strlit("ArrowRight");
            reveal_strlit("F1");
            reveal_strlit("F2");
            reveal_strlit("F3");
            assert("F3"@.len() != "Tab"@.len());
            assert("F3"@.len() != "PageUp"@.len());
            assert("F3"@.len() != "PageDown"@.len());
            assert("F3"@.len() != "Home"@.len());
            assert("F3"@.len() != "End"@.len());
            assert("F3"@.len() != "Insert"@.len());
            assert("F3"@.len() != "Delete"@.len());
            assert("F3"@.len() != "Escape"@.len());
            assert("F3"@.len() != "Enter"@.len());
            assert("F3"@.len() != "Backspace"@.len());
            assert("F3"@.len() != "Space"@.len());
            assert("F3"@.len() != "ArrowUp"@.len());
            assert("F3"@.len() != "ArrowDown"@.len());
            assert("F3"@.len() != "ArrowLeft"@.len());
            assert("F3"@.len() != "ArrowRight"@.len());
            assert("F3"@[1] != "F1"@[1]);
            assert("F3"@[1] != "F2"@[1]);
        },
        NamedKey::F4 => assert(spec_parse_key("F4"@) == Some(BindingKeyView::Named(k))) by {
            reveal_strlit("Tab");
            reveal_strlit("PageUp");
            reveal_strlit("PageDown");
            reveal_strlit("Home");
            reveal_strlit("End");
            reveal_strlit("Insert");
            reveal_strlit("Delete");
            reveal_strlit("Escape");
            reveal_strlit("Enter");
            reveal_strlit("Backspace");
            reveal_strlit("Space");
            reveal_strlit("ArrowUp");
            reveal_strlit("ArrowDown");
            reveal_strlit("ArrowLeft");
            reveal_strlit("ArrowRight");
            reveal_strlit("F1");
            reveal_strlit("F2");
            reveal_strlit("F3");
            reveal_strlit("F4");
            assert("F4"@.len() != "Tab"@.len());
            assert("F4"@.len() != "PageUp"@.len());
            assert("F4"@.len() != "PageDown"@.len());
            assert("F4"@.len() != "Home"@.len());
            assert("F4"@.len() != "End"@.len());
            assert("F4"@.len() != "Insert"@.len());
            assert("F4"@.len() != "Delete"@.len());
            assert("F4"@.len() != "Escape"@.len());
            assert("F4"@.len() != "Enter"@.len());
            assert("F4"@.len() != "Backspace"@.len());
            assert("F4"@.len() != "Space"@.len());
            assert("F4"@.len() != "ArrowUp"@.len());
            assert("F4"@.len() != "ArrowDown"@.len());
            assert("F4"@.len() != "ArrowLeft"@.len());
            assert("F4"@.len() != "ArrowRight"@.len());
            assert("F4"@[1] != "F1"@[1]);
            assert("F4"@[1] != "F2"@[1]);
            assert("F4"@[1] != "F3"@[1]);
        },
        NamedKey::F5 => assert(spec_parse_key("F5"@) == Some(BindingKeyView::Named(k))) by {
            reveal_strlit("Tab");
            reveal_strlit("PageUp");
            reveal_strlit("PageDown");
            reveal_strlit("Home");
            reveal_strlit("End");
            reveal_strlit("Insert");
            reveal_strlit("Delete");
            reveal_strlit("Escape");
            reveal_strlit("Enter");
            reveal_strlit("Backspace");
            reveal_strlit("Space");
            reveal_strlit("ArrowUp");
            reveal_strlit("ArrowDown");
            reveal_strlit("ArrowLeft");
            reveal_strlit("ArrowRight");
            reveal_strlit("F1");
            reveal_strlit("F2");
            reveal_strlit("F3");
            reveal_strlit("F4");
            reveal_strlit("F5");
            assert("F5"@.len() != "Tab"@.len());
            assert("F5"@.len() != "PageUp"@.len());
            assert("F5"@.len() != "PageDown"@.len());
            assert("F5"@.len() != "Home"@.len());
            assert("F5"@.len() != "End"@.len());
            assert("F5"@.len() != "Insert"@.len());
            assert("F5"@.len() != "Delete"@.len());
            assert("F5"@.len() != "Escape"@.len());
            assert("F5"@.len() != "Enter"@.len());
            assert("F5"@.len() != "Backspace"@.len());
            assert("F5"@.len() != "Space"@.len());
            assert("F5"@.len() != "ArrowUp"@.len());
            assert("F5"@.len() != "ArrowDown"@.len());
            assert("F5"@.len() != "ArrowLeft"@.len());
            assert("F5"@.len() != "ArrowRight"@.len());
            assert("F5"@[1] != "F1"@[1]);
            assert("F5"@[1] != "F2"@[1]);
            assert("F5"@[1] != "F3"@[1]);
            assert("F5"@[1] != "F4"@[1]);
        },
        NamedKey::F6 => assert(spec_parse_key("F6"@) == Some(BindingKeyView::Named(k))) by {
            reveal_strlit("Tab");
            reveal_strlit("PageUp");
            reveal_strlit("PageDown");
            reveal_strlit("Home");
            reveal_strlit("End");
            reveal_strlit("Insert");
            reveal_strlit("Delete");
            reveal_strlit("Escape");
            reveal_strlit("Enter");
            reveal_strlit("Backspace");
            reveal_strlit("Space");
            reveal_strlit("ArrowUp");
            reveal_strlit("ArrowDown");
            reveal_strlit("ArrowLeft");
            reveal_strlit("ArrowRight");
            reveal_strlit("F1");
            reveal_strlit("F2");
            reveal_strlit("F3");
            reveal_strlit("F4");
            reveal_strlit("F5");
            reveal_strlit("F6");
            assert("F6"@.len() != "Tab"@.len());
            assert("F6"@.len() != "PageUp"@.len());
            assert("F6"@.len() != "PageDown"@.len());
            assert("F6"@.len() != "Home"@.len());
            assert("F6"@.len() != "End"@.len());
            assert("F6"@.len() != "Insert"@.len());
            assert("F6"@.len() != "Delete"@.len());
            assert("F6"@.len() != "Escape"@.len());
            assert("F6"@.len() != "Enter"@.len());
            assert("F6"@.len() != "Backspace"@.len());
            assert("F6"@.len() != "Space"@.len());
            assert("F6"@.len() != "ArrowUp"@.len());
            assert("F6"@.len() != "ArrowDown"@.len());
            assert("F6"@.len() != "ArrowLeft"@.len());
            assert("F6"@.len() != "ArrowRight"@.len());
            assert("F6"@[1] != "F1"@[1]);
            assert("F6"@[1] != "F2"@[1]);
            assert("F6"@[1] != "F3"@[1]);
            assert("F6"@[1] != "F4"@[1]);
            assert("F6"@[1] != "F5"@[1]);
        },
        NamedKey::F7 => assert(spec_parse_key("F7"@) == Some(BindingKeyView::Named(k))) by {
            reveal_strlit("Tab");
            reveal_strlit("PageUp");
            reveal_strlit("PageDown");
            reveal_strlit("Home");
            reveal_strlit("End");
            reveal_strlit("Insert");
            reveal_strlit("Delete");
            reveal_strlit("Escape");
            reveal_strlit("Enter");
            reveal_strlit("Backspace");
            reveal_strlit("Space");
            reveal_strlit("ArrowUp");
            reveal_strlit("ArrowDown");
            reveal_strlit("ArrowLeft");
            reveal_strlit("ArrowRight");
            reveal_strlit("F1");
            reveal_strlit("F2");
            reveal_strlit("F3");
            reveal_strlit("F4");
            reveal_strlit("F5");
            reveal_strlit("F6");
            reveal_strlit("F7");
            assert("F7"@.len() != "Tab"@.len());
            assert("F7"@.len() != "PageUp"@.len());
            assert("F7"@.len() != "PageDown"@.len());
            assert("F7"@.len() != "Home"@.len());
            assert("F7"@.len() != "End"@.len());
            assert("F7"@.len() != "Insert"@.len());
            assert("F7"@.len() != "Delete"@.len());
            assert("F7"@.len() != "Escape"@.len());
            assert("F7"@.len() != "Enter"@.len());
            assert("F7"@.len() != "Backspace"@.len());
            assert("F7"@.len() != "Space"@.len());
            assert("F7"@.len() != "ArrowUp"@.len());
            assert("F7"@.len() != "ArrowDown"@.len());
            assert("F7"@.len() != "ArrowLeft"@.len());
            assert("F7"@.len() != "ArrowRight"@.len());
            assert("F7"@[1] != "F1"@[1]);
            assert("F7"@[1] != "F2"@[1]);
            assert("F7"@[1] != "F3"@[1]);
            assert("F7"@[1] != "F4"@[1]);
            assert("F7"@[1] != "F5"@[1]);
            assert("F7"@[1] != "F6"@[1]);
        },
        NamedKey::F8 => assert(spec_parse_key("F8"@) == Some(BindingKeyView::Named(k))) by {
            reveal_strlit("Tab");
            reveal_strlit("PageUp");
            reveal_strlit("PageDown");
            reveal_strlit("Home");
            reveal_strlit("End");
            reveal_strlit("Insert");
            reveal_strlit("Delete");
            reveal_strlit("Escape");
            reveal_strlit("Enter");
            reveal_strlit("Backspace");
            reveal_strlit("Space");
            reveal_strlit("ArrowUp");
            reveal_strlit("ArrowDown");
            reveal_strlit("ArrowLeft");
            reveal_strlit("ArrowRight");
            reveal_strlit("F1");
            reveal_strlit("F2");
            reveal_strlit("F3");
            reveal_strlit("F4");
            reveal_strlit("F5");
            reveal_strlit("F6");
            reveal_strlit("F7");
            reveal_strlit("F8");
            assert("F8"@.len() != "Tab"@.len());
            assert("F8"@.len() != "PageUp"@.len());
            assert("F8"@.len() != "PageDown"@.len());
            assert("F8"@.len() != "Home"@.len());
            assert("F8"@.len() != "End"@.len());
            assert("F8"@.len() != "Insert"@.len());
            assert("F8"@.len() != "Delete"@.len());
            assert("F8"@.len() != "Escape"@.len());
            assert("F8"@.len() != "Enter"@.len());
            assert("F8"@.len() != "Backspace"@.len());
            assert("F8"@.len() != "Space"@.len());
            assert("F8"@.len() != "ArrowUp"@.len());
            assert("F8"@.len() != "ArrowDown"@.len());
            assert("F8"@.len() != "ArrowLeft"@.len());
            assert("F8"@.len() != "ArrowRight"@.len());
            assert("F8"@[1] != "F1"@[1]);
            assert("F8"@[1] != "F2"@[1]);
            assert("F8"@[1] != "F3"@[1]);
            assert("F8"@[1] != "F4"@[1]);
            assert("F8"@[1] != "F5"@[1]);
            assert("F8"@[1] != "F6"@[1]);
            assert("F8"@[1] != "F7"@[1]);
        },
        NamedKey::F9 => assert(spec_parse_key("F9"@) == Some(BindingKeyView::Named(k))) by {
            reveal_strlit("Tab");
            reveal_strlit("PageUp");
            reveal_strlit("PageDown");
            reveal_strlit("Home");
            reveal_strlit("End");
            reveal_strlit("Insert");
            reveal_strlit("Delete");
            reveal_strlit("Escape");
            reveal_strlit("Enter");
            reveal_strlit("Backspace");
            reveal_strlit("Space");
            reveal_strlit("ArrowUp");
            reveal_strlit("ArrowDown");
            reveal_strlit("ArrowLeft");
            reveal_strlit("ArrowRight");
            reveal_strlit("F1");
            reveal_strlit("F2");
            reveal_strlit("F3");
            reveal_strlit("F4");
            reveal_strlit("F5");
            reveal_strlit("F6");
            reveal_strlit("F7");
            reveal_strlit("F8");
            reveal_strlit("F9");
            assert("F9"@.len() != "Tab"@.len());
            assert("F9"@.len() != "PageUp"@.len());
            assert("F9"@.len() != "PageDown"@.len());
            assert("F9"@.len() != "Home"@.len());
            assert("F9"@.len() != "End"@.len());
            assert("F9"@.len() != "Insert"@.len());
            assert("F9"@.len() != "Delete"@.len());
            assert("F9"@.len() != "Escape"@.len());
            assert("F9"@.len() != "Enter"@.len());
            assert("F9"@.len() != "Backspace"@.len());
            assert("F9"@.len() != "Space"@.len());
            assert("F9"@.len() != "ArrowUp"@.len());
            assert("F9"@.len() != "ArrowDown"@.len());
            assert("F9"@.len() != "ArrowLeft"@.len());
            assert("F9"@.len() != "ArrowRight"@.len());
            assert("F9"@[1] != "F1"@[1]);
            assert("F9"@[1] != "F2"@[1]);
            assert("F9"@[1] != "F3"@[1]);
            assert("F9"@[1] != "F4"@[1]);
            assert("F9"@[1] != "F5"@[1]);
            assert("F9"@[1] != "F6"@[1]);
            assert("F9"@[1] != "F7"@[1]);
            assert("F9"@[1] != "F8"@[1]);
        },
        NamedKey::F10 => assert(spec_parse_key("F10"@) == Some(BindingKeyView::Named(k))) by {
            reveal_strlit("Tab");
            reveal_strlit("PageUp");
            reveal_strlit("PageDown");
            reveal_strlit("Home");
            reveal_strlit("End");
            reveal_strlit("Insert");
            reveal_strlit("Delete");
            reveal_strlit("Escape");
            reveal_strlit("Enter");
            reveal_strlit("Backspace");
            reveal_strlit("Space");
            reveal_strlit("ArrowUp");
            reveal_strlit("ArrowDown");
            reveal_strlit("ArrowLeft");
            reveal_strlit("ArrowRight");
            reveal_strlit("F1");
            reveal_strlit("F2");
            reveal_strlit("F3");
            reveal_strlit("F4");
            reveal_strlit("F5");
            reveal_strlit("F6");
            reveal_strlit("F7");
            reveal_strlit("F8");
            reveal_strlit("F9");
            reveal_strlit("F10");
            assert("F10"@[0] != "Tab"@[0]);
            assert("F10"@.len() != "PageUp"@.len());
            assert("F10"@.len() != "PageDown"@.len());
            assert("F10"@.len() != "Home"@.len());
            assert("F10"@[0] != "End"@[0]);
            assert("F10"@.len() != "Insert"@.len());
            assert("F10"@.len() != "Delete"@.len());
            assert("F10"@.len() != "Escape"@.len());
            assert("F10"@.len() != "Enter"@.len());
            assert("F10"@.len() != "Backspace"@.len());
            assert("F10"@.len() != "Space"@.len());
            assert("F10"@.len() != "ArrowUp"@.len());
            assert("F10"@.len() != "ArrowDown"@.len());
            assert("F10"@.len() != "ArrowLeft"@.len());
            assert("F10"@.len() != "ArrowRight"@.len());
            assert("F10"@.len() != "F1"@.len());
            assert("F10"@.len() != "F2"@.len());
            assert("F10"@.len() != "F3"@.len());
            assert("F10"@.len() != "F4"@.len());
            assert("F10"@.len() != "F5"@.len());
            assert("F10"@.len() != "F6"@.len());
            assert("F10"@.len() != "F7"@.len());
            assert("F10"@.len() != "F8"@.len());
            assert("F10"@.len() != "F9"@.len());
        },
        NamedKey::F11 => assert(spec_parse_key("F11"@) == Some(BindingKeyView::Named(k))) by {
            reveal_strlit("Tab");
            reveal_strlit("PageUp");
            reveal_strlit("PageDown");
            reveal_strlit("Home");
            reveal_strlit("End");
            reveal_strlit("Insert");
            reveal_strlit("Delete");
            reveal_strlit("Escape");
            reveal_strlit("Enter");
            reveal_strlit("Backspace");
            reveal_strlit("Space");
            reveal_strlit("ArrowUp");
            reveal_strlit("ArrowDown");
            reveal_strlit("ArrowLeft");
            reveal_strlit("ArrowRight");
            reveal_strlit("F1");
            reveal_strlit("F2");
            reveal_strlit("F3");
            reveal_strlit("F4");
            reveal_strlit("F5");
            reveal_strlit("F6");
            reveal_strlit("F7");
            reveal_strlit("F8");
            reveal_strlit("F9");
            reveal_strlit("F10");
            reveal_strlit("F11");
            assert("F11"@[0] != "Tab"@[0]);
            assert("F11"@.len() != "PageUp"@.len());
            assert("F11"@.len() != "PageDown"@.len());
            assert("F11"@.len() != "Home"@.len());
            assert("F11"@[0] != "End"@[0]);
            assert("F11"@.len() != "Insert"@.len());
            assert("F11"@.len() != "Delete"@.len());
            assert("F11"@.len() != "Escape"@.len());
            assert("F11"@.len() != "Enter"@.len());
            assert("F11"@.len() != "Backspace"@.len());
            assert("F11"@.len() != "Space"@.len());
            assert("F11"@.len() != "ArrowUp"@.len());
            assert("F11"@.len() != "ArrowDown"@.len());
            assert("F11"@.len() != "ArrowLeft"@.len());
            assert("F11"@.len() != "ArrowRight"@.len());
            assert("F11"@.len() != "F1"@.len());
            assert("F11"@.len() != "F2"@.len());
            assert("F11"@.len() != "F3"@.len());
            assert("F11"@.len() != "F4"@.len());
            assert("F11"@.len() != "F5"@.len());
            assert("F11"@.len() != "F6"@.len());
            assert("F11"@.len() != "F7"@.len());
            assert("F11"@.len() != "F8"@.len());
            assert("F11"@.len() != "F9"@.len());
            assert("F11"@[2] != "F10"@[2]);
        },
        NamedKey::F12 => assert(spec_parse_key("F12"@) == Some(BindingKeyView::Named(k))) by {
            reveal_strlit("Tab");
            reveal_strlit("PageUp");
            reveal_strlit("PageDown");
            reveal_strlit("Home");
            reveal_strlit("End");
            reveal_strlit("Insert");
            reveal_strlit("Delete");
            reveal_strlit("Escape");
            reveal_strlit("Enter");
            reveal_strlit("Backspace");
            reveal_strlit("Space");
            reveal_strlit("ArrowUp");
            reveal_strlit("ArrowDown");
            reveal_strlit("ArrowLeft");
            reveal_strlit("ArrowRight");
            reveal_strlit("F1");
            reveal_strlit("F2");
            reveal_strlit("F3");
            reveal_strlit("F4");
            reveal_strlit("F5");
            reveal_strlit("F6");
            reveal_strlit("F7");
            reveal_strlit("F8");
            reveal_strlit("F9");
            reveal_strlit("F10");
            reveal_strlit("F11");
            reveal_strlit("F12");
            assert("F12"@[0] != "Tab"@[0]);
            assert("F12"@.len() != "PageUp"@.len());
            assert("F12"@.len() != "PageDown"@.len());
            assert("F12"@.len() != "Home"@.len());
            assert("F12"@[0] != "End"@[0]);
            assert("F12"@.len() != "Insert"@.len());
            assert("F12"@.len() != "Delete"@.len());
            assert("F12"@.len() != "Escape"@.len());
            assert("F12"@.len() != "Enter"@.len());
            assert("F12"@.len() != "Backspace"@.len());
            assert("F12"@.len() != "Space"@.len());
            assert("F12"@.len() != "ArrowUp"@.len());
            assert("F12"@.len() != "ArrowDown"@.len());
            assert("F12"@.len() != "ArrowLeft"@.len());
            assert("F12"@.len() != "ArrowRight"@.len());
            assert("F12"@.len() != "F1"@.len());
            assert("F12"@.len() != "F2"@.len());
            assert("F12"@.len() != "F3"@.len());
            assert("F12"@.len() != "F4"@.len());
            assert("F12"@.len() != "F5"@.len());
            assert("F12"@.len() != "F6"@.len());
            assert("F12"@.len() != "F7"@.len());
            assert("F12"@.len() != "F8"@.len());
            assert("F12"@.len() != "F9"@.len());
            assert("F12"@[2] != "F10"@[2]);
            assert("F12"@[2] != "F11"@[2]);
        },
        NamedKey::F13 => assert(spec_parse_key("F13"@) == Some(BindingKeyView::Named(k))) by {
            reveal_strlit("Tab");
            reveal_strlit("PageUp");
            reveal_strlit("PageDown");
            reveal_strlit("Home");
            reveal_strlit("End");
            reveal_strlit("Insert");
            reveal_strlit("Delete");
            reveal_strlit("Escape");
            reveal_strlit("Enter");
            reveal_strlit("Backspace");
            reveal_strlit("Space");
            reveal_strlit("ArrowUp");
            reveal_strlit("ArrowDown");
            reveal_strlit("ArrowLeft");
            reveal_strlit("ArrowRight");
            reveal_strlit("F1");
            reveal_strlit("F2");
            reveal_strlit("F3");
            reveal_strlit("F4");
            reveal_strlit("F5");
            reveal_strlit("F6");
            reveal_strlit("F7");
            reveal_strlit("F8");
            reveal_strlit("F9");
            reveal_strlit("F10");
            reveal_strlit("F11");
            reveal_strlit("F12");
            reveal_strlit("F13");
            assert("F13"@[0] != "Tab"@[0]);
            assert("F13"@.len() != "PageUp"@.len());
            assert("F13"@.len() != "PageDown"@.len());
            assert("F13"@.len() != "Home"@.len());
            assert("F13"@[0] != "End"@[0]);
            assert("F13"@.len() != "Insert"@.len());
            assert("F13"@.len() != "Delete"@.len());
            assert("F13"@.len() != "Escape"@.len());
            assert("F13"@.len() != "Enter"@.len());
            assert("F13"@.len() != "Backspace"@.len());
            assert("F13"@.len() != "Space"@.len());
            assert("F13"@.len() != "ArrowUp"@.len());
            assert("F13"@.len() != "ArrowDown"@.len());
            assert("F13"@.len() != "ArrowLeft"@.len());
            assert("F13"@.len() != "ArrowRight"@.len());
            assert("F13"@.len() != "F1"@.len());
            assert("F13"@.len() != "F2"@.len());
            assert("F13"@.len() != "F3"@.len());
            assert("F13"@.len() != "F4"@.len());
            assert("F13"@.len() != "F5"@.len());
            assert("F13"@.len() != "F6"@.len());
            assert("F13"@.len() != "F7"@.len());
            assert("F13"@.len() != "F8"@.len());
            assert("F13"@.len() != "F9"@.len());
            assert("F13"@[2] != "F10"@[2]);
            assert("F13"@[2] != "F11"@[2]);
            assert("F13"@[2] != "F12"@[2]);
        },
        NamedKey::F14 => assert(spec_parse_key("F14"@) == Some(BindingKeyView::Named(k))) by {
            reveal_strlit("Tab");
            reveal_strlit("PageUp");
            reveal_strlit("PageDown");
            reveal_strlit("Home");
            reveal_strlit("End");
            reveal_strlit("Insert");
            reveal_strlit("Delete");
            reveal_strlit("Escape");
            reveal_strlit("Enter");
            reveal_strlit("Backspace");
            reveal_strlit("Space");
            reveal_strlit("ArrowUp");
            reveal_strlit("ArrowDown");
            reveal_strlit("ArrowLeft");
            reveal_strlit("ArrowRight");
            reveal_strlit("F1");
            reveal_strlit("F2");
            reveal_strlit("F3");
            reveal_strlit("F4");
            reveal_strlit("F5");
            reveal_strlit("F6");
            reveal_strlit("F7");
            reveal_strlit("F8");
            reveal_strlit("F9");
            reveal_strlit("F10");
            reveal_strlit("F11");
            reveal_strlit("F12");
            reveal_strlit("F13");
            reveal_strlit("F14");
            assert("F14"@[0] != "Tab"@[0]);
            assert("F14"@.len() != "PageUp"@.len());
            assert("F14"@.len() != "PageDown"@.len());
            assert("F14"@.len() != "Home"@.len());
            assert("F14"@[0] != "End"@[0]);
            assert("F14"@.len() != "Insert"@.len());
            assert("F14"@.len() != "Delete"@.len());
            assert("F14"@.len() != "Escape"@.len());
            assert("F14"@.len() != "Enter"@.len());
            assert("F14"@.len() != "Backspace"@.len());
            assert("F14"@.len() != "Space"@.len());
            assert("F14"@.len() != "ArrowUp"@.len());
            assert("F14"@.len() != "ArrowDown"@.len());
            assert("F14"@.len() != "ArrowLeft"@.len());
            assert("F14"@.len() != "ArrowRight"@.len());
            assert("F14"@.len() != "F1"@.len());
            assert("F14"@.len() != "F2"@.len());
            assert("F14"@.len() != "F3"@.len());
            assert("F14"@.len() != "F4"@.len());
            assert("F14"@.len() != "F5"@.len());
            assert("F14"@.len() != "F6"@.len());
            assert("F14"@.len() != "F7"@.len());
            assert("F14"@.len() != "F8"@.len());
            assert("F14"@.len() != "F9"@.len());
            assert("F14"@[2] != "F10"@[2]);
            assert("F14"@[2] != "F11"@[2]);
            assert("F14"@[2] != "F12"@[2]);
            assert("F14"@[2] != "F13"@[2]);
        },
        NamedKey::F15 => assert(spec_parse_key("F15"@) == Some(BindingKeyView::Named(k))) by {
            reveal_strlit("Tab");
            reveal_strlit("PageUp");
            reveal_strlit("PageDown");
            reveal_strlit("Home");
            reveal_strlit("End");
            reveal_strlit("Insert");
            reveal_strlit("Delete");
            reveal_strlit("Escape");
            reveal_strlit("Enter");
            reveal_strlit("Backspace");
            reveal_strlit("Space");
            reveal_strlit("ArrowUp");
            reveal_strlit("ArrowDown");
            reveal_strlit("ArrowLeft");
            reveal_strlit("ArrowRight");
            reveal_strlit("F1");
            reveal_strlit("F2");
            reveal_strlit("F3");
            reveal_strlit("F4");
            reveal_strlit("F5");
            reveal_strlit("F6");
            reveal_strlit("F7");
            reveal_strlit("F8");
            reveal_strlit("F9");
            reveal_strlit("F10");
            reveal_strlit("F11");
            reveal_strlit("F12");
            reveal_strlit("F13");
            reveal_strlit("F14");
            reveal_strlit("F15");
            assert("F15"@[0] != "Tab"@[0]);
            assert("F15"@.len() != "PageUp"@.len());
            assert("F15"@.len() != "PageDown"@.len());
            assert("F15"@.len() != "Home"@.len());
            assert("F15"@[0] != "End"@[0]);
            assert("F15"@.len() != "Insert"@.len());
            assert("F15"@.len() != "Delete"@.len());
            assert("F15"@.len() != "Escape"@.len());
            assert("F15"@.len() != "Enter"@.len());
            assert("F15"@.len() != "Backspace"@.len());
            assert("F15"@.len() != "Space"@.len());
            assert("F15"@.len() != "ArrowUp"@.len());
            assert("F15"@.len() != "ArrowDown"@.len());
            assert("F15"@.len() != "ArrowLeft"@.len());
            assert("F15"@.len() != "ArrowRight"@.len());
            assert("F15"@.len() != "F1"@.len());
            assert("F15"@.len() != "F2"@.len());
            assert("F15"@.len() != "F3"@.len());
            assert("F15"@.len() != "F4"@.len());
            assert("F15"@.len() != "F5"@.len());
            assert("F15"@.len() != "F6"@.len());
            assert("F15"@.len() != "F7"@.len());
            assert("F15"@.len() != "F8"@.len());
            assert("F15"@.len() != "F9"@.len());
            assert("F15"@[2] != "F10"@[2]);
            assert("F15"@[2] != "F11"@[2]);
            assert("F15"@[2] != "F12"@[2]);
            assert("F15"@[2] != "F13"@[2]);
            assert("F15"@[2] != "F14"@[2]);
        },
        NamedKey::F16 => assert(spec_parse_key("F16"@) == Some(BindingKeyView::Named(k))) by {
            reveal_strlit("Tab");
            reveal_strlit("PageUp");
            reveal_strlit("PageDown");
            reveal_strlit("Home");
            reveal_strlit("End");
            reveal_strlit("Insert");
            reveal_strlit("Delete");
            reveal_strlit("Escape");
            reveal_strlit("Enter");
            reveal_strlit("Backspace");
            reveal_strlit("Space");
            reveal_strlit("ArrowUp");
            reveal_strlit("ArrowDown");
            reveal_strlit("ArrowLeft");
            reveal_strlit("ArrowRight");
            reveal_strlit("F1");
            reveal_strlit("F2");
            reveal_strlit("F3");
            reveal_strlit("F4");
            reveal_strlit("F5");
            reveal_strlit("F6");
            reveal_strlit("F7");
            reveal_strlit("F8");
            reveal_strlit("F9");
            reveal_strlit("F10");
            reveal_strlit("F11");
            reveal_strlit("F12");
            reveal_strlit("F13");
            reveal_strlit("F14");
            reveal_strlit("F15");
            reveal_strlit("F16");
            assert("F16"@[0] != "Tab"@[0]);
            assert("F16"@.len() != "PageUp"@.len());
            assert("F16"@.len() != "PageDown"@.len());
            assert("F16"@.len() != "Home"@.len());
            assert("F16"@[0] != "End"@[0]);
            assert("F16"@.len() != "Insert"@.len());
            assert("F16"@.len() != "Delete"@.len());
            assert("F16"@.len() != "Escape"@.len());
            assert("F16"@.len() != "Enter"@.len());
            assert("F16"@.len() != "Backspace"@.len());
            assert("F16"@.len() != "Space"@.len());
            assert("F16"@.len() != "ArrowUp"@.len());
            assert("F16"@.len() != "ArrowDown"@.len());
            assert("F16"@.len() != "ArrowLeft"@.len());
            assert("F16"@.len() != "ArrowRight"@.len());
            assert("F16"@.len() != "F1"@.len());
            assert("F16"@.len() != "F2"@.len());
            assert("F16"@.len() != "F3"@.len());
            assert("F16"@.len() != "F4"@.len());
            assert("F16"@.len() != "F5"@.len());
            assert("F16"@.len() != "F6"@.len());
            assert("F16"@.len() != "F7"@.len());
            assert("F16"@.len() != "F8"@.len());
            assert("F16"@.len() != "F9"@.len());
            assert("F16"@[2] != "F10"@[2]);
            assert("F16"@[2] != "F11"@[2]);
            assert("F16"@[2] != "F12"@[2]);
            assert("F16"@[2] != "F13"@[2]);
            assert("F16"@[2] != "F14"@[2]);
            assert("F16"@[2] != "F15"@[2]);
        },
        NamedKey::F17 => assert(spec_parse_key("F17"@) == Some(BindingKeyView::Named(k))) by {
            reveal_strlit("Tab");
            reveal_strlit("PageUp");
            reveal_strlit("PageDown");
            reveal_strlit("Home");
            reveal_strlit("End");
            reveal_strlit("Insert");
            reveal_strlit("Delete");
            reveal_strlit("Escape");
            reveal_strlit("Enter");
            reveal_strlit("Backspace");
            reveal_strlit("Space");
            reveal_strlit("ArrowUp");
            reveal_strlit("ArrowDown");
            reveal_strlit("ArrowLeft");
            reveal_strlit("ArrowRight");
            reveal_strlit("F1");
            reveal_strlit("F2");
            reveal_strlit("F3");
            reveal_strlit("F4");
            reveal_strlit("F5");
            reveal_strlit("F6");
            reveal_strlit("F7");
            reveal_strlit("F8");
            reveal_strlit("F9");
            reveal_strlit("F10");
            reveal_strlit("F11");
            reveal_strlit("F12");
            reveal_strlit("F13");
            reveal_strlit("F14");
            reveal_strlit("F15");
            reveal_strlit("F16");
            reveal_strlit("F17");
            assert("F17"@[0] != "Tab"@[0]);
            assert("F17"@.len() != "PageUp"@.len());
            assert("F17"@.len() != "PageDown"@.len());
            assert("F17"@.len() != "Home"@.len());
            assert("F17"@[0] != "End"@[0]);
            assert("F17"@.len() != "Insert"@.len());
            assert("F17"@.len() != "Delete"@.len());
            assert("F17"@.len() != "Escape"@.len());
            assert("F17"@.len() != "Enter"@.len());
            assert("F17"@.len() != "Backspace"@.len());
            assert("F17"@.len() != "Space"@.len());
            assert("F17"@.len() != "ArrowUp"@.len());
            assert("F17"@.len() != "ArrowDown"@.len());
            assert("F17"@.len() != "ArrowLeft"@.len());
            assert("F17"@.len() != "ArrowRight"@.len());
            assert("F17"@.len() != "F1"@.len());
            assert("F17"@.len() != "F2"@.len());
            assert("F17"@.len() != "F3"@.len());
            assert("F17"@.len() != "F4"@.len());
            assert("F17"@.len() != "F5"@.len());
            assert("F17"@.len() != "F6"@.len());
            assert("F17"@.len() != "F7"@.len());
            assert("F17"@.len() != "F8"@.len());
            assert("F17"@.len() != "F9"@.len());
            assert("F17"@[2] != "F10"@[2]);
            assert("F17"@[2] != "F11"@[2]);
            assert("F17"@[2] != "F12"@[2]);
            assert("F17"@[2] != "F13"@[2]);
            assert("F17"@[2] != "F14"@[2]);
            assert("F17"@[2] != "F15"@[2]);
            assert("F17"@[2] != "F16"@[2]);
        },
        NamedKey::F18 => assert(spec_parse_key("F18"@) == Some(BindingKeyView::Named(k))) by {
            reveal_strlit("Tab");
            reveal_strlit("PageUp");
            reveal_strlit("PageDown");
            reveal_strlit("Home");
            reveal_strlit("End");
            reveal_strlit("Insert");
            reveal_strlit("Delete");
            reveal_strlit("Escape");
            reveal_strlit("Enter");
            reveal_strlit("Backspace");
            reveal_strlit("Space");
            reveal_strlit("ArrowUp");
            reveal_strlit("ArrowDown");
            reveal_strlit("ArrowLeft");
            reveal_strlit("ArrowRight");
            reveal_strlit("F1");
            reveal_strlit("F2");
            reveal_strlit("F3");
            reveal_strlit("F4");
            reveal_strlit("F5");
            reveal_strlit("F6");
            reveal_strlit("F7");
            reveal_strlit("F8");
            reveal_strlit("F9");
            reveal_strlit("F10");
            reveal_strlit("F11");
            reveal_strlit("F12");
            reveal_strlit("F13");
            reveal_strlit("F14");
            reveal_strlit("F15");
            reveal_strlit("F16");
            reveal_strlit("F17");
            reveal_strlit("F18");
            assert("F18"@[0] != "Tab"@[0]);
            assert("F18"@.len() != "PageUp"@.len());
            assert("F18"@.len() != "PageDown"@.len());
            assert("F18"@.len() != "Home"@.len());
            assert("F18"@[0] != "End"@[0]);
            assert("F18"@.len() != "Insert"@.len());
            assert("F18"@.len() != "Delete"@.len());
            assert("F18"@.len() != "Escape"@.len());
            assert("F18"@.len() != "Enter"@.len());
            assert("F18"@.len() != "Backspace"@.len());
            assert("F18"@.len() != "Space"@.len());
            assert("F18"@.len() != "ArrowUp"@.len());
            assert("F18"@.len() != "ArrowDown"@.len());
            assert("F18"@.len() != "ArrowLeft"@.len());
            assert("F18"@.len() != "ArrowRight"@.len());
            assert("F18"@.len() != "F1"@.len());
            assert("F18"@.len() != "F2"@.len());
            assert("F18"@.len() != "F3"@.len());
            assert("F18"@.len() != "F4"@.len());
            assert("F18"@.len() != "F5"@.len());
            assert("F18"@.len() != "F6"@.len());
            assert("F18"@.len() != "F7"@.len());
            assert("F18"@.len() != "F8"@.len());
            assert("F18"@.len() != "F9"@.len());
            assert("F18"@[2] != "F10"@[2]);
            assert("F18"@[2] != "F11"@[2]);
            assert("F18"@[2] != "F12"@[2]);
            assert("F18"@[2] != "F13"@[2]);
            assert("F18"@[2] != "F14"@[2]);
            assert("F18"@[2] != "F15"@[2]);
            assert("F18"@[2] != "F16"@[2]);
            assert("F18"@[2] != "F17"@[2]);
        },
        NamedKey::F19 => assert(spec_parse_key("F19"@) == Some(BindingKeyView::Named(k))) by {
            reveal_strlit("Tab");
            reveal_strlit("PageUp");
            reveal_strlit("PageDown");
            reveal_strlit("Home");
            reveal_strlit("End");
            reveal_strlit("Insert");
            reveal_strlit("Delete");
            reveal_strlit("Escape");
            reveal_strlit("Enter");
            reveal_strlit("Backspace");
            reveal_strlit("Space");
            reveal_strlit("ArrowUp");
            reveal_strlit("ArrowDown");
            reveal_strlit("ArrowLeft");
            reveal_strlit("ArrowRight");
            reveal_strlit("F1");
            reveal_strlit("F2");
            reveal_strlit("F3");
            reveal_strlit("F4");
            reveal_strlit("F5");
            reveal_strlit("F6");
            reveal_strlit("F7");
            reveal_strlit("F8");
            reveal_strlit("F9");
            reveal_strlit("F10");
            reveal_strlit("F11");
            reveal_strlit("F12");
            reveal_strlit("F13");
            reveal_strlit("F14");
            reveal_strlit("F15");
            reveal_strlit("F16");
            reveal_strlit("F17");
            reveal_strlit("F18");
            reveal_strlit("F19");
            assert("F19"@[0] != "Tab"@[0]);
            assert("F19"@.len() != "PageUp"@.len());
            assert("F19"@.len() != "PageDown"@.len());
            assert("F19"@.len() != "Home"@.len());
            assert("F19"@[0] != "End"@[0]);
            assert("F19"@.len() != "Insert"@.len());
            assert("F19"@.len() != "Delete"@.len());
            assert("F19"@.len() != "Escape"@.len());
            assert("F19"@.len() != "Enter"@.len());
            assert("F19"@.len() != "Backspace"@.len());
            assert("F19"@.len() != "Space"@.len());
            assert("F19"@.len() != "ArrowUp"@.len());
            assert("F19"@.len() != "ArrowDown"@.len());
            assert("F19"@.len() != "ArrowLeft"@.len());
            assert("F19"@.len() != "ArrowRight"@.len());
            assert("F19"@.len() != "F1"@.len());
            assert("F19"@.len() != "F2"@.len());
            assert("F19"@.len() != "F3"@.len());
            assert("F19"@.len() != "F4"@.len());
            assert("F19"@.len() != "F5"@.len());
            assert("F19"@.len() != "F6"@.len());
            assert("F19"@.len() != "F7"@.len());
            assert("F19"@.len() != "F8"@.len());
            assert("F19"@.len() != "F9"@.len());
            assert("F19"@[2] != "F10"@[2]);
            assert("F19"@[2] != "F11"@[2]);
            assert("F19"@[2] != "F12"@[2]);
            assert("F19"@[2] != "F13"@[2]);
            assert("F19"@[2] != "F14"@[2]);
            assert("F19"@[2] != "F15"@[2]);
            assert("F19"@[2] != "F16"@[2]);
            assert("F19"@[2] != "F17"@[2]);
            assert("F19"@[2] != "F18"@[2]);
        },
        NamedKey::F20 => assert(spec_parse_key("F20"@) == Some(BindingKeyView::Named(k))) by {
            reveal_strlit("Tab");
            reveal_strlit("PageUp");
            reveal_strlit("PageDown");
            reveal_strlit("Home");
            reveal_strlit("End");
            reveal_strlit("Insert");
            reveal_strlit("Delete");
            reveal_strlit("Escape");
            reveal_strlit("Enter");
            reveal_strlit("Backspace");
            reveal_strlit("Space");
            reveal_strlit("ArrowUp");
            reveal_strlit("ArrowDown");
            reveal_strlit("ArrowLeft");
            reveal_strlit("ArrowRight");
            reveal_strlit("F1");
            reveal_strlit("F2");
            reveal_strlit("F3");
            reveal_strlit("F4");
            reveal_strlit("F5");
            reveal_strlit("F6");
            reveal_strlit("F7");
            reveal_strlit("F8");
            reveal_strlit("F9");
            reveal_strlit("F10");
            reveal_strlit("F11");
            reveal_strlit("F12");
            reveal_strlit("F13");
            reveal_strlit("F14");
            reveal_strlit("F15");
            reveal_strlit("F16");
            reveal_strlit("F17");
            reveal_strlit("F18");
            reveal_strlit("F19");
            reveal_strlit("F20");
            assert("F20"@[0] != "Tab"@[0]);
            assert("F20"@.len() != "PageUp"@.len());
            assert("F20"@.len() != "PageDown"@.len());
            assert("F20"@.len() != "Home"@.len());
            assert("F20"@[0] != "End"@[0]);
            assert("F20"@.len() != "Insert"@.len());
            assert("F20"@.len() != "Delete"@.len());
            assert("F20"@.len() != "Escape"@.len());
            assert("F20"@.len() != "Enter"@.len());
            assert("F20"@.len() != "Backspace"@.len());
            assert("F20"@.len() != "Space"@.len());
            assert("F20"@.len() != "ArrowUp"@.len());
            assert("F20"@.len() != "ArrowDown"@.len());
            assert("F20"@.len() != "ArrowLeft"@.len());
            assert("F20"@.len() != "ArrowRight"@.len());
            assert("F20"@.len() != "F1"@.len());
            assert("F20"@.len() != "F2"@.len());
            assert("F20"@.len() != "F3"@.len());
            assert("F20"@.len() != "F4"@.len());
            assert("F20"@.len() != "F5"@.len());
            assert("F20"@.len() != "F6"@.len());
            assert("F20"@.len() != "F7"@.len());
            assert("F20"@.len() != "F8"@.len());
            assert("F20"@.len() != "F9"@.len());
            assert("F20"@[1] != "F10"@[1]);
            assert("F20"@[1] != "F11"@[1]);
            assert("F20"@[1] != "F12"@[1]);
            assert("F20"@[1] != "F13"@[1]);
            assert("F20"@[1] != "F14"@[1]);
            assert("F20"@[1] != "F15"@[1]);
            assert("F20"@[1] != "F16"@[1]);
            assert("F20"@[1] != "F17"@[1]);
            assert("F20"@[1] != "F18"@[1]);
            assert("F20"@[1] != "F19"@[1]);
        },
        NamedKey::F21 => assert(spec_parse_key("F21"@) == Some(BindingKeyView::Named(k))) by {
            reveal_strlit("Tab");
            reveal_strlit("PageUp");
            reveal_strlit("PageDown");
            reveal_strlit("Home");
            reveal_strlit("End");
            reveal_strlit("Insert");
            reveal_strlit("Delete");
            reveal_strlit("Escape");
            reveal_strlit("Enter");
            reveal_strlit("Backspace");
            reveal_strlit("Space");
            reveal_strlit("ArrowUp");
            reveal_strlit("ArrowDown");
            reveal_strlit("ArrowLeft");
            reveal_strlit("ArrowRight");
            reveal_strlit("F1");
            reveal_strlit("F2");
            reveal_strlit("F3");
            reveal_strlit("F4");
            reveal_strlit("F5");
            reveal_strlit("F6");
            reveal_strlit("F7");
            reveal_strlit("F8");
            reveal_strlit("F9");
            reveal_strlit("F10");
            reveal_strlit("F11");
            reveal_strlit("F12");
            reveal_strlit("F13");
            reveal_strlit("F14");
            reveal_strlit("F15");
            reveal_strlit("F16");
            reveal_strlit("F17");
            reveal_strlit("F18");
            reveal_strlit("F19");
            reveal_strlit("F20");
            reveal_strlit("F21");
            assert("F21"@[0] != "Tab"@[0]);
            assert("F21"@.len() != "PageUp"@.len());
            assert("F21"@.len() != "PageDown"@.len());
            assert("F21"@.len() != "Home"@.len());
            assert("F21"@[0] != "End"@[0]);
            assert("F21"@.len() != "Insert"@.len());
            assert("F21"@.len() != "Delete"@.len());
            assert("F21"@.len() != "Escape"@.len());
            assert("F21"@.len() != "Enter"@.len());
            assert("F21"@.len() != "Backspace"@.len());
            assert("F21"@.len() != "Space"@.len());
            assert("F21"@.len() != "ArrowUp"@.len());
            assert("F21"@.len() != "ArrowDown"@.len());
            assert("F21"@.len() != "ArrowLeft"@.len());
            assert("F21"@.len() != "ArrowRight"@.len());
            assert("F21"@.len() != "F1"@.len());
            assert("F21"@.len() != "F2"@.len());
            assert("F21"@.len() != "F3"@.len());
            assert("F21"@.len() != "F4"@.len());
            assert("F21"@.len() != "F5"@.len());
            assert("F21"@.len() != "F6"@.len());
            assert("F21"@.len() != "F7"@.len());
            assert("F21"@.len() != "F8"@.len());
            assert("F21"@.len() != "F9"@.len());
            assert("F21"@[1] != "F10"@[1]);
            assert("F21"@[1] != "F11"@[1]);
            assert("F21"@[1] != "F12"@[1]);
            assert("F21"@[1] != "F13"@[1]);
            assert("F21"@[1] != "F14"@[1]);
            assert("F21"@[1] != "F15"@[1]);
            assert("F21"@[1] != "F16"@[1]);
            assert("F21"@[1] != "F17"@[1]);
            assert("F21"@[1] != "F18"@[1]);
            assert("F21"@[1] != "F19"@[1]);
            assert("F21"@[2] != "F20"@[2]);
        },
        NamedKey::F22 => assert(spec_parse_key("F22"@) == Some(BindingKeyView::Named(k))) by {
            reveal_strlit("Tab");
            reveal_strlit("PageUp");
            reveal_strlit("PageDown");
            reveal_strlit("Home");
            reveal_strlit("End");
            reveal_strlit("Insert");
            reveal_strlit("Delete");
            reveal_strlit("Escape");
            reveal_strlit("Enter");
            reveal_strlit("Backspace");
            reveal_strlit("Space");
            reveal_strlit("ArrowUp");
            reveal_strlit("ArrowDown");
            reveal_strlit("ArrowLeft");
            reveal_strlit("ArrowRight");
            reveal_strlit("F1");
            reveal_strlit("F2");
            reveal_strlit("F3");
            reveal_strlit("F4");
            reveal_strlit("F5");
            reveal_strlit("F6");
            reveal_strlit("F7");
            reveal_strlit("F8");
            reveal_strlit("F9");
            reveal_strlit("F10");
            reveal_strlit("F11");
            reveal_strlit("F12");
            reveal_strlit("F13");
            reveal_strlit("F14");
            reveal_strlit("F15");
            reveal_strlit("F16");
            reveal_strlit("F17");
            reveal_strlit("F18");
            reveal_strlit("F19");
            reveal_strlit("F20");
            reveal_strlit("F21");
            reveal_strlit("F22");
            assert("F22"@[0] != "Tab"@[0]);
            assert("F22"@.len() != "PageUp"@.len());
            assert("F22"@.len() != "PageDown"@.len());
            assert("F22"@.len() != "Home"@.len());
            assert("F22"@[0] != "End"@[0]);
            assert("F22"@.len() != "Insert"@.len());
            assert("F22"@.len() != "Delete"@.len());
            assert("F22"@.len() != "Escape"@.len());
            assert("F22"@.len() != "Enter"@.len());
            assert("F22"@.len() != "Backspace"@.len());
            assert("F22"@.len() != "Space"@.len());
            assert("F22"@.len() != "ArrowUp"@.len());
            assert("F22"@.len() != "ArrowDown"@.len());
            assert("F22"@.len() != "ArrowLeft"@.len());
            assert("F22"@.len() != "ArrowRight"@.len());
            assert("F22"@.len() != "F1"@.len());
            assert("F22"@.len() != "F2"@.len());
            assert("F22"@.len() != "F3"@.len());
            assert("F22"@.len() != "F4"@.len());
            assert("F22"@.len() != "F5"@.len());
            assert("F22"@.len() != "F6"@.len());
            assert("F22"@.len() != "F7"@.len());
            assert("F22"@.len() != "F8"@.len());
            assert("F22"@.len() != "F9"@.len());
            assert("F22"@[1] != "F10"@[1]);
            assert("F22"@[1] != "F11"@[1]);
            assert("F22"@[1] != "F12"@[1]);
            assert("F22"@[1] != "F13"@[1]);
            assert("F22"@[1] != "F14"@[1]);
            assert("F22"@[1] != "F15"@[1]);
            assert("F22"@[1] != "F16"@[1]);
            assert("F22"@[1] != "F17"@[1]);
            assert("F22"@[1] != "F18"@[1]);
            assert("F22"@[1] != "F19"@[1]);
            assert("F22"@[2] != "F20"@[2]);
            assert("F22"@[2] != "F21"@[2]);
        },
        NamedKey::F23 => assert(spec_parse_key("F23"@) == Some(BindingKeyView::Named(k))) by {
            reveal_strlit("Tab");
            reveal_strlit("PageUp");
            reveal_strlit("PageDown");
            reveal_strlit("Home");
            reveal_strlit("End");
            reveal_strlit("Insert");
            reveal_strlit("Delete");
            reveal_strlit("Escape");
            reveal_strlit("Enter");
            reveal_strlit("Backspace");
            reveal_strlit("Space");
            reveal_strlit("ArrowUp");
            reveal_strlit("ArrowDown");
            reveal_strlit("ArrowLeft");
            reveal_strlit("ArrowRight");
            reveal_strlit("F1");
            reveal_strlit("F2");
            reveal_strlit("F3");
            reveal_strlit("F4");
            reveal_strlit("F5");
            reveal_strlit("F6");
            reveal_strlit("F7");
            reveal_strlit("F8");
            reveal_strlit("F9");
            reveal_strlit("F10");
            reveal_strlit("F11");
            reveal_strlit("F12");
            reveal_strlit("F13");
            reveal_strlit("F14");
            reveal_strlit("F15");
            reveal_strlit("F16");
            reveal_strlit("F17");
            reveal_strlit("F18");
            reveal_strlit("F19");
            reveal_strlit("F20");
            reveal_strlit("F21");
            reveal_strlit("F22");
            reveal_strlit("F23");
            assert("F23"@[0] != "Tab"@[0]);
            assert("F23"@.len() != "PageUp"@.len());
            assert("F23"@.len() != "PageDown"@.len());
            assert("F23"@.len() != "Home"@.len());
            assert("F23"@[0] != "End"@[0]);
            assert("F23"@.len() != "Insert"@.len());
            assert("F23"@.len() != "Delete"@.len());
            assert("F23"@.len() != "Escape"@.len());
            assert("F23"@.len() != "Enter"@.len());
            assert("F23"@.len() != "Backspace"@.len());
            assert("F23"@.len() != "Space"@.len());
            assert("F23"@.len() != "ArrowUp"@.len());
            assert("F23"@.len() != "ArrowDown"@.len());
            assert("F23"@.len() != "ArrowLeft"@.len());
            assert("F23"@.len() != "ArrowRight"@.len());
            assert("F23"@.len() != "F1"@.len());
            assert("F23"@.len() != "F2"@.len());
            assert("F23"@.len() != "F3"@.len());
            assert("F23"@.len() != "F4"@.len());
            assert("F23"@.len() != "F5"@.len());
            assert("F23"@.len() != "F6"@.len());
            assert("F23"@.len() != "F7"@.len());
            assert("F23"@.len() != "F8"@.len());
            assert("F23"@.len() != "F9"@.len());
            assert("F23"@[1] != "F10"@[1]);
            assert("F23"@[1] != "F11"@[1]);
            assert("F23"@[1] != "F12"@[1]);
            assert("F23"@[1] != "F13"@[1]);
            assert("F23"@[1] != "F14"@[1]);
            assert("F23"@[1] != "F15"@[1]);
            assert("F23"@[1] != "F16"@[1]);
            assert("F23"@[1] != "F17"@[1]);
            assert("F23"@[1] != "F18"@[1]);
            assert("F23"@[1] != "F19"@[1]);
            assert("F23"@[2] != "F20"@[2]);
            assert("F23"@[2] != "F21"@[2]);
            assert("F23"@[2] != "F22"@[2]);
        },
        NamedKey::F24 => assert(spec_parse_key("F24"@) == Some(BindingKeyView::Named(k))) by {
            reveal_strlit("Tab");
            reveal_strlit("PageUp");
            reveal_strlit("PageDown");
            reveal_strlit("Home");
            reveal_strlit("End");
            reveal_strlit("Insert");
            reveal_strlit("Delete");
            reveal_strlit("Escape");
            reveal_strlit("Enter");
            reveal_strlit("Backspace");
            reveal_strlit("Space");
            reveal_strlit("ArrowUp");
            reveal_strlit("ArrowDown");
            reveal_strlit("ArrowLeft");
            reveal_strlit("ArrowRight");
            reveal_strlit("F1");
            reveal_strlit("F2");
            reveal_strlit("F3");
            reveal_strlit("F4");
            reveal_strlit("F5");
            reveal_strlit("F6");
            reveal_strlit("F7");
            reveal_strlit("F8");
            reveal_strlit("F9");
            reveal_strlit("F10");
            reveal_strlit("F11");
            reveal_strlit("F12");
            reveal_strlit("F13");
            reveal_strlit("F14");
            reveal_strlit("F15");
            reveal_strlit("F16");
            reveal_strlit("F17");
            reveal_strlit("F18");
            reveal_strlit("F19");
            reveal_strlit("F20");
            reveal_strlit("F21");
            reveal_strlit("F22");
            reveal_strlit("F23");
            reveal_strlit("F24");
            assert("F24"@[0] != "Tab"@[0]);
            assert("F24"@.len() != "PageUp"@.len());
            assert("F24"@.len() != "PageDown"@.len());
            assert("F24"@.len() != "Home"@.len());
            assert("F24"@[0] != "End"@[0]);
            assert("F24"@.len() != "Insert"@.len());
            assert("F24"@.len() != "Delete"@.len());
            assert("F24"@.len() != "Escape"@.len());
            assert("F24"@.len() != "Enter"@.len());
            assert("F24"@.len() != "Backspace"@.len());
            assert("F24"@.len() != "Space"@.len());
            assert("F24"@.len() != "ArrowUp"@.len());
            assert("F24"@.len() != "ArrowDown"@.len());
            assert("F24"@.len() != "ArrowLeft"@.len());
            assert("F24"@.len() != "ArrowRight"@.len());
            assert("F24"@.len() != "F1"@.len());
            assert("F24"@.len() != "F2"@.len());
            assert("F24"@.len() != "F3"@.len());
            assert("F24"@.len() != "F4"@.len());
            assert("F24"@.len() != "F5"@.len());
            assert("F24"@.len() != "F6"@.len());
            assert("F24"@.len() != "F7"@.len());
            assert("F24"@.len() != "F8"@.len());
            assert("F24"@.len() != "F9"@.len());
            assert("F24"@[1] != "F10"@[1]);
            assert("F24"@[1] != "F11"@[1]);
            assert("F24"@[1] != "F12"@[1]);
            assert("F24"@[1] != "F13"@[1]);
            assert("F24"@[1] != "F14"@[1]);
            assert("F24"@[1] != "F15"@[1]);
            assert("F24"@[1] != "F16"@[1]);
            assert("F24"@[1] != "F17"@[1]);
            assert("F24"@[1] != "F18"@[1]);
            assert("F24"@[1] != "F19"@[1]);
            assert("F24"@[2] != "F20"@[2]);
            assert("F24"@[2] != "F21"@[2]);
            assert("F24"@[2] != "F22"@[2]);
            assert("F24"@[2] != "F23"@[2]);
        },
        _ => {},
    }
}

// ── Hex escapes ──

/// Digit `i` of the hexadecimal digits, in upper or lower case.
pub open spec fn hex_digit_char(i: int, upper: bool) -> char {
    if upper {
        "0123456789ABCDEF"@[i]
    } else {
        "0123456789abcdef"@[i]
    }
}

proof fn lemma_hex_digit_value(i: int, upper: bool)
    requires
        0 <= i < 16,
    ensures
        hex_val(hex_digit_char(i, upper)) == Some(i as u8),
{
    reveal_strlit("0123456789ABCDEF");
    reveal_strlit("0123456789abcdef");
    if i == 0 {} else if i == 1 {} else if i == 2 {} else if i == 3 {} else if i == 4 {} else if i == 5 {}
    else if i == 6 {} else if i == 7 {} else if i == 8 {} else if i == 9 {} else if i == 10 {}
    else if i == 11 {} else if i == 12 {} else if i == 13 {} else if i == 14 {} else {}
}

/// A `\xHH` escape gives the character whose code the two digits spell in
/// base 16, each digit written in either case: digit `i` of `0123456789abcdef`
/// (or `0123456789ABCDEF`) stands for `i`, so `\x1B` and `\x1b`
/// both give ESC.
pub proof fn law_hex_escape(i: int, j: int, upper_hi: bool, upper_lo: bool)
    requires
        0 <= i < 16,
        0 <= j < 16,
    ensures
        spec_unescape(seq!['\\', 'x', hex_digit_char(i, upper_hi), hex_digit_char(j, upper_lo)])
            == seq![((16 * i + j) as u32) as char],
{
    lemma_hex_digit_value(i, upper_hi);
    lemma_hex_digit_value(j, upper_lo);
    let s = seq!['\\', 'x', hex_digit_char(i, upper_hi), hex_digit_char(j, upper_lo)];
    let rest = s.skip(2);
    assert(rest =~= seq![hex_digit_char(i, upper_hi), hex_digit_char(j, upper_lo)]);
    assert(hex_digit_char(i, upper_hi) != '+');
    assert(rest.skip(2) =~= Seq::<char>::empty());
    assert(spec_unescape(rest.skip(2)) == Seq::<char>::empty());
    assert(((i * 16 + j) as u8) as u32 == (16 * i + j) as u32);
}

// ── Default table ──

/// The modifier set of Shift, Alt and Control as held.
pub open spec fn mods_of(shift: bool, alt: bool, ctrl: bool) -> Modifiers {
    Modifiers { bits: ((if shift { 1int } else { 0 }) + (if alt { 2int } else { 0 }) + (if ctrl { 4int } else { 0 })) as u8 }
}

/// In a table with one binding per key and modifier set, looking up a
/// binding's key and modifiers finds that binding's action.
proof fn lemma_find_slot(bs: Seq<KeyBindingView>, i: int)
    requires
        one_per_slot(bs),
        0 <= i < bs.len(),
    ensures
        spec_find_binding(bs, bs[i].key, bs[i].mods) == Some(bs[i].action),
    decreases i,
{
    if i > 0 {
        assert(!same_slot(bs[0], bs[i]));
        let t = bs.drop_first();
        assert forall|a: int, b: int| 0 <= a < b < t.len() implies !same_slot(#[trigger] t[a], #[trigger] t[b]) by {
            assert(t[a] == bs[a + 1] && t[b] == bs[b + 1]);
        }
        assert(t[i - 1] == bs[i]);
        lemma_find_slot(t, i - 1);
    }
}

/// The default bindings: Ctrl+Shift+C/V copy and paste, Ctrl+Insert copies
/// and Shift+Insert pastes, Ctrl+Shift+R reloads the configuration,
/// Ctrl+Shift+F opens search, Ctrl+=/+/-/0 zoom in, in, out and reset,
/// Ctrl+T/W open and close a tab, Ctrl+Tab and Ctrl+Shift+Tab go to the
/// next and previous tab, Shift+PageUp/PageDown/Home/End scroll a page up,
/// a page down, to the top and to the bottom, Ctrl+Shift+Up/Down jump to
/// the previous and next prompt, Alt+Enter toggles fullscreen,
/// Ctrl+Shift+M enters mark mode, Ctrl+Shift+O/E split right and down,
/// Ctrl+Alt+arrows focus the pane in that direction, Ctrl+Alt+[/] go to the
/// previous and next pane, Ctrl+Shift+W closes the pane,
/// Ctrl+Shift+Alt+arrows resize the pane in that direction, Ctrl+Shift+=
/// equalizes panes, Ctrl+Shift+Z toggles zoom, and Ctrl+C/V are smart copy
/// and paste.
#[verifier::rlimit(100)]
pub proof fn law_default_bindings()
    ensures
        spec_find_binding(spec_default_bindings(), BindingKeyView::Character("c"@), mods_of(true, false, true)) == Some(ActionView::Copy),
        spec_find_binding(spec_default_bindings(), BindingKeyView::Character("v"@), mods_of(true, false, true)) == Some(ActionView::Paste),
        spec_find_binding(spec_default_bindings(), BindingKeyView::Named(NamedKey::Insert), mods_of(false, false, true)) == Some(ActionView::Copy),
        spec_find_binding(spec_default_bindings(), BindingKeyView::Named(NamedKey::Insert), mods_of(true, false, false)) == Some(ActionView::Paste),
        spec_find_binding(spec_default_bindings(), BindingKeyView::Character("r"@), mods_of(true, false, true)) == Some(ActionView::ReloadConfig),
        spec_find_binding(spec_default_bindings(), BindingKeyView::Character("f"@), mods_of(true, false, true)) == Some(ActionView::OpenSearch),
        spec_find_binding(spec_default_bindings(), BindingKeyView::Character("="@), mods_of(false, false, true)) == Some(ActionView::ZoomIn),
        spec_find_binding(spec_default_bindings(), BindingKeyView::Character("+"@), mods_of(false, false, true)) == Some(ActionView::ZoomIn),
        spec_find_binding(spec_default_bindings(), BindingKeyView::Character("-"@), mods_of(false, false, true)) == Some(ActionView::ZoomOut),
        spec_find_binding(spec_default_bindings(), BindingKeyView::Character("0"@), mods_of(false, false, true)) == Some(ActionView::ZoomReset),
        spec_find_binding(spec_default_bindings(), BindingKeyView::Character("t"@), mods_of(false, false, true)) == Some(ActionView::NewTab),
        spec_find_binding(spec_default_bindings(), BindingKeyView::Character("w"@), mods_of(false, false, true)) == Some(ActionView::CloseTab),
        spec_find_binding(spec_default_bindings(), BindingKeyView::Named(NamedKey::Tab), mods_of(false, false, true)) == Some(ActionView::NextTab),
        spec_find_binding(spec_default_bindings(), BindingKeyView::Named(NamedKey::Tab), mods_of(true, false, true)) == Some(ActionView::PrevTab),
        spec_find_binding(spec_default_bindings(), BindingKeyView::Named(NamedKey::PageUp), mods_of(true, false, false)) == Some(ActionView::ScrollPageUp),
        spec_find_binding(spec_default_bindings(), BindingKeyView::Named(NamedKey::PageDown), mods_of(true, false, false)) == Some(ActionView::ScrollPageDown),
        spec_find_binding(spec_default_bindings(), BindingKeyView::Named(NamedKey::Home), mods_of(true, false, false)) == Some(ActionView::ScrollToTop),
        spec_find_binding(spec_default_bindings(), BindingKeyView::Named(NamedKey::End), mods_of(true, false, false)) == Some(ActionView::ScrollToBottom),
        spec_find_binding(spec_default_bindings(), BindingKeyView::Named(NamedKey::ArrowUp), mods_of(true, false, true)) == Some(ActionView::PreviousPrompt),
        spec_find_binding(spec_default_bindings(), BindingKeyView::Named(NamedKey::ArrowDown), mods_of(true, false, true)) == Some(ActionView::NextPrompt),
        spec_find_binding(spec_default_bindings(), BindingKeyView::Named(NamedKey::Enter), mods_of(false, true, false)) == Some(ActionView::ToggleFullscreen),
        spec_find_binding(spec_default_bindings(), BindingKeyView::Character("m"@), mods_of(true, false, true)) == Some(ActionView::EnterMarkMode),
        spec_find_binding(spec_default_bindings(), BindingKeyView::Character("o"@), mods_of(true, false, true)) == Some(ActionView::SplitRight),
        spec_find_binding(spec_default_bindings(), BindingKeyView::Character("e"@), mods_of(true, false, true)) == Some(ActionView::SplitDown),
        spec_find_binding(spec_default_bindings(), BindingKeyView::Named(NamedKey::ArrowUp), mods_of(false, true, true)) == Some(ActionView::FocusPaneUp),
        spec_find_binding(spec_default_bindings(), BindingKeyView::Named(NamedKey::ArrowDown), mods_of(false, true, true)) == Some(ActionView::FocusPaneDown),
        spec_find_binding(spec_default_bindings(), BindingKeyView::Named(NamedKey::ArrowLeft), mods_of(false, true, true)) == Some(ActionView::FocusPaneLeft),
        spec_find_binding(spec_default_bindings(), BindingKeyView::Named(NamedKey::ArrowRight), mods_of(false, true, true)) == Some(ActionView::FocusPaneRight),
        spec_find_binding(spec_default_bindings(), BindingKeyView::Character("["@), mods_of(false, true, true)) == Some(ActionView::PrevPane),
        spec_find_binding(spec_default_bindings(), BindingKeyView::Character("]"@), mods_of(false, true, true)) == Some(ActionView::NextPane),
        spec_find_binding(spec_default_bindings(), BindingKeyView::Character("w"@), mods_of(true, false, true)) == Some(ActionView::ClosePane),
        spec_find_binding(spec_default_bindings(), BindingKeyView::Named(NamedKey::ArrowUp), mods_of(true, true, true)) == Some(ActionView::ResizePaneUp),
        spec_find_binding(spec_default_bindings(), BindingKeyView::Named(NamedKey::ArrowDown), mods_of(true, true, true)) == Some(ActionView::ResizePaneDown),
        spec_find_binding(spec_default_bindings(), BindingKeyView::Named(NamedKey::ArrowLeft), mods_of(true, true, true)) == Some(ActionView::ResizePaneLeft),
        spec_find_binding(spec_default_bindings(), BindingKeyView::Named(NamedKey::ArrowRight), mods_of(true, true, true)) == Some(ActionView::ResizePaneRight),
        spec_find_binding(spec_default_bindings(), BindingKeyView::Character("="@), mods_of(true, false, true)) == Some(ActionView::EqualizePanes),
        spec_find_binding(spec_default_bindings(), BindingKeyView::Character("z"@), mods_of(true, false, true)) == Some(ActionView::ToggleZoom),
        spec_find_binding(spec_default_bindings(), BindingKeyView::Character("c"@), mods_of(false, false, true)) == Some(ActionView::SmartCopy),
        spec_find_binding(spec_default_bindings(), BindingKeyView::Character("v"@), mods_of(false, false, true)) == Some(ActionView::SmartPaste),
{
    lemma_defaults_one_per_slot();
    let d = spec_default_bindings();
    lemma_find_slot(d, 0);
    lemma_find_slot(d, 1);
    lemma_find_slot(d, 2);
    lemma_find_slot(d, 3);
    lemma_find_slot(d, 4);
    lemma_find_slot(d, 5);
    lemma_find_slot(d, 6);
    lemma_find_slot(d, 7);
    lemma_find_slot(d, 8);
    lemma_find_slot(d, 9);
    lemma_find_slot(d, 10);
    lemma_find_slot(d, 11);
    lemma_find_slot(d, 12);
    lemma_find_slot(d, 13);
    lemma_find_slot(d, 14);
    lemma_find_slot(d, 15);
    lemma_find_slot(d, 16);
    lemma_find_slot(d, 17);
    lemma_find_slot(d, 18);
    lemma_find_slot(d, 19);
    lemma_find_slot(d, 20);
    lemma_find_slot(d, 21);
    lemma_find_slot(d, 22);
    lemma_find_slot(d, 23);
    lemma_find_slot(d, 24);
    lemma_find_slot(d, 25);
    lemma_find_slot(d, 26);
    lemma_find_slot(d, 27);
    lemma_find_slot(d, 28);
    lemma_find_slot(d, 29);
    lemma_find_slot(d, 30);
    lemma_find_slot(d, 31);
    lemma_find_slot(d, 32);
    lemma_find_slot(d, 33);
    lemma_find_slot(d, 34);
    lemma_find_slot(d, 35);
    lemma_find_slot(d, 36);
    lemma_find_slot(d, 37);
    lemma_find_slot(d, 38);
}

// ── Action and modifier names ──

/// Each action's configuration name parses to that action: `Copy`, `Paste`,
/// `SmartCopy`, ... as written, and `None` to unbinding.
pub proof fn law_action_names_parse()
    ensures
        spec_parse_action("Copy"@) == Some(ActionView::Copy),
        spec_parse_action("Paste"@) == Some(ActionView::Paste),
        spec_parse_action("SmartCopy"@) == Some(ActionView::SmartCopy),
        spec_parse_action("SmartPaste"@) == Some(ActionView::SmartPaste),
        spec_parse_action("NewTab"@) == Some(ActionView::NewTab),
        spec_parse_action("CloseTab"@) == Some(ActionView::CloseTab),
        spec_parse_action("NextTab"@) == Some(ActionView::NextTab),
        spec_parse_action("PrevTab"@) == Some(ActionView::PrevTab),
        spec_parse_action("ZoomIn"@) == Some(ActionView::ZoomIn),
        spec_parse_action("ZoomOut"@) == Some(ActionView::ZoomOut),
        spec_parse_action("ZoomReset"@) == Some(ActionView::ZoomReset),
        spec_parse_action("ScrollPageUp"@) == Some(ActionView::ScrollPageUp),
        spec_parse_action("ScrollPageDown"@) == Some(ActionView::ScrollPageDown),
        spec_parse_action("ScrollToTop"@) == Some(ActionView::ScrollToTop),
        spec_parse_action("ScrollToBottom"@) == Some(ActionView::ScrollToBottom),
        spec_parse_action("OpenSearch"@) == Some(ActionView::OpenSearch),
        spec_parse_action("ReloadConfig"@) == Some(ActionView::ReloadConfig),
        spec_parse_action("PreviousPrompt"@) == Some(ActionView::PreviousPrompt),
        spec_parse_action("NextPrompt"@) == Some(ActionView::NextPrompt),
        spec_parse_action("DuplicateTab"@) == Some(ActionView::DuplicateTab),
        spec_parse_action("MoveTabToNewWindow"@) == Some(ActionView::MoveTabToNewWindow),
        spec_parse_action("ToggleFullscreen"@) == Some(ActionView::ToggleFullscreen),
        spec_parse_action("EnterMarkMode"@) == Some(ActionView::EnterMarkMode),
        spec_parse_action("SplitRight"@) == Some(ActionView::SplitRight),
        spec_parse_action("SplitDown"@) == Some(ActionView::SplitDown),
        spec_parse_action("FocusPaneUp"@) == Some(ActionView::FocusPaneUp),
        spec_parse_action("FocusPaneDown"@) == Some(ActionView::FocusPaneDown),
        spec_parse_action("FocusPaneLeft"@) == Some(ActionView::FocusPaneLeft),
        spec_parse_action("FocusPaneRight"@) == Some(ActionView::FocusPaneRight),
        spec_parse_action("NextPane"@) == Some(ActionView::NextPane),
        spec_parse_action("PrevPane"@) == Some(ActionView::PrevPane),
        spec_parse_action("ClosePane"@) == Some(ActionView::ClosePane),
        spec_parse_action("ResizePaneUp"@) == Some(ActionView::ResizePaneUp),
        spec_parse_action("ResizePaneDown"@) == Some(ActionView::ResizePaneDown),
        spec_parse_action("ResizePaneLeft"@) == Some(ActionView::ResizePaneLeft),
        spec_parse_action("ResizePaneRight"@) == Some(ActionView::ResizePaneRight),
        spec_parse_action("EqualizePanes"@) == Some(ActionView::EqualizePanes),
        spec_parse_action("ToggleZoom"@) == Some(ActionView::ToggleZoom),
        spec_parse_action("ToggleFloatingPane"@) == Some(ActionView::ToggleFloatingPane),
        spec_parse_action("ToggleFloatTile"@) == Some(ActionView::ToggleFloatTile),
        spec_parse_action("UndoSplit"@) == Some(ActionView::UndoSplit),
        spec_parse_action("RedoSplit"@) == Some(ActionView::RedoSplit),
        spec_parse_action("None"@) == Some(ActionView::Unbind),
{
    law_action_name_roundtrip(ActionView::Copy);
    law_action_name_roundtrip(ActionView::Paste);
    law_action_name_roundtrip(ActionView::SmartCopy);
    law_action_name_roundtrip(ActionView::SmartPaste);
    law_action_name_roundtrip(ActionView::NewTab);
    law_action_name_roundtrip(ActionView::CloseTab);
    law_action_name_roundtrip(ActionView::NextTab);
    law_action_name_roundtrip(ActionView::PrevTab);
    law_action_name_roundtrip(ActionView::ZoomIn);
    law_action_name_roundtrip(ActionView::ZoomOut);
    law_action_name_roundtrip(ActionView::ZoomReset);
    law_action_name_roundtrip(ActionView::ScrollPageUp);
    law_action_name_roundtrip(ActionView::ScrollPageDown);
    law_action_name_roundtrip(ActionView::ScrollToTop);
    law_action_name_roundtrip(ActionView::ScrollToBottom);
    law_action_name_roundtrip(ActionView::OpenSearch);
    law_action_name_roundtrip(ActionView::ReloadConfig);
    law_action_name_roundtrip(ActionView::PreviousPrompt);
    law_action_name_roundtrip(ActionView::NextPrompt);
    law_action_name_roundtrip(ActionView::DuplicateTab);
    law_action_name_roundtrip(ActionView::MoveTabToNewWindow);
    law_action_name_roundtrip(ActionView::ToggleFullscreen);
    law_action_name_roundtrip(ActionView::EnterMarkMode);
    law_action_name_roundtrip(ActionView::SplitRight);
    law_action_name_roundtrip(ActionView::SplitDown);
    law_action_name_roundtrip(ActionView::FocusPaneUp);
    law_action_name_roundtrip(ActionView::FocusPaneDown);
    law_action_name_roundtrip(ActionView::FocusPaneLeft);
    law_action_name_roundtrip(ActionView::FocusPaneRight);
    law_action_name_roundtrip(ActionView::NextPane);
    law_action_name_roundtrip(ActionView::PrevPane);
    law_action_name_roundtrip(ActionView::ClosePane);
    law_action_name_roundtrip(ActionView::ResizePaneUp);
    law_action_name_roundtrip(ActionView::ResizePaneDown);
    law_action_name_roundtrip(ActionView::ResizePaneLeft);
    law_action_name_roundtrip(ActionView::ResizePaneRight);
    law_action_name_roundtrip(ActionView::EqualizePanes);
    law_action_name_roundtrip(ActionView::ToggleZoom);
    law_action_name_roundtrip(ActionView::ToggleFloatingPane);
    law_action_name_roundtrip(ActionView::ToggleFloatTile);
    law_action_name_roundtrip(ActionView::UndoSplit);
    law_action_name_roundtrip(ActionView::RedoSplit);
    law_action_name_roundtrip(ActionView::Unbind);
}

/// `SendText:` followed by any text parses to sending that text after
/// escape processing.
pub proof fn law_send_text_parse(t: Seq<char>)
    ensures
        spec_parse_action("SendText:"@ + t) == Some(ActionView::SendText(spec_unescape(t))),
{
    reveal_strlit("SendText:");
    let s = "SendText:"@ + t;
    assert(s.take(9) =~= "SendText:"@);
    assert(s.skip(9) =~= t);
}

/// A part with no `|` in it forms the whole modifier list.
proof fn lemma_split_bar_single(s: Seq<char>)
    requires
        forall|i: int| 0 <= i < s.len() ==> s[i] != '|',
    ensures
        split_bar(s) == seq![s],
    decreases s.len(),
{
    if s.len() > 0 {
        let d = s.drop_last();
        assert forall|i: int| 0 <= i < d.len() implies d[i] != '|' by {
            assert(d[i] == s[i]);
        }
        lemma_split_bar_single(d);
        assert(s.last() == s[s.len() - 1]);
        assert(d.push(s.last()) =~= s);
        let r = split_bar(d);
        assert(r.len() - 1 == 0 && r.last() == d);
        assert(r.update(0, d.push(s.last())) =~= seq![s]);
    } else {
        assert(s =~= Seq::<char>::empty());
    }
}

/// The modifier bits of a single bar-free, already-trimmed word.
proof fn lemma_mods_of_word(w: Seq<char>)
    requires
        forall|i: int| 0 <= i < w.len() ==> w[i] != '|',
        trim(w) == w,
    ensures
        spec_parse_mods(w).bits == token_bits(w),
{
    lemma_split_bar_single(w);
    let parts = seq![w];
    assert(parts.drop_last() =~= Seq::<Seq<char>>::empty());
    assert(parts.last() == w);
    assert(or_parts(Seq::<Seq<char>>::empty()) == 0u8);
    assert(or_parts(parts) == or_parts(parts.drop_last()) | token_bits(trim(parts.last())));
    let b = token_bits(w);
    assert(0u8 | b == b) by (bit_vector);
}

/// The modifier names: `Ctrl` and `Control` name Control, `Shift` Shift,
/// `Alt` Alt and `Super` Super; `None` and the empty string name no
/// modifier. Joined with `|` they name the union (see `law_parse_mods_join`).
pub proof fn law_modifier_names()
    ensures
        spec_parse_mods("Ctrl"@) == (Modifiers { bits: 4 }),
        spec_parse_mods("Control"@) == (Modifiers { bits: 4 }),
        spec_parse_mods("Shift"@) == (Modifiers { bits: 1 }),
        spec_parse_mods("Alt"@) == (Modifiers { bits: 2 }),
        spec_parse_mods("Super"@) == (Modifiers { bits: 8 }),
        spec_parse_mods("None"@) == (Modifiers { bits: 0 }),
        spec_parse_mods(""@) == (Modifiers { bits: 0 }),
{
    reveal_strlit("Ctrl");
    reveal_strlit("Control");
    reveal_strlit("Shift");
    reveal_strlit("Alt");
    reveal_strlit("Super");
    reveal_strlit("None");
    reveal_strlit("");
    assert(trim("Ctrl"@) == "Ctrl"@);
    assert(trim("Control"@) == "Control"@);
    assert(trim("Shift"@) == "Shift"@);
    assert(trim("Alt"@) == "Alt"@);
    assert(trim("Super"@) == "Super"@);
    assert(trim("None"@) == "None"@);
    assert(trim(Seq::<char>::empty()) == Seq::<char>::empty());
    lemma_mods_of_word("Ctrl"@);
    lemma_mods_of_word("Control"@);
    lemma_mods_of_word("Shift"@);
    lemma_mods_of_word("Alt"@);
    lemma_mods_of_word("Super"@);
    lemma_mods_of_word("None"@);
    lemma_mods_of_word(Seq::<char>::empty());
    assert("Ctrl"@.len() != "Control"@.len());
    assert("Shift"@.len() != "Ctrl"@.len() && "Shift"@.len() != "Control"@.len());
    assert("Alt"@.len() != "Ctrl"@.len() && "Alt"@.len() != "Control"@.len() && "Alt"@.len() != "Shift"@.len());
    assert("Super"@[1] != "Shift"@[1]);
    assert("Super"@.len() != "Ctrl"@.len() && "Super"@.len() != "Control"@.len() && "Super"@.len() != "Alt"@.len());
    assert("None"@[0] != "Ctrl"@[0] && "None"@.len() != "Control"@.len() && "None"@.len() != "Shift"@.len());
    assert("None"@.len() != "Alt"@.len() && "None"@.len() != "Super"@.len());
    assert(""@.len() != "Ctrl"@.len() && ""@.len() != "Control"@.len() && ""@.len() != "Shift"@.len());
    assert(""@.len() != "Alt"@.len() && ""@.len() != "Super"@.len());
}

// ── Simple escapes ──

/// `\n`, `\r`, `\t` and `\\` stand for newline, carriage return, tab and a
/// backslash wherever they occur; a backslash before any other character
/// (other than `x`) is kept with it.
pub proof fn law_simple_escapes(c: char, t: Seq<char>)
    ensures
        spec_unescape(seq!['\\', 'n'] + t) == seq!['\n'] + spec_unescape(t),
        spec_unescape(seq!['\\', 'r'] + t) == seq!['\r'] + spec_unescape(t),
        spec_unescape(seq!['\\', 't'] + t) == seq!['\t'] + spec_unescape(t),
        spec_unescape(seq!['\\', '\\'] + t) == seq!['\\'] + spec_unescape(t),
        c != 'x' && c != 'n' && c != 'r' && c != 't' && c != '\\' ==> spec_unescape(seq!['\\', c] + t) == seq![
            '\\',
            c,
        ] + spec_unescape(t),
{
    assert((seq!['\\', 'n'] + t).skip(2) =~= t);
    assert((seq!['\\', 'r'] + t).skip(2) =~= t);
    assert((seq!['\\', 't'] + t).skip(2) =~= t);
    assert((seq!['\\', '\\'] + t).skip(2) =~= t);
    assert((seq!['\\', c] + t).skip(2) =~= t);
}

// ── macOS table ──

/// The modifier set of Cmd (Super) with Shift and Control as held.
pub open spec fn cmd_mods(shift: bool, ctrl: bool) -> Modifiers {
    Modifiers { bits: (8int + (if shift { 1int } else { 0 }) + (if ctrl { 4int } else { 0 })) as u8 }
}

proof fn lemma_macos_one_per_slot()
    ensures
        one_per_slot(spec_macos_bindings()),
{
    reveal_strlit("+");
    reveal_strlit("-");
    reveal_strlit("0");
    reveal_strlit("=");
    reveal_strlit("c");
    reveal_strlit("f");
    reveal_strlit("n");
    reveal_strlit("t");
    reveal_strlit("v");
    reveal_strlit("w");
    assert("+"@[0] != "-"@[0]);
    assert("+"@[0] != "0"@[0]);
    assert("+"@[0] != "="@[0]);
    assert("+"@[0] != "c"@[0]);
    assert("+"@[0] != "f"@[0]);
    assert("+"@[0] != "n"@[0]);
    assert("+"@[0] != "t"@[0]);
    assert("+"@[0] != "v"@[0]);
    assert("+"@[0] != "w"@[0]);
    assert("-"@[0] != "0"@[0]);
    assert("-"@[0] != "="@[0]);
    assert("-"@[0] != "c"@[0]);
    assert("-"@[0] != "f"@[0]);
    assert("-"@[0] != "n"@[0]);
    assert("-"@[0] != "t"@[0]);
    assert("-"@[0] != "v"@[0]);
    assert("-"@[0] != "w"@[0]);
    assert("0"@[0] != "="@[0]);
    assert("0"@[0] != "c"@[0]);
    assert("0"@[0] != "f"@[0]);
    assert("0"@[0] != "n"@[0]);
    assert("0"@[0] != "t"@[0]);
    assert("0"@[0] != "v"@[0]);
    assert("0"@[0] != "w"@[0]);
    assert("="@[0] != "c"@[0]);
    assert("="@[0] != "f"@[0]);
    assert("="@[0] != "n"@[0]);
    assert("="@[0] != "t"@[0]);
    assert("="@[0] != "v"@[0]);
    assert("="@[0] != "w"@[0]);
    assert("c"@[0] != "f"@[0]);
    assert("c"@[0] != "n"@[0]);
    assert("c"@[0] != "t"@[0]);
    assert("c"@[0] != "v"@[0]);
    assert("c"@[0] != "w"@[0]);
    assert("f"@[0] != "n"@[0]);
    assert("f"@[0] != "t"@[0]);
    assert("f"@[0] != "v"@[0]);
    assert("f"@[0] != "w"@[0]);
    assert("n"@[0] != "t"@[0]);
    assert("n"@[0] != "v"@[0]);
    assert("n"@[0] != "w"@[0]);
    assert("t"@[0] != "v"@[0]);
    assert("t"@[0] != "w"@[0]);
    assert("v"@[0] != "w"@[0]);
    let m = spec_macos_bindings();
    assert(m.len() == 15);
    assert(distinct_upto(m, 15)) by {
        reveal_with_fuel(slot_free_upto, 15);
        reveal_with_fuel(distinct_upto, 16);
    }
    lemma_distinct_upto(m, 15);
}

/// The macOS Cmd bindings: Cmd+C/V copy and paste, Cmd+T/W new and close
/// tab, Cmd+N moves the tab to a new window, Cmd+=/+/-/0 zoom in, in, out
/// and reset, Cmd+F opens search, Cmd+Up/Down scroll to the top and the
/// bottom, Cmd+Ctrl+F toggles fullscreen, and Cmd+Tab / Cmd+Shift+Tab go to
/// the next and previous tab.
#[verifier::rlimit(50)]
pub proof fn law_macos_bindings()
    ensures
        spec_find_binding(spec_macos_bindings(), BindingKeyView::Character("c"@), cmd_mods(false, false)) == Some(ActionView::Copy),
        spec_find_binding(spec_macos_bindings(), BindingKeyView::Character("v"@), cmd_mods(false, false)) == Some(ActionView::Paste),
        spec_find_binding(spec_macos_bindings(), BindingKeyView::Character("t"@), cmd_mods(false, false)) == Some(ActionView::NewTab),
        spec_find_binding(spec_macos_bindings(), BindingKeyView::Character("w"@), cmd_mods(false, false)) == Some(ActionView::CloseTab),
        spec_find_binding(spec_macos_bindings(), BindingKeyView::Character("n"@), cmd_mods(false, false)) == Some(ActionView::MoveTabToNewWindow),
        spec_find_binding(spec_macos_bindings(), BindingKeyView::Character("="@), cmd_mods(false, false)) == Some(ActionView::ZoomIn),
        spec_find_binding(spec_macos_bindings(), BindingKeyView::Character("+"@), cmd_mods(false, false)) == Some(ActionView::ZoomIn),
        spec_find_binding(spec_macos_bindings(), BindingKeyView::Character("-"@), cmd_mods(false, false)) == Some(ActionView::ZoomOut),
        spec_find_binding(spec_macos_bindings(), BindingKeyView::Character("0"@), cmd_mods(false, false)) == Some(ActionView::ZoomReset),
        spec_find_binding(spec_macos_bindings(), BindingKeyView::Character("f"@), cmd_mods(false, false)) == Some(ActionView::OpenSearch),
        spec_find_binding(spec_macos_bindings(), BindingKeyView::Named(NamedKey::ArrowUp), cmd_mods(false, false)) == Some(ActionView::ScrollToTop),
        spec_find_binding(spec_macos_bindings(), BindingKeyView::Named(NamedKey::ArrowDown), cmd_mods(false, false)) == Some(ActionView::ScrollToBottom),
        spec_find_binding(spec_macos_bindings(), BindingKeyView::Character("f"@), cmd_mods(false, true)) == Some(ActionView::ToggleFullscreen),
        spec_find_binding(spec_macos_bindings(), BindingKeyView::Named(NamedKey::Tab), cmd_mods(false, false)) == Some(ActionView::NextTab),
        spec_find_binding(spec_macos_bindings(), BindingKeyView::Named(NamedKey::Tab), cmd_mods(true, false)) == Some(ActionView::PrevTab),
{
    lemma_macos_one_per_slot();
    let m = spec_macos_bindings();
    lemma_find_slot(m, 0);
    lemma_find_slot(m, 1);
    lemma_find_slot(m, 2);
    lemma_find_slot(m, 3);
    lemma_find_slot(m, 4);
    lemma_find_slot(m, 5);
    lemma_find_slot(m, 6);
    lemma_find_slot(m, 7);
    lemma_find_slot(m, 8);
    lemma_find_slot(m, 9);
    lemma_find_slot(m, 10);
    lemma_find_slot(m, 11);
    lemma_find_slot(m, 12);
    lemma_find_slot(m, 13);
    lemma_find_slot(m, 14);
}

} // verus!
