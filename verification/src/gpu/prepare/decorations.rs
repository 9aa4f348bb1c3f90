//! Which text decorations a cell gets: the underline style (single, double,
//! curly, dotted, dashed), its color, and whether a patterned underline is
//! drawn from a cached atlas pattern.

use vstd::prelude::*;

use super::colors::Rgb;
use crate::gpu::builtin_glyphs::decorations::{CURLY_GLYPH_ID, DASHED_GLYPH_ID, DOTTED_GLYPH_ID};

verus! {

/// The decoration flags of a cell.
#[derive(Debug, Clone, Copy, PartialEq, Eq, Structural)]
pub struct DecorationFlags {
    pub underline: bool,
    pub double_underline: bool,
    pub curly_underline: bool,
    pub dotted_underline: bool,
    pub dashed_underline: bool,
    pub strikethrough: bool,
}

/// Underline styles.
#[derive(Debug, Clone, Copy, PartialEq, Eq, Structural)]
pub enum UnderlineStyle {
    Single,
    Double,
    Curly,
    Dotted,
    Dashed,
}

/// The underline drawn for a cell: none without an underline flag; when
/// several are set, curly before double before dotted before dashed, and a
/// single underline for the plain flag alone.
pub open spec fn spec_underline_style(f: DecorationFlags) -> Option<UnderlineStyle> {
    if f.curly_underline {
        Some(UnderlineStyle::Curly)
    } else if f.double_underline {
        Some(UnderlineStyle::Double)
    } else if f.dotted_underline {
        Some(UnderlineStyle::Dotted)
    } else if f.dashed_underline {
        Some(UnderlineStyle::Dashed)
    } else if f.underline {
        Some(UnderlineStyle::Single)
    } else {
        None
    }
}

/// The underline style of a cell, if it is underlined.
pub fn underline_style(f: &DecorationFlags) -> (s: Option<UnderlineStyle>)
    ensures
        s == spec_underline_style(*f),
{
    if f.curly_underline {
        Some(UnderlineStyle::Curly)
    } else if f.double_underline {
        Some(UnderlineStyle::Double)
    } else if f.dotted_underline {
        Some(UnderlineStyle::Dotted)
    } else if f.dashed_underline {
        Some(UnderlineStyle::Dashed)
    } else if f.underline {
        Some(UnderlineStyle::Single)
    } else {
        None
    }
}

/// The underline color: the cell's underline color (SGR 58) when set, its
/// foreground otherwise.
pub fn underline_color(underline: Option<Rgb>, fg: Rgb) -> (c: Rgb)
    ensures
        c == match underline {
            Some(u) => u,
            None => fg,
        },
{
    match underline {
        Some(u) => u,
        None => fg,
    }
}

/// The atlas pattern glyph of a patterned underline style.
pub open spec fn spec_pattern_glyph(style: UnderlineStyle) -> Option<u16> {
    match style {
        UnderlineStyle::Curly => Some(CURLY_GLYPH_ID),
        UnderlineStyle::Dotted => Some(DOTTED_GLYPH_ID),
        UnderlineStyle::Dashed => Some(DASHED_GLYPH_ID),
        _ => None,
    }
}

/// The synthetic glyph id of the cached pattern for curly, dotted and dashed
/// underlines; single and double underlines are plain rectangles.
pub fn pattern_glyph(style: UnderlineStyle) -> (g: Option<u16>)
    ensures
        g == spec_pattern_glyph(style),
{
    match style {
        UnderlineStyle::Curly => Some(CURLY_GLYPH_ID),
        UnderlineStyle::Dotted => Some(DOTTED_GLYPH_ID),
        UnderlineStyle::Dashed => Some(DASHED_GLYPH_ID),
        _ => None,
    }
}

/// Whether column `dx` of a cell is covered by the rectangle-based fallback
/// of an underline: every other column when dotted, three of every five when
/// dashed, and every column otherwise (curly steps through each column;
/// single and double underlines span the whole cell).
pub fn fallback_column_on(style: UnderlineStyle, dx: usize) -> (b: bool)
    ensures
        b == match style {
            UnderlineStyle::Dotted => dx % 2 == 0,
            UnderlineStyle::Dashed => dx % 5 < 3,
            _ => true,
        },
{
    match style {
        UnderlineStyle::Dotted => dx % 2 == 0,
        UnderlineStyle::Dashed => dx % 5 < 3,
        _ => true,
    }
}

/// Each underline flag gives its own style, and when several are set the
/// most distinctive wins: curly over double over dotted over dashed over a
/// plain underline; no underline flag gives no underline.
pub proof fn law_underline_style_priority(f: DecorationFlags)
    ensures
        f.curly_underline ==> spec_underline_style(f) == Some(UnderlineStyle::Curly),
        !f.curly_underline && f.double_underline ==> spec_underline_style(f) == Some(UnderlineStyle::Double),
        !f.curly_underline && !f.double_underline && f.dotted_underline ==> spec_underline_style(f) == Some(
            UnderlineStyle::Dotted,
        ),
        !f.curly_underline && !f.double_underline && !f.dotted_underline && f.dashed_underline ==> spec_underline_style(f)
            == Some(UnderlineStyle::Dashed),
        !f.curly_underline && !f.double_underline && !f.dotted_underline && !f.dashed_underline && f.underline
            ==> spec_underline_style(f) == Some(UnderlineStyle::Single),
        !f.curly_underline && !f.double_underline && !f.dotted_underline && !f.dashed_underline && !f.underline
            ==> spec_underline_style(f) is None,
{
}

} // verus!
