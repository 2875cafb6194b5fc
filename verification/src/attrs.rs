//! The bracketed attribute clauses that nodes and edges share.
//!
//! A clause that is absent is the empty text, so the text of a statement is
//! the plain concatenation of its clauses.

use vstd::prelude::*;
use crate::style::Style;
use crate::utils::{quote_string, quote_text};

verus! {

/// The label clause. It is present for every label, the empty one included.
pub open spec fn label_clause(label: Seq<char>) -> Seq<char> {
    "[label="@ + quote_text(label) + "]"@
}

/// The style clause: absent for `Style::NoStyle`, else the style's keyword
/// between double quotes.
pub open spec fn style_clause(style: Style) -> Seq<char> {
    if style.is_none() {
        Seq::empty()
    } else {
        "[style=\""@ + style.name() + "\"]"@
    }
}

/// The color clause: absent without a color, else the quoted color.
pub open spec fn color_clause(color: Option<Seq<char>>) -> Seq<char> {
    match color {
        Some(c) => "[color="@ + quote_text(c) + "]"@,
        None => Seq::empty(),
    }
}

/// Appends the label clause of `label` to `out`.
pub(crate) fn push_label_clause(out: &mut String, label: &str)
    ensures
        final(out)@ == old(out)@ + label_clause(label@),
{
    let quoted = quote_string(String::from_str(label));
    out.append("[label=");
    out.append(quoted.as_str());
    out.append("]");
    assert(out@ =~= old(out)@ + label_clause(label@));
}

/// Appends the style clause of `style` to `out`.
pub(crate) fn push_style_clause(out: &mut String, style: Style)
    ensures
        final(out)@ == old(out)@ + style_clause(style),
{
    if style != Style::NoStyle {
        out.append("[style=\"");
        out.append(style.as_slice());
        out.append("\"]");
    }
    assert(out@ =~= old(out)@ + style_clause(style));
}

/// Appends the color clause of `color` to `out`.
pub(crate) fn push_color_clause(out: &mut String, color: Option<&str>)
    ensures
        final(out)@ == old(out)@ + color_clause(
            match color {
                Some(c) => Some(c@),
                None => None,
            },
        ),
{
    if let Some(c) = color {
        let quoted = quote_string(String::from_str(c));
        out.append("[color=");
        out.append(quoted.as_str());
        out.append("]");
        assert(out@ =~= old(out)@ + color_clause(Some(c@)));
    } else {
        assert(out@ =~= old(out)@ + color_clause(None));
    }
}

} // verus!
