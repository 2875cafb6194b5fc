//! Line and fill styles.

use vstd::prelude::*;

verus! {

/// The style of a node outline, an edge line or a subgraph frame.
///
/// `Style::NoStyle` stands for "no style attribute at all": a value with this
/// style renders without any style clause.
#[derive(Clone, Copy, Debug, PartialEq, Eq, Structural)]
pub enum Style {
    NoStyle,
    Solid,
    Dashed,
    Dotted,
    Bold,
    Rounded,
    Diagonals,
    Filled,
    Striped,
    Wedged,
}

impl Style {
    /// The DOT keyword of the style; empty for `Style::NoStyle`.
    pub open spec fn name(self) -> Seq<char> {
        match self {
            Style::NoStyle => ""@,
            Style::Solid => "solid"@,
            Style::Dashed => "dashed"@,
            Style::Dotted => "dotted"@,
            Style::Bold => "bold"@,
            Style::Rounded => "rounded"@,
            Style::Diagonals => "diagonals"@,
            Style::Filled => "filled"@,
            Style::Striped => "striped"@,
            Style::Wedged => "wedged"@,
        }
    }

    /// Whether the style is the "omit the attribute" sentinel.
    pub open spec fn is_none(self) -> bool {
        self == Style::NoStyle
    }

    /// The DOT keyword of the style.
    pub fn as_slice(self) -> (r: &'static str)
        ensures
            r@ == self.name(),
    {
        match self {
            Style::NoStyle => "",
            Style::Solid => "solid",
            Style::Dashed => "dashed",
            Style::Dotted => "dotted",
            Style::Bold => "bold",
            Style::Rounded => "rounded",
            Style::Diagonals => "diagonals",
            Style::Filled => "filled",
            Style::Striped => "striped",
            Style::Wedged => "wedged",
        }
    }
}

} // verus!
