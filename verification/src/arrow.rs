//! Arrow shapes for the two ends of an edge.

use vstd::prelude::*;

verus! {

/// The arrow drawn at one end of an edge.
///
/// `Arrow::Unset` leaves the choice to the renderer: an edge end with this
/// arrow contributes no attribute to the edge's text. `Arrow::NoArrow` is a
/// shape of its own (DOT's `none`) and is written out like any other shape.
#[derive(Clone, Copy, Debug, PartialEq, Eq, Structural)]
pub enum Arrow {
    Unset,
    NoArrow,
    Normal,
    Square,
    Crow,
    Curve,
    ICurve,
    Diamond,
    Dot,
    Inv,
    Tee,
    Vee,
}

impl Arrow {
    /// Whether the end is left to the renderer.
    pub open spec fn unset(self) -> bool {
        self == Arrow::Unset
    }

    /// The DOT keyword of the shape; empty for `Arrow::Unset`.
    pub open spec fn name(self) -> Seq<char> {
        match self {
            Arrow::Unset => ""@,
            Arrow::NoArrow => "none"@,
            Arrow::Normal => "normal"@,
            Arrow::Square => "box"@,
            Arrow::Crow => "crow"@,
            Arrow::Curve => "curve"@,
            Arrow::ICurve => "icurve"@,
            Arrow::Diamond => "diamond"@,
            Arrow::Dot => "dot"@,
            Arrow::Inv => "inv"@,
            Arrow::Tee => "tee"@,
            Arrow::Vee => "vee"@,
        }
    }

    /// Whether the end is left to the renderer.
    pub fn is_default(&self) -> (r: bool)
        ensures
            r == self.unset(),
    {
        matches!(*self, Arrow::Unset)
    }

    /// The DOT keyword of the shape.
    pub fn as_slice(&self) -> (r: &'static str)
        ensures
            r@ == self.name(),
    {
        match *self {
            Arrow::Unset => "",
            Arrow::NoArrow => "none",
            Arrow::Normal => "normal",
            Arrow::Square => "box",
            Arrow::Crow => "crow",
            Arrow::Curve => "curve",
            Arrow::ICurve => "icurve",
            Arrow::Diamond => "diamond",
            Arrow::Dot => "dot",
            Arrow::Inv => "inv",
            Arrow::Tee => "tee",
            Arrow::Vee => "vee",
        }
    }

    /// The DOT keyword of the shape, as an owned string.
    pub fn to_dot_string(&self) -> (r: String)
        ensures
            r@ == self.name(),
    {
        String::from_str(self.as_slice())
    }
}

impl Default for Arrow {
    /// The arrow that is left to the renderer.
    fn default() -> (r: Arrow)
        ensures
            r == Arrow::Unset,
    {
        Arrow::Unset
    }
}

} // verus!
