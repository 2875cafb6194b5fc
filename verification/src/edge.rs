//! Edges between two named nodes.

use vstd::prelude::*;
use crate::arrow::Arrow;
use crate::attrs::{
    color_clause, label_clause, push_color_clause, push_label_clause, push_style_clause,
    style_clause,
};
use crate::style::Style;

verus! {

/// The value of an edge: the names of its two ends and its attributes.
pub struct EdgeView {
    pub from: Seq<char>,
    pub to: Seq<char>,
    pub label: Seq<char>,
    pub style: Style,
    pub start_arrow: Arrow,
    pub end_arrow: Arrow,
    pub color: Option<Seq<char>>,
}

/// The attribute that sets the arrow at the head of an edge.
pub open spec fn arrowhead_attr(end: Arrow) -> Seq<char> {
    "arrowhead=\""@ + end.name() + "\""@
}

/// The attribute that sets the arrow at the tail of an edge.
pub open spec fn arrowtail_attr(start: Arrow) -> Seq<char> {
    "arrowtail=\""@ + start.name() + "\""@
}

/// The attribute that makes a renderer draw the arrows at both ends.
pub open spec fn both_directions_attr() -> Seq<char> {
    "dir=\"both\""@
}

/// What stands inside the brackets of the arrow clause: the head attribute
/// if the head is set, the tail attribute if the tail is set and, when both
/// are set, the direction attribute too, since a renderer draws the tail
/// arrow only on an edge that is declared to run both ways. Neighbours are
/// separated by one space.
pub open spec fn arrow_attrs(start: Arrow, end: Arrow) -> Seq<char> {
    if start.unset() && end.unset() {
        Seq::empty()
    } else if start.unset() {
        arrowhead_attr(end)
    } else if end.unset() {
        arrowtail_attr(start)
    } else {
        arrowhead_attr(end) + " "@ + arrowtail_attr(start) + " "@ + both_directions_attr()
    }
}

/// The arrow clause of an edge with the given arrows: absent when both ends
/// are unset, else one pair of brackets round the arrow attributes.
pub open spec fn arrow_clause(start: Arrow, end: Arrow) -> Seq<char> {
    if start.unset() && end.unset() {
        Seq::empty()
    } else {
        "["@ + arrow_attrs(start, end) + "]"@
    }
}

impl EdgeView {
    /// The two ends joined by the connector `edge_symbol`, with one space on
    /// each side of it. The names are taken as they are, unescaped.
    pub open spec fn endpoints(self, edge_symbol: Seq<char>) -> Seq<char> {
        self.from + " "@ + edge_symbol + " "@ + self.to
    }

    /// The DOT statement of the edge: the ends, then the label, style,
    /// color and arrow clauses in this order, then a semicolon.
    pub open spec fn dot_text(self, edge_symbol: Seq<char>) -> Seq<char> {
        self.endpoints(edge_symbol) + label_clause(self.label) + style_clause(self.style)
            + color_clause(self.color) + arrow_clause(self.start_arrow, self.end_arrow) + ";"@
    }
}

/// A connection between two nodes, which it knows by name only.
pub struct Edge {
    from: String,
    to: String,
    label: &'static str,
    style: Style,
    start_arrow: Arrow,
    end_arrow: Arrow,
    color: Option<&'static str>,
}

impl View for Edge {
    type V = EdgeView;

    closed spec fn view(&self) -> EdgeView {
        EdgeView {
            from: self.from@,
            to: self.to@,
            label: self.label@,
            style: self.style,
            start_arrow: self.start_arrow,
            end_arrow: self.end_arrow,
            color: match self.color {
                Some(c) => Some(c@),
                None => None,
            },
        }
    }
}

impl Clone for Edge {
    /// A copy of the edge with its own copies of the two names.
    fn clone(&self) -> (r: Self)
        ensures
            r@ == self@,
    {
        Edge {
            from: self.from.clone(),
            to: self.to.clone(),
            label: self.label,
            style: self.style,
            start_arrow: self.start_arrow,
            end_arrow: self.end_arrow,
            color: self.color,
        }
    }
}

/// Appends the arrow clause for the given arrows to `out`.
fn push_arrow_clause(out: &mut String, start: Arrow, end: Arrow)
    ensures
        final(out)@ == old(out)@ + arrow_clause(start, end),
{
    let head = !end.is_default();
    let tail = !start.is_default();
    if head || tail {
        out.append("[");
        if head {
            out.append("arrowhead=\"");
            out.append(end.as_slice());
            out.append("\"");
        }
        if head && tail {
            out.append(" ");
        }
        if tail {
            out.append("arrowtail=\"");
            out.append(start.as_slice());
            out.append("\"");
        }
        if head && tail {
            out.append(" ");
            out.append("dir=\"both\"");
        }
        out.append("]");
    }
    assert(out@ =~= old(out)@ + arrow_clause(start, end));
}

impl Edge {
    /// An edge from `from` to `to` with the given label, no style, no color
    /// and both arrows unset.
    pub fn new(from: &str, to: &str, label: &'static str) -> (r: Self)
        ensures
            r@ == (EdgeView {
                from: from@,
                to: to@,
                label: label@,
                style: Style::NoStyle,
                start_arrow: Arrow::Unset,
                end_arrow: Arrow::Unset,
                color: None,
            }),
    {
        Edge {
            from: String::from_str(from),
            to: String::from_str(to),
            label: label,
            style: Style::NoStyle,
            start_arrow: Arrow::default(),
            end_arrow: Arrow::default(),
            color: None,
        }
    }

    /// A copy of the edge with the label replaced. The edge itself stays as
    /// it is.
    pub fn label(&mut self, label: &'static str) -> (r: Self)
        ensures
            r@ == (EdgeView { label: label@, ..old(self)@ }),
            *final(self) == *old(self),
    {
        let mut edge = self.clone();
        edge.label = label;
        edge
    }

    /// A copy of the edge with the style replaced. The edge itself stays as
    /// it is.
    pub fn style(&mut self, style: Style) -> (r: Self)
        ensures
            r@ == (EdgeView { style: style, ..old(self)@ }),
            *final(self) == *old(self),
    {
        let mut edge = self.clone();
        edge.style = style;
        edge
    }

    /// A copy of the edge with the color replaced; `None` removes it. The
    /// edge itself stays as it is.
    pub fn color(&mut self, color: Option<&'static str>) -> (r: Self)
        ensures
            r@ == (EdgeView {
                color: match color {
                    Some(c) => Some(c@),
                    None => None,
                },
                ..old(self)@
            }),
            *final(self) == *old(self),
    {
        let mut edge = self.clone();
        edge.color = color;
        edge
    }

    /// A copy of the edge with the arrow at its tail replaced. The edge
    /// itself stays as it is.
    pub fn start_arrow(&mut self, arrow: Arrow) -> (r: Self)
        ensures
            r@ == (EdgeView { start_arrow: arrow, ..old(self)@ }),
            *final(self) == *old(self),
    {
        let mut edge = self.clone();
        edge.start_arrow = arrow;
        edge
    }

    /// A copy of the edge with the arrow at its head replaced. The edge
    /// itself stays as it is.
    pub fn end_arrow(&mut self, arrow: Arrow) -> (r: Self)
        ensures
            r@ == (EdgeView { end_arrow: arrow, ..old(self)@ }),
            *final(self) == *old(self),
    {
        let mut edge = self.clone();
        edge.end_arrow = arrow;
        edge
    }

    /// Rendering reads the value of the edge and the connector, and nothing
    /// else: two renderings of an edge that was not changed in between are
    /// the same text.
    pub proof fn rendering_repeats(&self, edge_symbol: &str, first: String, second: String)
        requires
            first@ == self@.dot_text(edge_symbol@),
            second@ == self@.dot_text(edge_symbol@),
        ensures
            first@ == second@,
    {
    }

    /// The DOT statement of the edge, with `edge_symbol` as the connector
    /// between its two ends.
    pub fn to_dot_string(&self, edge_symbol: &str) -> (r: String)
        ensures
            r@ == self@.dot_text(edge_symbol@),
    {
        let mut text = String::new();
        text.append(self.from.as_str());
        text.append(" ");
        text.append(edge_symbol);
        text.append(" ");
        text.append(self.to.as_str());
        assert(text@ =~= self@.endpoints(edge_symbol@));
        push_label_clause(&mut text, self.label);
        push_style_clause(&mut text, self.style);
        push_color_clause(&mut text, self.color);
        push_arrow_clause(&mut text, self.start_arrow, self.end_arrow);
        text.append(";");
        text
    }
}

} // verus!
