//! Nodes.

use vstd::prelude::*;
use crate::attrs::{
    color_clause, label_clause, push_color_clause, push_label_clause, push_style_clause,
    style_clause,
};
use crate::style::Style;

verus! {

/// The value of a node: its name and its attributes.
pub struct NodeView {
    pub name: Seq<char>,
    pub label: Seq<char>,
    pub style: Style,
    pub color: Option<Seq<char>>,
}

impl NodeView {
    /// The DOT statement of the node: its name as it is, then the label,
    /// style and color clauses in this order, then a semicolon.
    pub open spec fn dot_text(self) -> Seq<char> {
        self.name + label_clause(self.label) + style_clause(self.style) + color_clause(self.color)
            + ";"@
    }
}

/// A named node with a label, a style and a color.
pub struct Node {
    name: String,
    label: String,
    style: Style,
    color: Option<String>,
}

impl View for Node {
    type V = NodeView;

    closed spec fn view(&self) -> NodeView {
        NodeView {
            name: self.name@,
            label: self.label@,
            style: self.style,
            color: match self.color {
                Some(c) => Some(c@),
                None => None,
            },
        }
    }
}

impl Clone for Node {
    /// A copy of the node that shares nothing with it.
    fn clone(&self) -> (r: Self)
        ensures
            r@ == self@,
    {
        Node {
            name: self.name.clone(),
            label: self.label.clone(),
            style: self.style,
            color: match &self.color {
                Some(c) => Some(c.clone()),
                None => None,
            },
        }
    }
}

impl Node {
    /// A node whose label is its name, with no style and no color.
    pub fn new(name: &str) -> (r: Self)
        ensures
            r@ == (NodeView { name: name@, label: name@, style: Style::NoStyle, color: None }),
    {
        Node {
            name: String::from_str(name),
            label: String::from_str(name),
            style: Style::NoStyle,
            color: None,
        }
    }

    /// A copy of the node with the label replaced.
    pub fn label(&self, label: &str) -> (r: Self)
        ensures
            r@ == (NodeView { label: label@, ..self@ }),
    {
        let mut node = self.clone();
        node.label = String::from_str(label);
        node
    }

    /// A copy of the node with the style replaced.
    pub fn style(&self, style: Style) -> (r: Self)
        ensures
            r@ == (NodeView { style: style, ..self@ }),
    {
        let mut node = self.clone();
        node.style = style;
        node
    }

    /// A copy of the node with the color replaced; `None` removes it.
    pub fn color(&self, color: Option<&str>) -> (r: Self)
        ensures
            r@ == (NodeView {
                color: match color {
                    Some(c) => Some(c@),
                    None => None,
                },
                ..self@
            }),
    {
        let mut node = self.clone();
        node.color = match color {
            Some(c) => Some(String::from_str(c)),
            None => None,
        };
        node
    }

    /// The DOT statement of the node.
    pub fn to_dot_string(&self) -> (r: String)
        ensures
            r@ == self@.dot_text(),
    {
        let mut text = self.name.clone();
        push_label_clause(&mut text, self.label.as_str());
        push_style_clause(&mut text, self.style);
        let color: Option<&str> = match &self.color {
            Some(c) => Some(c.as_str()),
            None => None,
        };
        push_color_clause(&mut text, color);
        text.append(";");
        text
    }
}

} // verus!
