//! Subgraphs: named blocks of nodes.

use vstd::prelude::*;
use crate::node::{Node, NodeView};
use crate::style::Style;
use crate::utils::{quote_string, quote_text};

verus! {

/// The value of a subgraph: its name, its nodes in the order in which they
/// were added, and its attributes.
pub struct SubgraphView {
    pub name: Seq<char>,
    pub nodes: Seq<NodeView>,
    pub label: Seq<char>,
    pub style: Style,
    pub color: Option<Seq<char>>,
}

/// What stands between two lines of a block: a line break and the
/// indentation of the block's lines.
pub open spec fn line_break() -> Seq<char> {
    "\n        "@
}

/// The style line of a block: absent for `Style::NoStyle`, else the
/// style's keyword between double quotes, a semicolon and a line break.
pub open spec fn style_line(style: Style) -> Seq<char> {
    if style.is_none() {
        Seq::empty()
    } else {
        "style=\""@ + style.name() + "\";"@ + line_break()
    }
}

/// The color line of a block: absent without a color, else the quoted
/// color, a semicolon and a line break.
pub open spec fn color_line(color: Option<Seq<char>>) -> Seq<char> {
    match color {
        Some(c) => "color="@ + quote_text(c) + ";"@ + line_break(),
        None => Seq::empty(),
    }
}

/// The given texts in their order, with a line break between neighbours
/// and none before the first or after the last.
pub open spec fn join_lines(lines: Seq<Seq<char>>) -> Seq<char>
    decreases lines.len(),
{
    if lines.len() == 0 {
        Seq::empty()
    } else if lines.len() == 1 {
        lines[0]
    } else {
        join_lines(lines.drop_last()) + line_break() + lines.last()
    }
}

/// The DOT statements of the given nodes, in their order.
pub open spec fn node_lines(nodes: Seq<NodeView>) -> Seq<Seq<char>> {
    nodes.map_values(|n: NodeView| n.dot_text())
}

impl SubgraphView {
    /// The DOT block of the subgraph: the opening line with the name, the
    /// label line, the style and color lines where there are any, the
    /// statements of the nodes, and the closing brace. The label is
    /// written between double quotes as it is.
    pub open spec fn dot_text(self) -> Seq<char> {
        "subgraph "@ + self.name + " {"@ + line_break() + "label=\""@ + self.label + "\";"@
            + line_break() + style_line(self.style) + color_line(self.color) + join_lines(
            node_lines(self.nodes),
        ) + "\n    }"@
    }
}

/// A line added behind a list that is not empty adds a line break and the
/// line to the joined text.
pub proof fn join_lines_push(lines: Seq<Seq<char>>, line: Seq<char>)
    requires
        lines.len() > 0,
    ensures
        join_lines(lines.push(line)) == join_lines(lines) + line_break() + line,
{
    assert(lines.push(line).drop_last() =~= lines);
}

/// Joining two lists that are not empty, one behind the other, gives the
/// joined text of the first, a line break, and the joined text of the
/// second.
pub proof fn join_lines_concat(first: Seq<Seq<char>>, second: Seq<Seq<char>>)
    requires
        first.len() > 0,
        second.len() > 0,
    ensures
        join_lines(first + second) == join_lines(first) + line_break() + join_lines(second),
    decreases second.len(),
{
    if second.len() == 1 {
        assert(first + second =~= first.push(second[0]));
        join_lines_push(first, second[0]);
    } else {
        let front = second.drop_last();
        join_lines_concat(first, front);
        assert(first + second =~= (first + front).push(second.last()));
        join_lines_push(first + front, second.last());
        assert(join_lines(first + second) =~= join_lines(first) + line_break() + join_lines(
            second,
        ));
    }
}

/// The line break that parts two neighbouring stretches of lines: none
/// where one of them is empty.
pub open spec fn break_between(first: Seq<Seq<char>>, second: Seq<Seq<char>>) -> Seq<char> {
    if first.len() > 0 && second.len() > 0 {
        line_break()
    } else {
        Seq::empty()
    }
}

/// The nodes of a subgraph are written in the order in which they were
/// added: the statement of the node at place `i` stands behind the joined
/// statements of the nodes before it and in front of the joined statements
/// of the nodes behind it, parted from each by a line break.
pub proof fn nodes_written_in_order(nodes: Seq<NodeView>, i: int)
    requires
        0 <= i < nodes.len(),
    ensures
        join_lines(node_lines(nodes)) == join_lines(node_lines(nodes.take(i))) + break_between(
            node_lines(nodes.take(i)),
            seq![nodes[i].dot_text()],
        ) + nodes[i].dot_text() + break_between(
            seq![nodes[i].dot_text()],
            node_lines(nodes.skip(i + 1)),
        ) + join_lines(node_lines(nodes.skip(i + 1))),
{
    let before = node_lines(nodes.take(i));
    let this = seq![nodes[i].dot_text()];
    let after = node_lines(nodes.skip(i + 1));
    assert(node_lines(nodes) =~= before + this + after);
    assert(join_lines(this) == nodes[i].dot_text());
    if before.len() > 0 {
        join_lines_concat(before, this);
    } else {
        assert(before + this =~= this);
    }
    assert(join_lines(before + this) =~= join_lines(before) + break_between(before, this)
        + nodes[i].dot_text());
    if after.len() > 0 {
        join_lines_concat(before + this, after);
    } else {
        assert(before + this + after =~= before + this);
    }
    assert(join_lines(before + this + after) =~= join_lines(before + this) + break_between(
        this,
        after,
    ) + join_lines(after));
}

/// Three nodes are written first, second, third, with one line break
/// between neighbours.
pub proof fn three_nodes_in_order(n1: NodeView, n2: NodeView, n3: NodeView)
    ensures
        join_lines(node_lines(seq![n1, n2, n3])) == n1.dot_text() + line_break() + n2.dot_text()
            + line_break() + n3.dot_text(),
{
    let one = seq![n1.dot_text()];
    let two = seq![n1.dot_text(), n2.dot_text()];
    assert(node_lines(seq![n1, n2, n3]) =~= two.push(n3.dot_text()));
    assert(two =~= one.push(n2.dot_text()));
    join_lines_push(one, n2.dot_text());
    join_lines_push(two, n3.dot_text());
}

/// A subgraph without nodes, label, style and color is the opening line,
/// the empty label line, an empty line and the closing brace.
pub proof fn empty_subgraph_text(name: Seq<char>)
    ensures
        (SubgraphView {
            name: name,
            nodes: Seq::empty(),
            label: Seq::empty(),
            style: Style::NoStyle,
            color: None,
        }).dot_text() == "subgraph "@ + name + " {"@ + line_break() + "label=\"\";"@
            + line_break() + "\n    }"@,
{
    reveal_strlit("label=\"");
    reveal_strlit("\";");
    reveal_strlit("label=\"\";");
    assert("label=\""@ + Seq::<char>::empty() + "\";"@ =~= "label=\"\";"@);
    assert(node_lines(Seq::<NodeView>::empty()) =~= Seq::<Seq<char>>::empty());
    let v = SubgraphView {
        name: name,
        nodes: Seq::empty(),
        label: Seq::empty(),
        style: Style::NoStyle,
        color: None,
    };
    assert(v.dot_text() =~= "subgraph "@ + name + " {"@ + line_break() + ("label=\""@
        + Seq::<char>::empty() + "\";"@) + line_break() + "\n    }"@);
}

/// The values of the given nodes, in their order.
pub open spec fn node_views(nodes: Seq<Node>) -> Seq<NodeView> {
    nodes.map_values(|n: Node| n@)
}

/// A named block of nodes with a label, a style and a color.
pub struct Subgraph {
    pub name: String,
    nodes: Vec<Node>,
    label: String,
    style: Style,
    color: Option<String>,
}

impl View for Subgraph {
    type V = SubgraphView;

    closed spec fn view(&self) -> SubgraphView {
        SubgraphView {
            name: self.name@,
            nodes: node_views(self.nodes@),
            label: self.label@,
            style: self.style,
            color: match self.color {
                Some(c) => Some(c@),
                None => None,
            },
        }
    }
}

/// Copies of the given nodes, in their order.
fn clone_nodes(nodes: &Vec<Node>) -> (r: Vec<Node>)
    ensures
        node_views(r@) == node_views(nodes@),
{
    let mut copies: Vec<Node> = Vec::new();
    let mut i: usize = 0;
    while i < nodes.len()
        invariant
            i <= nodes.len(),
            node_views(copies@) == node_views(nodes@.take(i as int)),
        decreases nodes.len() - i,
    {
        let ghost before = copies@;
        let copy = nodes[i].clone();
        copies.push(copy);
        proof {
            assert(node_views(before.push(copy)) =~= node_views(before).push(copy@));
            assert(nodes@.take(i + 1) =~= nodes@.take(i as int).push(nodes@[i as int]));
            assert(node_views(nodes@.take(i as int).push(nodes@[i as int])) =~= node_views(
                nodes@.take(i as int),
            ).push(nodes@[i as int]@));
        }
        i += 1;
    }
    assert(nodes@.take(i as int) == nodes@);
    copies
}

impl Clone for Subgraph {
    /// A copy of the subgraph that shares nothing with it.
    fn clone(&self) -> (r: Self)
        ensures
            r@ == self@,
    {
        Subgraph {
            name: self.name.clone(),
            nodes: clone_nodes(&self.nodes),
            label: self.label.clone(),
            style: self.style,
            color: match &self.color {
                Some(c) => Some(c.clone()),
                None => None,
            },
        }
    }
}

impl Subgraph {
    /// An empty subgraph with the given name, an empty label, no style and
    /// no color.
    pub fn new(name: &str) -> (r: Self)
        ensures
            r@ == (SubgraphView {
                name: name@,
                nodes: Seq::empty(),
                label: Seq::empty(),
                style: Style::NoStyle,
                color: None,
            }),
    {
        let subg = Subgraph {
            name: String::from_str(name),
            nodes: Vec::new(),
            label: String::new(),
            style: Style::NoStyle,
            color: None,
        };
        assert(subg@.nodes =~= Seq::empty());
        subg
    }

    /// Adds `node` behind the nodes that the subgraph holds.
    pub fn add_node(&mut self, node: Node)
        ensures
            final(self)@ == (SubgraphView { nodes: old(self)@.nodes.push(node@), ..old(self)@ }),
    {
        self.nodes.push(node);
        assert(self@.nodes =~= old(self)@.nodes.push(node@));
    }

    /// Adds `nodes`, in their order, behind the nodes that the subgraph
    /// holds.
    pub fn add_nodes(&mut self, nodes: Vec<Node>)
        ensures
            final(self)@ == (SubgraphView {
                nodes: old(self)@.nodes + node_views(nodes@),
                ..old(self)@
            }),
    {
        let mut added = nodes;
        self.nodes.append(&mut added);
        assert(self@.nodes =~= old(self)@.nodes + node_views(nodes@));
    }

    /// A copy of the subgraph with the label replaced.
    pub fn label(&self, label: &str) -> (r: Self)
        ensures
            r@ == (SubgraphView { label: label@, ..self@ }),
    {
        let mut subg = self.clone();
        subg.label = String::from_str(label);
        subg
    }

    /// A copy of the subgraph with the style replaced.
    pub fn style(&self, style: Style) -> (r: Self)
        ensures
            r@ == (SubgraphView { style: style, ..self@ }),
    {
        let mut subg = self.clone();
        subg.style = style;
        subg
    }

    /// A copy of the subgraph with the color replaced; `None` removes it.
    pub fn color(&self, color: Option<&str>) -> (r: Self)
        ensures
            r@ == (SubgraphView {
                color: match color {
                    Some(c) => Some(c@),
                    None => None,
                },
                ..self@
            }),
    {
        let mut subg = self.clone();
        subg.color = match color {
            Some(c) => Some(String::from_str(c)),
            None => None,
        };
        subg
    }

    /// Rendering reads the value of the subgraph and nothing else: two
    /// renderings of a subgraph that was not changed in between are the
    /// same text.
    pub proof fn rendering_repeats(&self, first: String, second: String)
        requires
            first@ == self@.dot_text(),
            second@ == self@.dot_text(),
        ensures
            first@ == second@,
    {
    }

    /// The DOT block of the subgraph.
    pub fn to_dot_string(&self) -> (r: String)
        ensures
            r@ == self@.dot_text(),
    {
        let mut text = String::from_str("subgraph ");
        text.append(self.name.as_str());
        text.append(" {");
        text.append("\n        ");
        text.append("label=\"");
        text.append(self.label.as_str());
        text.append("\";");
        text.append("\n        ");
        if self.style != Style::NoStyle {
            text.append("style=\"");
            text.append(self.style.as_slice());
            text.append("\";");
            text.append("\n        ");
        }
        if let Some(c) = &self.color {
            let quoted = quote_string(c.clone());
            text.append("color=");
            text.append(quoted.as_str());
            text.append(";");
            text.append("\n        ");
        }
        let ghost head = text@;
        let ghost lines = node_lines(self@.nodes);
        assert(head =~= "subgraph "@ + self@.name + " {"@ + line_break() + "label=\""@
            + self@.label + "\";"@ + line_break() + style_line(self@.style) + color_line(
            self@.color,
        ));
        let mut i: usize = 0;
        while i < self.nodes.len()
            invariant
                i <= self.nodes.len(),
                lines == node_lines(self@.nodes),
                lines.len() == self.nodes.len(),
                text@ == head + join_lines(lines.take(i as int)),
            decreases self.nodes.len() - i,
        {
            if i > 0 {
                text.append("\n        ");
            }
            let line = self.nodes[i].to_dot_string();
            text.append(line.as_str());
            proof {
                let done = lines.take(i + 1);
                assert(done.drop_last() =~= lines.take(i as int));
                assert(done.last() == line@);
                assert(text@ =~= head + join_lines(done));
            }
            i += 1;
        }
        assert(lines.take(i as int) =~= lines);
        text.append("\n    }");
        text
    }
}

} // verus!
