use dot_graph::node::Node;
use dot_graph::style::Style;
use dot_graph::subgraph::Subgraph;

#[test]
fn empty_subgraph() {
    let subg = Subgraph::new("cluster_0");
    assert_eq!(
        subg.to_dot_string(),
        "subgraph cluster_0 {\n        label=\"\";\n        \n    }"
    );
    assert_eq!(subg.name, "cluster_0");
}

#[test]
fn label_is_written_as_it_is() {
    let subg = Subgraph::new("c").label("my group");
    assert_eq!(
        subg.to_dot_string(),
        "subgraph c {\n        label=\"my group\";\n        \n    }"
    );
}

#[test]
fn style_and_color_get_lines_of_their_own() {
    let subg = Subgraph::new("c")
        .label("g")
        .style(Style::Filled)
        .color(Some("light \"grey\""));
    assert_eq!(
        subg.to_dot_string(),
        "subgraph c {\n        label=\"g\";\n        style=\"filled\";\n        \
         color=\"light \\\"grey\\\"\";\n        \n    }"
    );
}

#[test]
fn style_line_without_color() {
    let subg = Subgraph::new("c").style(Style::Dashed);
    assert_eq!(
        subg.to_dot_string(),
        "subgraph c {\n        label=\"\";\n        style=\"dashed\";\n        \n    }"
    );
}

#[test]
fn color_line_without_style() {
    let subg = Subgraph::new("c").color(Some("red")).style(Style::NoStyle);
    assert_eq!(
        subg.to_dot_string(),
        "subgraph c {\n        label=\"\";\n        color=\"red\";\n        \n    }"
    );
    let cleared = subg.color(None);
    assert_eq!(
        cleared.to_dot_string(),
        "subgraph c {\n        label=\"\";\n        \n    }"
    );
}

#[test]
fn nodes_keep_their_order() {
    let n1 = Node::new("n1");
    let n2 = Node::new("n2").label("second");
    let n3 = Node::new("n3").style(Style::Bold);
    let mut subg = Subgraph::new("cluster_1");
    subg.add_node(n1.clone());
    subg.add_node(n2.clone());
    subg.add_node(n3.clone());
    let text = subg.to_dot_string();
    let body = format!(
        "{}\n        {}\n        {}",
        n1.to_dot_string(),
        n2.to_dot_string(),
        n3.to_dot_string()
    );
    assert_eq!(
        text,
        format!("subgraph cluster_1 {{\n        label=\"\";\n        {}\n    }}", body)
    );
    assert_eq!(
        text,
        "subgraph cluster_1 {\n        label=\"\";\n        n1[label=\"n1\"];\n        \
         n2[label=\"second\"];\n        n3[label=\"n3\"][style=\"bold\"];\n    }"
    );
}

#[test]
fn single_node_has_no_separator() {
    let mut subg = Subgraph::new("c");
    subg.add_node(Node::new("only"));
    assert_eq!(
        subg.to_dot_string(),
        "subgraph c {\n        label=\"\";\n        only[label=\"only\"];\n    }"
    );
}

#[test]
fn batch_is_added_behind_in_its_order() {
    let mut subg = Subgraph::new("c");
    subg.add_node(Node::new("a"));
    subg.add_nodes(vec![Node::new("b"), Node::new("c")]);
    subg.add_nodes(Vec::new());
    subg.add_node(Node::new("d"));
    assert_eq!(
        subg.to_dot_string(),
        "subgraph c {\n        label=\"\";\n        a[label=\"a\"];\n        \
         b[label=\"b\"];\n        c[label=\"c\"];\n        d[label=\"d\"];\n    }"
    );
}

#[test]
fn configuring_a_copy_leaves_the_subgraph_alone() {
    let mut s1 = Subgraph::new("c");
    s1.add_node(Node::new("a"));
    let before = s1.to_dot_string();
    let mut s2 = s1.label("X").style(Style::Rounded);
    s2.add_node(Node::new("b"));
    assert_eq!(s1.to_dot_string(), before);
    assert_eq!(
        s2.to_dot_string(),
        "subgraph c {\n        label=\"X\";\n        style=\"rounded\";\n        \
         a[label=\"a\"];\n        b[label=\"b\"];\n    }"
    );
}

#[test]
fn a_node_in_two_subgraphs_is_two_copies() {
    let node = Node::new("shared");
    let mut s1 = Subgraph::new("one");
    let mut s2 = Subgraph::new("two");
    s1.add_node(node.clone());
    s2.add_node(node.label("other"));
    assert_eq!(
        s1.to_dot_string(),
        "subgraph one {\n        label=\"\";\n        shared[label=\"shared\"];\n    }"
    );
    assert_eq!(
        s2.to_dot_string(),
        "subgraph two {\n        label=\"\";\n        shared[label=\"other\"];\n    }"
    );
}

#[test]
fn subgraph_renders_twice_alike() {
    let mut subg = Subgraph::new("c").color(Some("red"));
    subg.add_node(Node::new("a"));
    assert_eq!(subg.to_dot_string(), subg.to_dot_string());
    assert_eq!(subg.clone().to_dot_string(), subg.to_dot_string());
}
