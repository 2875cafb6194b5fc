use dot_graph::node::Node;
use dot_graph::style::Style;
use dot_graph::utils::quote_string;

#[test]
fn quoting_plain_text_adds_the_quotes() {
    assert_eq!(quote_string(String::from("red")), "\"red\"");
    assert_eq!(quote_string(String::new()), "\"\"");
}

#[test]
fn quoting_escapes_quotes_and_backslashes() {
    assert_eq!(quote_string(String::from("a\"b")), "\"a\\\"b\"");
    assert_eq!(quote_string(String::from("a\\b")), "\"a\\\\b\"");
    assert_eq!(quote_string(String::from("\\\"")), "\"\\\\\\\"\"");
}

#[test]
fn quoting_keeps_other_characters() {
    assert_eq!(quote_string(String::from("héllo\n[x]")), "\"héllo\n[x]\"");
}

#[test]
fn style_keywords() {
    assert_eq!(Style::NoStyle.as_slice(), "");
    assert_eq!(Style::Solid.as_slice(), "solid");
    assert_eq!(Style::Wedged.as_slice(), "wedged");
}

#[test]
fn new_node_is_labelled_by_its_name() {
    assert_eq!(Node::new("n").to_dot_string(), "n[label=\"n\"];");
}

#[test]
fn node_with_all_attributes() {
    let node = Node::new("n")
        .label("a \"node\"")
        .style(Style::Striped)
        .color(Some("green"));
    assert_eq!(
        node.to_dot_string(),
        "n[label=\"a \\\"node\\\"\"][style=\"striped\"][color=\"green\"];"
    );
    assert_eq!(node.color(None).style(Style::NoStyle).to_dot_string(), "n[label=\"a \\\"node\\\"\"];");
}
