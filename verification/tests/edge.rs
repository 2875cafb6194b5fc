use dot_graph::arrow::Arrow;
use dot_graph::edge::Edge;
use dot_graph::style::Style;

#[test]
fn plain_edge_has_only_a_label_clause() {
    let edge = Edge::new("a", "b", "x");
    assert_eq!(edge.to_dot_string("->"), "a -> b[label=\"x\"];");
}

#[test]
fn style_and_color_follow_the_label() {
    let edge = Edge::new("a", "b", "").style(Style::Solid).color(Some("red"));
    assert_eq!(
        edge.to_dot_string("--"),
        "a -- b[label=\"\"][style=\"solid\"][color=\"red\"];"
    );
}

#[test]
fn empty_label_is_still_written() {
    let edge = Edge::new("n1", "n2", "");
    assert_eq!(edge.to_dot_string("->"), "n1 -> n2[label=\"\"];");
}

#[test]
fn every_style_is_written_by_its_keyword() {
    let cases = [
        (Style::Solid, "solid"),
        (Style::Dashed, "dashed"),
        (Style::Dotted, "dotted"),
        (Style::Bold, "bold"),
        (Style::Rounded, "rounded"),
        (Style::Diagonals, "diagonals"),
        (Style::Filled, "filled"),
        (Style::Striped, "striped"),
        (Style::Wedged, "wedged"),
    ];
    for (style, keyword) in cases {
        let text = Edge::new("a", "b", "l").style(style).to_dot_string("->");
        let clause = format!("[style=\"{}\"]", keyword);
        assert_eq!(text, format!("a -> b[label=\"l\"]{};", clause));
        assert_eq!(text.matches("[style=").count(), 1);
    }
}

#[test]
fn no_style_leaves_the_clause_out() {
    let text = Edge::new("a", "b", "l")
        .style(Style::Dashed)
        .style(Style::NoStyle)
        .to_dot_string("->");
    assert_eq!(text, "a -> b[label=\"l\"];");
    assert!(!text.contains("style"));
}

#[test]
fn color_is_quoted_like_any_string() {
    let text = Edge::new("a", "b", "l")
        .color(Some("sky \"blue\""))
        .to_dot_string("->");
    let quoted = dot_graph::utils::quote_string(String::from("sky \"blue\""));
    assert_eq!(text, format!("a -> b[label=\"l\"][color={}];", quoted));
    assert_eq!(text, "a -> b[label=\"l\"][color=\"sky \\\"blue\\\"\"];");
}

#[test]
fn removing_the_color_leaves_the_clause_out() {
    let text = Edge::new("a", "b", "l")
        .color(Some("red"))
        .color(None)
        .to_dot_string("->");
    assert_eq!(text, "a -> b[label=\"l\"];");
}

#[test]
fn label_is_escaped() {
    let text = Edge::new("a", "b", "say \"hi\" \\ bye").to_dot_string("->");
    assert_eq!(text, "a -> b[label=\"say \\\"hi\\\" \\\\ bye\"];");
}

#[test]
fn endpoint_names_pass_through_unescaped() {
    let text = Edge::new("a\"b", "c d", "l").to_dot_string("->");
    assert_eq!(text, "a\"b -> c d[label=\"l\"];");
}

#[test]
fn unset_arrows_give_no_arrow_clause() {
    let text = Edge::new("a", "b", "l")
        .start_arrow(Arrow::default())
        .end_arrow(Arrow::Unset)
        .to_dot_string("->");
    assert_eq!(text, "a -> b[label=\"l\"];");
}

#[test]
fn head_arrow_alone() {
    let text = Edge::new("a", "b", "l")
        .end_arrow(Arrow::Vee)
        .to_dot_string("->");
    assert_eq!(text, "a -> b[label=\"l\"][arrowhead=\"vee\"];");
}

#[test]
fn tail_arrow_alone() {
    let text = Edge::new("a", "b", "l")
        .start_arrow(Arrow::Diamond)
        .to_dot_string("->");
    assert_eq!(text, "a -> b[label=\"l\"][arrowtail=\"diamond\"];");
}

#[test]
fn both_arrows_share_one_bracket_pair() {
    let text = Edge::new("a", "b", "l")
        .start_arrow(Arrow::Square)
        .end_arrow(Arrow::NoArrow)
        .to_dot_string("->");
    assert_eq!(
        text,
        "a -> b[label=\"l\"][arrowhead=\"none\" arrowtail=\"box\" dir=\"both\"];"
    );
}

#[test]
fn all_clauses_in_order() {
    let text = Edge::new("src", "dst", "go")
        .style(Style::Bold)
        .color(Some("#ff0000"))
        .start_arrow(Arrow::Dot)
        .end_arrow(Arrow::Normal)
        .to_dot_string("->");
    assert_eq!(
        text,
        "src -> dst[label=\"go\"][style=\"bold\"][color=\"#ff0000\"]\
         [arrowhead=\"normal\" arrowtail=\"dot\" dir=\"both\"];"
    );
}

#[test]
fn every_arrow_is_written_by_its_keyword() {
    let cases = [
        (Arrow::NoArrow, "none"),
        (Arrow::Normal, "normal"),
        (Arrow::Square, "box"),
        (Arrow::Crow, "crow"),
        (Arrow::Curve, "curve"),
        (Arrow::ICurve, "icurve"),
        (Arrow::Diamond, "diamond"),
        (Arrow::Dot, "dot"),
        (Arrow::Inv, "inv"),
        (Arrow::Tee, "tee"),
        (Arrow::Vee, "vee"),
    ];
    for (arrow, keyword) in cases {
        assert!(!arrow.is_default());
        assert_eq!(arrow.as_slice(), keyword);
        assert_eq!(arrow.to_dot_string(), keyword);
    }
    assert!(Arrow::Unset.is_default());
    assert_eq!(Arrow::default(), Arrow::Unset);
}

#[test]
fn rendering_twice_gives_the_same_text() {
    let edge = Edge::new("a", "b", "l")
        .style(Style::Dotted)
        .end_arrow(Arrow::Tee);
    let first = edge.to_dot_string("->");
    let second = edge.to_dot_string("->");
    assert_eq!(first, second);
}

#[test]
fn configuring_a_copy_leaves_the_edge_alone() {
    let mut e1 = Edge::new("a", "b", "x");
    let before = e1.to_dot_string("->");
    let mut e2 = e1.label("X");
    let e3 = e2
        .style(Style::Dashed)
        .color(Some("blue"))
        .start_arrow(Arrow::Inv);
    assert_eq!(e1.to_dot_string("->"), before);
    assert_eq!(e2.to_dot_string("->"), "a -> b[label=\"X\"];");
    assert_eq!(
        e3.to_dot_string("->"),
        "a -> b[label=\"X\"][style=\"dashed\"][color=\"blue\"][arrowtail=\"inv\"];"
    );
}

#[test]
fn clone_renders_like_the_edge() {
    let edge = Edge::new("a", "b", "x").style(Style::Filled);
    assert_eq!(edge.clone().to_dot_string("--"), edge.to_dot_string("--"));
}
