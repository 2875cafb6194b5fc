//! The statement of an edge as a list of clauses, and what holds of the
//! list: which clauses are in it, how often, and what each one says.

use vstd::prelude::*;
use crate::arrow::Arrow;
use crate::attrs::{color_clause, label_clause, style_clause};
use crate::edge::{
    arrow_attrs, arrow_clause, arrowhead_attr, arrowtail_attr, both_directions_attr, EdgeView,
};
use crate::style::Style;
use crate::utils::quote_text;

verus! {

/// One bracketed clause of an edge statement.
pub enum Clause {
    Label(Seq<char>),
    Style(Style),
    Color(Seq<char>),
    Arrows { start: Arrow, end: Arrow },
}

impl Clause {
    /// The text of the clause.
    pub open spec fn text(self) -> Seq<char> {
        match self {
            Clause::Label(label) => label_clause(label),
            Clause::Style(style) => style_clause(style),
            Clause::Color(color) => color_clause(Some(color)),
            Clause::Arrows { start, end } => arrow_clause(start, end),
        }
    }
}

/// The texts of the given clauses, one behind the other.
pub open spec fn clauses_text(clauses: Seq<Clause>) -> Seq<char>
    decreases clauses.len(),
{
    if clauses.len() == 0 {
        Seq::empty()
    } else {
        clauses_text(clauses.drop_last()) + clauses.last().text()
    }
}

/// The style clause of an edge, if it has one.
pub open spec fn style_part(v: EdgeView) -> Seq<Clause> {
    if v.style.is_none() {
        Seq::empty()
    } else {
        seq![Clause::Style(v.style)]
    }
}

/// The color clause of an edge, if it has one.
pub open spec fn color_part(v: EdgeView) -> Seq<Clause> {
    match v.color {
        Some(c) => seq![Clause::Color(c)],
        None => Seq::empty(),
    }
}

/// The arrow clause of an edge, if it has one.
pub open spec fn arrow_part(v: EdgeView) -> Seq<Clause> {
    if v.start_arrow.unset() && v.end_arrow.unset() {
        Seq::empty()
    } else {
        seq![Clause::Arrows { start: v.start_arrow, end: v.end_arrow }]
    }
}

/// The clauses of an edge, in the order in which they are written.
pub open spec fn clauses(v: EdgeView) -> Seq<Clause> {
    seq![Clause::Label(v.label)] + style_part(v) + color_part(v) + arrow_part(v)
}

/// Whether neither bracket occurs in `s`.
pub open spec fn bracket_free(s: Seq<char>) -> bool {
    forall|i: int| 0 <= i < s.len() ==> s[i] != '[' && s[i] != ']'
}

/// A clause appended to a list appends its text to the list's text.
pub proof fn clauses_text_push(clauses: Seq<Clause>, clause: Clause)
    ensures
        clauses_text(clauses.push(clause)) == clauses_text(clauses) + clause.text(),
{
    assert(clauses.push(clause).drop_last() =~= clauses);
}

/// The text of an edge is its two ends, the texts of its clauses in their
/// order, and a semicolon.
pub proof fn dot_text_is_clause_list(v: EdgeView, edge_symbol: Seq<char>)
    ensures
        v.dot_text(edge_symbol) == v.endpoints(edge_symbol) + clauses_text(clauses(v)) + ";"@,
{
    let c0 = seq![Clause::Label(v.label)];
    let c1 = c0 + style_part(v);
    let c2 = c1 + color_part(v);
    let c3 = c2 + arrow_part(v);
    assert(clauses_text(c0) =~= label_clause(v.label)) by {
        assert(c0 =~= Seq::<Clause>::empty().push(Clause::Label(v.label)));
        clauses_text_push(Seq::empty(), Clause::Label(v.label));
    }
    assert(clauses_text(c1) =~= clauses_text(c0) + style_clause(v.style)) by {
        if v.style.is_none() {
            assert(c1 =~= c0);
        } else {
            assert(c1 =~= c0.push(Clause::Style(v.style)));
            clauses_text_push(c0, Clause::Style(v.style));
        }
    }
    assert(clauses_text(c2) =~= clauses_text(c1) + color_clause(v.color)) by {
        match v.color {
            Some(c) => {
                assert(c2 =~= c1.push(Clause::Color(c)));
                clauses_text_push(c1, Clause::Color(c));
            },
            None => {
                assert(c2 =~= c1);
            },
        }
    }
    assert(clauses_text(c3) =~= clauses_text(c2) + arrow_clause(v.start_arrow, v.end_arrow)) by {
        if v.start_arrow.unset() && v.end_arrow.unset() {
            assert(c3 =~= c2);
        } else {
            let arrows = Clause::Arrows { start: v.start_arrow, end: v.end_arrow };
            assert(c3 =~= c2.push(arrows));
            clauses_text_push(c2, arrows);
        }
    }
    assert(c3 == clauses(v));
    assert(v.dot_text(edge_symbol) =~= v.endpoints(edge_symbol) + clauses_text(c3) + ";"@);
}

/// The label clause is always the first clause of an edge, and the only
/// label clause; it holds the quoted label, also when the label is empty.
pub proof fn label_clause_always_first(v: EdgeView)
    ensures
        clauses(v).len() >= 1,
        clauses(v)[0] == Clause::Label(v.label),
        clauses(v)[0].text() == "[label="@ + quote_text(v.label) + "]"@,
        forall|i: int| 0 <= i < clauses(v).len() && clauses(v)[i] is Label ==> i == 0,
{
}

/// An edge with a style has exactly one style clause, which holds the
/// style's keyword between double quotes; an edge with `Style::NoStyle` has
/// no style clause.
pub proof fn style_clause_exactly_once(v: EdgeView)
    ensures
        v.style.is_none() ==> forall|i: int|
            0 <= i < clauses(v).len() ==> !(clauses(v)[i] is Style),
        !v.style.is_none() ==> {
            &&& clauses(v).len() >= 2
            &&& clauses(v)[1] == Clause::Style(v.style)
            &&& clauses(v)[1].text() == "[style=\""@ + v.style.name() + "\"]"@
            &&& forall|i: int| 0 <= i < clauses(v).len() && clauses(v)[i] is Style ==> i == 1
        },
{
}

/// The place of the color clause in the list of an edge that has one.
pub open spec fn color_index(v: EdgeView) -> int {
    if v.style.is_none() {
        1
    } else {
        2
    }
}

/// An edge with a color has exactly one color clause, which holds the color
/// quoted as `quote_text` quotes it; an edge without a color has no color
/// clause.
pub proof fn color_clause_exactly_once(v: EdgeView)
    ensures
        v.color is None ==> forall|i: int|
            0 <= i < clauses(v).len() ==> !(clauses(v)[i] is Color),
        v.color is Some ==> {
            &&& clauses(v).len() > color_index(v)
            &&& clauses(v)[color_index(v)] == Clause::Color(v.color->0)
            &&& clauses(v)[color_index(v)].text() == "[color="@ + quote_text(v.color->0) + "]"@
            &&& forall|i: int|
                0 <= i < clauses(v).len() && clauses(v)[i] is Color ==> i == color_index(v)
        },
{
}

/// An edge has an arrow clause exactly when one of its arrows is set, and
/// then it has one, as its last clause.
pub proof fn arrow_clause_at_most_once(v: EdgeView)
    ensures
        v.start_arrow.unset() && v.end_arrow.unset() ==> forall|i: int|
            0 <= i < clauses(v).len() ==> !(clauses(v)[i] is Arrows),
        !(v.start_arrow.unset() && v.end_arrow.unset()) ==> {
            &&& clauses(v).last() == Clause::Arrows { start: v.start_arrow, end: v.end_arrow }
            &&& forall|i: int|
                0 <= i < clauses(v).len() && clauses(v)[i] is Arrows ==> i == clauses(v).len() - 1
        },
{
}

/// Neither bracket occurs in the keyword of an arrow.
pub proof fn arrow_name_bracket_free(arrow: Arrow)
    ensures
        bracket_free(arrow.name()),
{
    reveal_strlit("");
    reveal_strlit("none");
    reveal_strlit("normal");
    reveal_strlit("box");
    reveal_strlit("crow");
    reveal_strlit("curve");
    reveal_strlit("icurve");
    reveal_strlit("diamond");
    reveal_strlit("dot");
    reveal_strlit("inv");
    reveal_strlit("tee");
    reveal_strlit("vee");
}

/// Two texts without brackets give a text without brackets.
pub proof fn bracket_free_concat(a: Seq<char>, b: Seq<char>)
    requires
        bracket_free(a),
        bracket_free(b),
    ensures
        bracket_free(a + b),
{
}

/// What the arrow clause holds, for each choice of the two arrows.
///
/// With both arrows unset there is no clause. Otherwise the clause is one
/// opening bracket, the attributes, and one closing bracket, and no bracket
/// occurs among the attributes. These are: the head attribute alone when
/// only the head is set; the tail attribute alone when only the tail is
/// set; and head attribute, tail attribute and direction attribute, with
/// single spaces between them, when both are set.
pub proof fn arrow_clause_cases(start: Arrow, end: Arrow)
    ensures
        start.unset() && end.unset() ==> arrow_clause(start, end) == Seq::<char>::empty(),
        !(start.unset() && end.unset()) ==> {
            &&& arrow_clause(start, end) == seq!['['] + arrow_attrs(start, end) + seq![']']
            &&& bracket_free(arrow_attrs(start, end))
        },
        start.unset() && !end.unset() ==> arrow_attrs(start, end) == "arrowhead=\""@ + end.name()
            + "\""@,
        !start.unset() && end.unset() ==> arrow_attrs(start, end) == "arrowtail=\""@
            + start.name() + "\""@,
        !start.unset() && !end.unset() ==> arrow_attrs(start, end) == "arrowhead=\""@
            + end.name() + "\""@ + " "@ + ("arrowtail=\""@ + start.name() + "\""@) + " "@
            + "dir=\"both\""@,
{
    reveal_strlit("[");
    reveal_strlit("]");
    assert("["@ =~= seq!['[']);
    assert("]"@ =~= seq![']']);
    reveal_strlit("arrowhead=\"");
    reveal_strlit("arrowtail=\"");
    reveal_strlit("\"");
    reveal_strlit(" ");
    reveal_strlit("dir=\"both\"");
    arrow_name_bracket_free(start);
    arrow_name_bracket_free(end);
    assert(bracket_free(arrowhead_attr(end))) by {
        bracket_free_concat("arrowhead=\""@, end.name());
        bracket_free_concat("arrowhead=\""@ + end.name(), "\""@);
    }
    assert(bracket_free(arrowtail_attr(start))) by {
        bracket_free_concat("arrowtail=\""@, start.name());
        bracket_free_concat("arrowtail=\""@ + start.name(), "\""@);
    }
    if !start.unset() && !end.unset() {
        bracket_free_concat(arrowhead_attr(end), " "@);
        bracket_free_concat(arrowhead_attr(end) + " "@, arrowtail_attr(start));
        bracket_free_concat(arrowhead_attr(end) + " "@ + arrowtail_attr(start), " "@);
        bracket_free_concat(
            arrowhead_attr(end) + " "@ + arrowtail_attr(start) + " "@,
            both_directions_attr(),
        );
    }
}

} // verus!
