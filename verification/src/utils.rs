//! Quoting of arbitrary text as a DOT string literal.

use vstd::prelude::*;
use vstd::std_specs::iter::IteratorSpec;

verus! {

/// What one character of a label becomes inside a DOT string literal: a
/// double quote and a backslash get a backslash in front, every other
/// character stands for itself.
pub open spec fn escape_char(c: char) -> Seq<char> {
    if c == '"' || c == '\\' {
        seq!['\\', c]
    } else {
        seq![c]
    }
}

/// The characters of `s`, each replaced by its escaped form, in order.
pub open spec fn escape_text(s: Seq<char>) -> Seq<char>
    decreases s.len(),
{
    if s.len() == 0 {
        Seq::empty()
    } else {
        escape_text(s.drop_last()) + escape_char(s.last())
    }
}

/// The DOT string literal that denotes `s`: the escaped text between two
/// double quotes.
pub open spec fn quote_text(s: Seq<char>) -> Seq<char> {
    seq!['"'] + escape_text(s) + seq!['"']
}

/// Whether `t` can stand between the two quotes of a DOT string literal.
/// Read from the left, a backslash takes the character behind it along, and
/// a double quote occurs only where a backslash takes it along.
pub open spec fn well_escaped(t: Seq<char>) -> bool
    decreases t.len(),
{
    if t.len() == 0 {
        true
    } else if t[0] == '\\' {
        t.len() >= 2 && well_escaped(t.skip(2))
    } else if t[0] == '"' {
        false
    } else {
        well_escaped(t.skip(1))
    }
}

/// What a reader of a DOT string literal makes of the text between its
/// quotes: a backslash is dropped and the character behind it is kept.
pub open spec fn unescape_text(t: Seq<char>) -> Seq<char>
    decreases t.len(),
{
    if t.len() == 0 {
        Seq::empty()
    } else if t[0] == '\\' && t.len() >= 2 {
        seq![t[1]] + unescape_text(t.skip(2))
    } else {
        seq![t[0]] + unescape_text(t.skip(1))
    }
}

/// Two well-escaped texts give a well-escaped text, and it reads as the
/// first followed by the second.
pub proof fn well_escaped_concat(a: Seq<char>, b: Seq<char>)
    requires
        well_escaped(a),
        well_escaped(b),
    ensures
        well_escaped(a + b),
        unescape_text(a + b) == unescape_text(a) + unescape_text(b),
    decreases a.len(),
{
    if a.len() == 0 {
        assert(a + b =~= b);
        assert(unescape_text(a) + unescape_text(b) =~= unescape_text(b));
    } else if a[0] == '\\' {
        assert((a + b).skip(2) =~= a.skip(2) + b);
        well_escaped_concat(a.skip(2), b);
        assert(unescape_text(a + b) =~= unescape_text(a) + unescape_text(b));
    } else {
        assert((a + b).skip(1) =~= a.skip(1) + b);
        well_escaped_concat(a.skip(1), b);
        assert(unescape_text(a + b) =~= unescape_text(a) + unescape_text(b));
    }
}

/// The escaped form of one character is well escaped and reads as that
/// character.
pub proof fn escape_char_reads_back(c: char)
    ensures
        well_escaped(escape_char(c)),
        unescape_text(escape_char(c)) == seq![c],
{
    let e = escape_char(c);
    if c == '"' || c == '\\' {
        assert(e.skip(2) =~= Seq::<char>::empty());
        assert(well_escaped(e.skip(2)));
        assert(unescape_text(e.skip(2)) =~= Seq::<char>::empty());
        assert(unescape_text(e) =~= seq![c]);
    } else {
        assert(e.skip(1) =~= Seq::<char>::empty());
        assert(well_escaped(e.skip(1)));
        assert(unescape_text(e.skip(1)) =~= Seq::<char>::empty());
        assert(unescape_text(e) =~= seq![c]);
    }
}

/// Escaping gives a text that can stand between the quotes of a string
/// literal, whatever the input holds, and that reads back as the input: no
/// two inputs are escaped alike.
pub proof fn escape_text_reads_back(s: Seq<char>)
    ensures
        well_escaped(escape_text(s)),
        unescape_text(escape_text(s)) == s,
    decreases s.len(),
{
    if s.len() > 0 {
        escape_text_reads_back(s.drop_last());
        escape_char_reads_back(s.last());
        well_escaped_concat(escape_text(s.drop_last()), escape_char(s.last()));
        assert(s.drop_last() + seq![s.last()] =~= s);
    }
}

/// Escaping a text piece by piece gives the escaped text.
pub proof fn escape_text_concat(a: Seq<char>, b: Seq<char>)
    ensures
        escape_text(a + b) == escape_text(a) + escape_text(b),
    decreases b.len(),
{
    if b.len() == 0 {
        assert(a + b =~= a);
        assert(escape_text(a) + escape_text(b) =~= escape_text(a));
    } else {
        assert((a + b).drop_last() =~= a + b.drop_last());
        escape_text_concat(a, b.drop_last());
        assert(escape_text(a + b) =~= escape_text(a) + escape_text(b));
    }
}

/// A text without double quotes and backslashes is escaped as itself.
pub proof fn escape_text_of_plain(s: Seq<char>)
    requires
        forall|i: int| 0 <= i < s.len() ==> s[i] != '"' && s[i] != '\\',
    ensures
        escape_text(s) == s,
    decreases s.len(),
{
    if s.len() > 0 {
        escape_text_of_plain(s.drop_last());
        assert(s.drop_last() + seq![s.last()] =~= s);
    }
}

/// A quoted text begins and ends with a double quote, and between the two
/// stands the escaped text.
pub proof fn quote_text_shape(s: Seq<char>)
    ensures
        quote_text(s).len() == escape_text(s).len() + 2,
        quote_text(s).first() == '"',
        quote_text(s).last() == '"',
        quote_text(s).subrange(1, quote_text(s).len() - 1) == escape_text(s),
{
    assert(quote_text(s).subrange(1, quote_text(s).len() - 1) =~= escape_text(s));
}

/// Appends one character to a string.
///
/// Trusted: `String::push` of the standard library, which by its
/// documentation appends the given `char` to the end of the string.
#[verifier::external_body]
fn push_char(s: &mut String, c: char)
    ensures
        final(s)@ == old(s)@.push(c),
{
    s.push(c);
}

/// Quotes `s` as a DOT string literal.
pub fn quote_string(s: String) -> (r: String)
    ensures
        r@ == quote_text(s@),
{
    let mut out = String::new();
    push_char(&mut out, '"');
    for c in it: s.as_str().chars()
        invariant
            it.seq() == s@,
            out@ == seq!['"'] + escape_text(s@.take(it.index())),
    {
        proof {
            let done = s@.take(it.index() + 1);
            assert(done.drop_last() == s@.take(it.index()));
            assert(done.last() == c);
        }
        if c == '"' || c == '\\' {
            push_char(&mut out, '\\');
        }
        push_char(&mut out, c);
    }
    proof {
        assert(s@.take(s@.len() as int) == s@);
    }
    push_char(&mut out, '"');
    out
}

} // verus!
