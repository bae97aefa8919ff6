//! The values that the query tree takes from the term and schema layer.
use vstd::prelude::*;
use crate::text::{decimal_text, push_decimal};

verus! {

/// How a clause's child takes part in a match.
#[derive(Clone, Copy, Debug, PartialEq, Eq, Structural)]
pub enum Occur {
    /// The child must match.
    Must,
    /// The child may match.
    Should,
    /// The child must not match.
    MustNot,
}

/// The prefix that marks an occurrence in the canonical rendering.
pub open spec fn occur_prefix(occur: Occur) -> Seq<char> {
    match occur {
        Occur::Must => "+"@,
        Occur::MustNot => "-"@,
        Occur::Should => ""@,
    }
}

/// Text of the prefix of `occur`.
pub fn occur_letter(occur: Occur) -> (r: &'static str)
    ensures
        r@ == occur_prefix(occur),
{
    match occur {
        Occur::Must => "+",
        Occur::MustNot => "-",
        Occur::Should => "",
    }
}

/// Identifier of an indexed field.
#[derive(Clone, Copy, Debug, PartialEq, Eq, Structural)]
pub struct Field(pub u32);

/// The semantic type of a field's values.
#[derive(Clone, Copy, Debug, PartialEq, Eq, Structural)]
pub enum Type {
    Str,
    U64,
    I64,
    F64,
    Bool,
    Date,
    Facet,
    Bytes,
    Json,
    IpAddr,
}

/// An indexed value bound to a field, with its textual form.
#[derive(Clone, Debug)]
pub struct Term {
    pub field: Field,
    pub text: String,
}

impl Term {
    /// The term's textual form.
    pub open spec fn view_text(&self) -> Seq<char> {
        self.text@
    }

    /// A term of `field` with the given text.
    pub fn new(field: Field, text: &str) -> (r: Term)
        ensures
            r.field == field,
            r.text@ == text@,
    {
        Term { field, text: String::from_str(text) }
    }

    /// Appends the term's textual form.
    pub fn push_text(&self, s: &mut String)
        ensures
            final(s)@ == old(s)@ + self.view_text(),
    {
        s.append(self.text.as_str());
    }
}

/// One endpoint of a range.
#[derive(Clone, Debug)]
pub enum Bound {
    /// The range holds the term.
    Included(Term),
    /// The range stops just short of the term.
    Excluded(Term),
    /// The range is open on this side.
    Unbounded,
}

/// The textual form of a range endpoint.
pub open spec fn bound_text(b: Bound) -> Seq<char> {
    match b {
        Bound::Included(t) => "Included("@ + t.view_text() + ")"@,
        Bound::Excluded(t) => "Excluded("@ + t.view_text() + ")"@,
        Bound::Unbounded => "Unbounded"@,
    }
}

impl Bound {
    /// Appends the endpoint's textual form.
    pub fn push_text(&self, s: &mut String)
        ensures
            final(s)@ == old(s)@ + bound_text(*self),
    {
        match self {
            Bound::Included(t) => {
                s.append("Included(");
                t.push_text(s);
                s.append(")");
            },
            Bound::Excluded(t) => {
                s.append("Excluded(");
                t.push_text(s);
                s.append(")");
            },
            Bound::Unbounded => {
                s.append("Unbounded");
            },
        }
        assert(s@ =~= old(s)@ + bound_text(*self));
    }
}

/// One positioned term of a phrase, as `(position, term)`.
pub open spec fn positioned_text(p: (usize, Term)) -> Seq<char> {
    "("@ + decimal_text(p.0 as nat) + ", "@ + p.1.view_text() + ")"@
}

/// The positioned terms of a phrase, comma separated.
pub open spec fn positioned_list_text(ps: Seq<(usize, Term)>) -> Seq<char>
    decreases ps.len(),
{
    if ps.len() == 0 {
        Seq::empty()
    } else if ps.len() == 1 {
        positioned_text(ps[0])
    } else {
        positioned_list_text(ps.drop_last()) + ", "@ + positioned_text(ps.last())
    }
}

/// The textual form of a phrase: its positioned terms in brackets, quoted.
pub open spec fn phrase_text(ps: Seq<(usize, Term)>) -> Seq<char> {
    "\"["@ + positioned_list_text(ps) + "]\""@
}

/// Appends the textual form of a phrase.
pub fn push_phrase_text(s: &mut String, ps: &Vec<(usize, Term)>)
    ensures
        final(s)@ == old(s)@ + phrase_text(ps@),
{
    s.append("\"[");
    let ghost start = s@;
    let mut i: usize = 0;
    while i < ps.len()
        invariant
            i <= ps@.len(),
            start == old(s)@ + "\"["@,
            s@ == start + positioned_list_text(ps@.take(i as int)),
        decreases ps.len() - i,
    {
        if i > 0 {
            s.append(", ");
        }
        let (pos, term) = &ps[i];
        s.append("(");
        push_decimal(s, *pos as u64);
        s.append(", ");
        term.push_text(s);
        s.append(")");
        assert(ps@.take(i + 1).drop_last() =~= ps@.take(i as int));
        assert(s@ =~= start + positioned_list_text(ps@.take(i + 1)));
        i = i + 1;
    }
    assert(ps@.take(i as int) =~= ps@);
    s.append("]\"");
    assert(s@ =~= old(s)@ + phrase_text(ps@));
}

} // verus!
