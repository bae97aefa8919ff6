//! The logical query tree and its canonical rendering.
use vstd::prelude::*;
use crate::schema::{
    Bound, Field, Occur, Term, Type, bound_text, occur_letter, occur_prefix, phrase_text,
    push_phrase_text,
};
use crate::score::Score;
use vstd::std_specs::vec::axiom_vec_index_decreases;

verus! {

/// A leaf-level match primitive.
#[derive(Clone)]
pub enum LogicalLiteral {
    /// Documents that hold this exact term.
    Term(Term),
    /// Documents that hold the terms at the given relative positions.
    Phrase(Vec<(usize, Term)>),
    /// Documents whose value of `field` lies between the endpoints.
    Range { field: Field, value_type: Type, lower: Bound, upper: Bound },
    /// Every document.
    All,
}

/// A node of the query tree; each node owns its children.
pub enum LogicalAst {
    /// A boolean combination of children, each tagged with its occurrence.
    Clause(Vec<(Occur, LogicalAst)>),
    /// One literal.
    Leaf(Box<LogicalLiteral>),
    /// A subtree whose relevance is multiplied by the factor.
    Boost(Box<LogicalAst>, Score),
}

/// The rendering of a clause without children.
pub open spec fn empty_clause_text() -> Seq<char> {
    "<emptyclause>"@
}

/// The canonical rendering of a literal.
pub open spec fn literal_text(l: LogicalLiteral) -> Seq<char> {
    match l {
        LogicalLiteral::Term(t) => t.view_text(),
        LogicalLiteral::Phrase(ps) => phrase_text(ps@),
        LogicalLiteral::Range { lower, upper, .. } => "("@ + bound_text(lower) + " TO "@
            + bound_text(upper) + ")"@,
        LogicalLiteral::All => "*"@,
    }
}

/// The tree that boosting `a` by `f` yields.
pub open spec fn boosted(a: LogicalAst, f: Score) -> LogicalAst {
    if f.is_near_one() {
        a
    } else {
        LogicalAst::Boost(Box::new(a), f)
    }
}

/// The canonical rendering of a tree.
pub open spec fn ast_text(a: LogicalAst) -> Seq<char>
    decreases a,
{
    match a {
        LogicalAst::Clause(cs) => if cs@.len() == 0 {
            empty_clause_text()
        } else {
            "("@ + children_text(cs@) + ")"@
        },
        LogicalAst::Leaf(l) => literal_text(*l),
        LogicalAst::Boost(sub, f) => ast_text(*sub) + "^"@ + f.text(),
    }
}

/// One child of a clause: its occurrence prefix, then its subtree.
pub open spec fn child_text(c: (Occur, LogicalAst)) -> Seq<char> {
    occur_prefix(c.0) + ast_text(c.1)
}

/// The children of a clause, each with its occurrence prefix, space
/// separated.
pub open spec fn children_text(cs: Seq<(Occur, LogicalAst)>) -> Seq<char>
    decreases cs,
{
    if cs.len() == 0 {
        Seq::empty()
    } else if cs.len() == 1 {
        occur_prefix(cs[0].0) + ast_text(cs[0].1)
    } else {
        children_text(cs.drop_last()) + " "@ + occur_prefix(cs.last().0) + ast_text(cs.last().1)
    }
}

impl LogicalLiteral {
    /// Appends the canonical rendering of the literal.
    pub fn push_text(&self, s: &mut String)
        ensures
            final(s)@ == old(s)@ + literal_text(*self),
    {
        match self {
            LogicalLiteral::Term(t) => t.push_text(s),
            LogicalLiteral::Phrase(ps) => push_phrase_text(s, ps),
            LogicalLiteral::Range { lower, upper, .. } => {
                s.append("(");
                lower.push_text(s);
                s.append(" TO ");
                upper.push_text(s);
                s.append(")");
            },
            LogicalLiteral::All => s.append("*"),
        }
        assert(s@ =~= old(s)@ + literal_text(*self));
    }

    /// The canonical rendering of the literal.
    pub fn render(&self) -> (r: String)
        ensures
            r@ == literal_text(*self),
    {
        let mut s = String::new();
        self.push_text(&mut s);
        s
    }
}

impl LogicalAst {
    /// Applies a relevance factor to the tree: a factor within the tolerance
    /// of `1` leaves the tree as it is, any other wraps it in a `Boost` node.
    pub fn boost(self, boost: Score) -> (r: LogicalAst)
        ensures
            r == boosted(self, boost),
    {
        if boost.near_one() {
            self
        } else {
            LogicalAst::Boost(Box::new(self), boost)
        }
    }

    /// Appends the canonical rendering of the tree.
    pub fn push_text(&self, s: &mut String)
        ensures
            final(s)@ == old(s)@ + ast_text(*self),
        decreases self,
    {
        broadcast use axiom_vec_index_decreases;

        match self {
            LogicalAst::Clause(cs) => {
                if cs.len() == 0 {
                    s.append("<emptyclause>");
                } else {
                    s.append("(");
                    let ghost start = s@;
                    let mut i: usize = 0;
                    while i < cs.len()
                        invariant
                            decreases_to!(*self => *cs),
                            i <= cs@.len(),
                            s@ == start + children_text(cs@.take(i as int)),
                        decreases cs.len() - i,
                    {
                        if i > 0 {
                            s.append(" ");
                        }
                        s.append(occur_letter(cs[i].0));
                        proof {
                            assert(decreases_to!(*cs => cs[i as int]));
                            assert(decreases_to!(cs[i as int] => cs[i as int].1));
                            assert(decreases_to!(*self => cs[i as int].1));
                        }
                        cs[i].1.push_text(s);
                        assert(cs@.take(i + 1).drop_last() =~= cs@.take(i as int));
                        assert(s@ =~= start + children_text(cs@.take(i + 1)));
                        i = i + 1;
                    }
                    assert(cs@.take(i as int) =~= cs@);
                    s.append(")");
                }
            },
            LogicalAst::Leaf(l) => l.push_text(s),
            LogicalAst::Boost(sub, f) => {
                sub.push_text(s);
                s.append("^");
                f.push_text(s);
            },
        }
        assert(s@ =~= old(s)@ + ast_text(*self));
    }

    /// The canonical rendering of the tree.
    pub fn render(&self) -> (r: String)
        ensures
            r@ == ast_text(*self),
    {
        let mut s = String::new();
        self.push_text(&mut s);
        s
    }
}

impl From<LogicalLiteral> for LogicalAst {
    /// A leaf that holds the literal.
    fn from(literal: LogicalLiteral) -> (r: LogicalAst)
        ensures
            r == LogicalAst::Leaf(Box::new(literal)),
    {
        LogicalAst::Leaf(Box::new(literal))
    }
}

impl vstd::std_specs::convert::FromSpecImpl<LogicalLiteral> for LogicalAst {
    open spec fn obeys_from_spec() -> bool {
        true
    }

    open spec fn from_spec(literal: LogicalLiteral) -> LogicalAst {
        LogicalAst::Leaf(Box::new(literal))
    }
}

} // verus!
