//! Properties of boosting and of the canonical rendering.
use vstd::prelude::*;
use crate::logical_ast::{
    LogicalAst, ast_text, boosted, child_text, children_text, empty_clause_text,
};
use crate::schema::{Occur, occur_prefix};
use crate::score::Score;

verus! {

/// Texts joined with a single space between neighbours.
pub open spec fn spaced(pieces: Seq<Seq<char>>) -> Seq<char>
    decreases pieces.len(),
{
    if pieces.len() == 0 {
        Seq::empty()
    } else if pieces.len() == 1 {
        pieces[0]
    } else {
        spaced(pieces.drop_last()) + " "@ + pieces.last()
    }
}

/// The rendered pieces of a clause's children, in order.
pub open spec fn child_texts(cs: Seq<(Occur, LogicalAst)>) -> Seq<Seq<char>> {
    cs.map_values(|c: (Occur, LogicalAst)| child_text(c))
}

/// Boosting by a factor within the tolerance of `1` leaves the tree, and so
/// its rendering, as it is.
pub proof fn lemma_boost_near_one_is_identity(t: LogicalAst, f: Score)
    requires
        f.is_near_one(),
    ensures
        boosted(t, f) == t,
        ast_text(boosted(t, f)) == ast_text(t),
{
}

/// Boosting by any other factor renders as the tree's rendering, a caret and
/// the factor's text.
pub proof fn lemma_boost_wraps(t: LogicalAst, f: Score)
    requires
        !f.is_near_one(),
    ensures
        boosted(t, f) matches LogicalAst::Boost(sub, g) && *sub == t && g == f,
        ast_text(boosted(t, f)) == ast_text(t) + "^"@ + f.text(),
{
}

/// A clause without children renders as the empty-clause marker, and as a
/// child of another clause its piece is its prefix followed by that marker.
pub proof fn lemma_empty_clause(t: LogicalAst, o: Occur)
    requires
        t matches LogicalAst::Clause(cs) && cs@.len() == 0,
    ensures
        ast_text(t) == empty_clause_text(),
        child_text((o, t)) == occur_prefix(o) + empty_clause_text(),
{
}

/// A non-empty clause renders as its children's pieces, space separated, in
/// parentheses.
pub proof fn lemma_clause_text(cs: Seq<(Occur, LogicalAst)>)
    ensures
        children_text(cs) == spaced(child_texts(cs)),
    decreases cs.len(),
{
    if cs.len() > 1 {
        lemma_clause_text(cs.drop_last());
        assert(child_texts(cs.drop_last()) =~= child_texts(cs).drop_last());
    }
}

/// Replacing one child of a clause changes that child's piece of the
/// rendering alone: every sibling keeps its piece, and the clause is
/// rendered from the pieces as before.
pub proof fn lemma_replace_child(
    cs: Seq<(Occur, LogicalAst)>,
    i: int,
    c: (Occur, LogicalAst),
)
    requires
        0 <= i < cs.len(),
    ensures
        child_texts(cs.update(i, c)) == child_texts(cs).update(i, child_text(c)),
        forall|j: int|
            0 <= j < cs.len() && j != i ==> #[trigger] child_texts(cs.update(i, c))[j]
                == child_texts(cs)[j],
        children_text(cs.update(i, c)) == spaced(child_texts(cs).update(i, child_text(c))),
{
    assert(child_texts(cs.update(i, c)) =~= child_texts(cs).update(i, child_text(c)));
    lemma_clause_text(cs.update(i, c));
}

/// Equal trees render to equal text: rendering depends on the tree alone.
pub proof fn lemma_render_deterministic(a: LogicalAst, b: LogicalAst)
    requires
        a == b,
    ensures
        ast_text(a) == ast_text(b),
{
}

} // verus!
