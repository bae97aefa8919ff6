use query_ast::{occur_letter, Bound, Field, LogicalAst, LogicalLiteral, Occur, Score, Term, Type};

fn all() -> LogicalAst {
    LogicalAst::Leaf(Box::new(LogicalLiteral::All))
}

fn term(text: &str) -> Term {
    Term::new(Field(0), text)
}

fn score(mantissa: i64, scale: u8) -> Score {
    Score { mantissa, scale }
}

fn text_of(s: Score) -> String {
    let mut out = String::new();
    s.push_text(&mut out);
    out
}

#[test]
fn boost_by_one_leaves_tree() {
    let t = all().boost(score(1, 0));
    assert!(matches!(t, LogicalAst::Leaf(_)));
    assert_eq!(t.render(), "*");
    let t = all().boost(score(100, 2));
    assert!(matches!(t, LogicalAst::Leaf(_)));
    let t = all().boost(score(10_000_001, 7));
    assert!(matches!(t, LogicalAst::Leaf(_)));
    assert_eq!(t.render(), "*");
}

#[test]
fn boost_away_from_one_wraps() {
    let clause = LogicalAst::Clause(vec![(Occur::Must, all())]);
    let t = clause.boost(score(25, 1));
    match &t {
        LogicalAst::Boost(sub, f) => {
            assert_eq!(sub.render(), "(+*)");
            assert_eq!(*f, score(25, 1));
        }
        _ => panic!("expected a boost node"),
    }
    assert_eq!(t.render(), "(+*)^2.5");
    let t = all().boost(score(1_000_001, 6));
    assert_eq!(t.render(), "*^1.000001");
}

#[test]
fn nested_boosts_are_not_collapsed() {
    let t = all().boost(score(2, 0)).boost(score(3, 0));
    assert_eq!(t.render(), "*^2^3");
    match t {
        LogicalAst::Boost(inner, f) => {
            assert_eq!(f, score(3, 0));
            assert!(matches!(*inner, LogicalAst::Boost(_, _)));
        }
        _ => panic!("expected a boost node"),
    }
}

#[test]
fn score_text_forms() {
    assert_eq!(text_of(score(2, 0)), "2");
    assert_eq!(text_of(score(20, 1)), "2");
    assert_eq!(text_of(score(250, 2)), "2.5");
    assert_eq!(text_of(score(105, 2)), "1.05");
    assert_eq!(text_of(score(5, 1)), "0.5");
    assert_eq!(text_of(score(-15, 1)), "-1.5");
    assert_eq!(text_of(score(0, 3)), "0");
    assert_eq!(text_of(score(1, 25)), "0.0000000000000000000000001");
    assert_eq!(text_of(score(i64::MIN, 0)), "-9223372036854775808");
    assert_eq!(text_of(score(i64::MAX, 19)), "0.9223372036854775807");
}

#[test]
fn score_near_one() {
    assert!(score(1, 0).near_one());
    assert!(score(1_000_000_000_000_000_000, 18).near_one());
    assert!(score(9_999_999, 7).near_one());
    assert!(!score(9_999_998, 7).near_one());
    assert!(score(99_999_999, 8).near_one());
    assert!(!score(2, 0).near_one());
    assert!(!score(-1, 0).near_one());
    assert!(!score(i64::MAX, 40).near_one());
}

#[test]
fn empty_clause_renders_marker() {
    let t = LogicalAst::Clause(vec![]);
    assert_eq!(t.render(), "<emptyclause>");
    let nested = LogicalAst::Clause(vec![(Occur::Must, LogicalAst::Clause(vec![]))]);
    assert_eq!(nested.render(), "(+<emptyclause>)");
    let deeper = LogicalAst::Clause(vec![(Occur::Should, nested)]);
    assert_eq!(deeper.render(), "((+<emptyclause>))");
}

#[test]
fn occur_prefixes() {
    assert_eq!(LogicalAst::Clause(vec![(Occur::Must, all())]).render(), "(+*)");
    assert_eq!(LogicalAst::Clause(vec![(Occur::Should, all())]).render(), "(*)");
    assert_eq!(LogicalAst::Clause(vec![(Occur::MustNot, all())]).render(), "(-*)");
    assert_eq!(occur_letter(Occur::Must), "+");
    assert_eq!(occur_letter(Occur::Should), "");
    assert_eq!(occur_letter(Occur::MustNot), "-");
}

#[test]
fn multi_child_clause_spacing() {
    let t = LogicalAst::Clause(vec![(Occur::Must, all()), (Occur::MustNot, all())]);
    assert_eq!(t.render(), "(+* -*)");
    let t = LogicalAst::Clause(vec![
        (Occur::Should, LogicalAst::from(LogicalLiteral::Term(term("a")))),
        (Occur::Must, all()),
        (Occur::MustNot, LogicalAst::Clause(vec![])),
    ]);
    assert_eq!(t.render(), "(a +* -<emptyclause>)");
}

#[test]
fn range_renders_both_bounds() {
    let range = LogicalLiteral::Range {
        field: Field(1),
        value_type: Type::Str,
        lower: Bound::Included(term("a")),
        upper: Bound::Excluded(term("z")),
    };
    assert_eq!(range.render(), "(Included(a) TO Excluded(z))");
    let t = LogicalAst::from(range);
    assert_eq!(t.render(), "(Included(a) TO Excluded(z))");
    let open = LogicalLiteral::Range {
        field: Field(1),
        value_type: Type::U64,
        lower: Bound::Unbounded,
        upper: Bound::Included(term("9")),
    };
    assert_eq!(open.render(), "(Unbounded TO Included(9))");
}

#[test]
fn term_and_phrase_rendering() {
    assert_eq!(LogicalLiteral::Term(term("hello")).render(), "hello");
    let phrase = LogicalLiteral::Phrase(vec![(0, term("big")), (2, term("dog"))]);
    assert_eq!(phrase.render(), "\"[(0, big), (2, dog)]\"");
    assert_eq!(LogicalLiteral::Phrase(vec![]).render(), "\"[]\"");
    assert_eq!(LogicalLiteral::All.render(), "*");
}

#[test]
fn leaf_from_literal() {
    let t = LogicalAst::from(LogicalLiteral::All);
    assert!(matches!(t, LogicalAst::Leaf(_)));
    assert_eq!(t.render(), "*");
}

#[test]
fn rendering_is_deterministic() {
    let t = LogicalAst::Clause(vec![
        (Occur::Must, LogicalAst::from(LogicalLiteral::Term(term("x")))),
        (Occur::Should, all().boost(score(15, 1))),
    ]);
    let first = t.render();
    let second = t.render();
    assert_eq!(first, second);
    assert_eq!(first, "(+x *^1.5)");
}

#[test]
fn changing_one_child_leaves_siblings() {
    let mut t = LogicalAst::Clause(vec![
        (Occur::Must, LogicalAst::from(LogicalLiteral::Term(term("left")))),
        (Occur::MustNot, LogicalAst::from(LogicalLiteral::Term(term("right")))),
    ]);
    let sibling_before = match &t {
        LogicalAst::Clause(cs) => cs[1].1.render(),
        _ => unreachable!(),
    };
    if let LogicalAst::Clause(cs) = &mut t {
        cs[0].1 = LogicalAst::Clause(vec![]);
    }
    match &t {
        LogicalAst::Clause(cs) => assert_eq!(cs[1].1.render(), sibling_before),
        _ => unreachable!(),
    }
    assert_eq!(t.render(), "(+<emptyclause> -right)");
    if let LogicalAst::Clause(cs) = &mut t {
        cs.remove(0);
    }
    assert_eq!(t.render(), "(-right)");
}

#[test]
fn text_helpers() {
    let mut s = String::from("n=");
    query_ast::text::push_decimal(&mut s, 0);
    query_ast::text::push_decimal(&mut s, 1203);
    query_ast::text::push_padded(&mut s, 7, 3);
    assert_eq!(s, "n=01203007");
}
