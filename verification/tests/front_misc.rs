use rage_front::ast::expr::{Expression as AstExpression, ExpressionStore, OperatorExpr};
use rage_front::common::Directive;
use rage_front::interpreter::{InstructionTree, Interpreter};
use rage_front::parser::lexeme::{Lexeme as CompactLexeme, LexemeKind as CompactKind};
use rage_front::parser::span::{Location, Span as ParserSpan};
use rage_front::parser::tree::ParseTree;
use rage_front::symbol::{Symbol, SymbolKind, SymbolStore};
use rage_front::syntax::keywords::KeywordKind;
use rage_front::syntax::{Expression, ReturnStmt, Statement};

#[test]
fn directive_mapping_round_trips() {
    for d in [Directive::Run, Directive::Use, Directive::Build, Directive::Define] {
        assert_eq!(Directive::map_to(d.map_from()), d);
    }
    assert_eq!(Directive::map_to("run"), Directive::Run);
    assert_eq!(Directive::map_to("define"), Directive::Define);
    assert_eq!(Directive::map_to("banana"), Directive::UNKNOWN);
}

#[test]
fn keyword_mapping_round_trips() {
    for k in [
        KeywordKind::Pub,
        KeywordKind::Mod,
        KeywordKind::Use,
        KeywordKind::Mut,
        KeywordKind::Defer,
        KeywordKind::Return,
        KeywordKind::Inline,
    ] {
        assert_eq!(KeywordKind::from_text(k.as_text()), k);
    }
    assert_eq!(KeywordKind::from_text("defer"), KeywordKind::Defer);
    assert_eq!(KeywordKind::from_text("banana"), KeywordKind::UNKNOWN);
}

#[test]
fn symbol_store_hands_out_stable_indices() {
    let mut store = SymbolStore::default();
    let a = store.add_symbol(Symbol {
        label: "alpha".to_string(),
        kind: SymbolKind::Identifier,
        size: 4,
        width: 4,
    });
    let b = store.add_symbol(Symbol {
        label: "beta".to_string(),
        kind: SymbolKind::FnDecl,
        size: 8,
        width: 2,
    });
    assert_eq!(a, 0);
    assert_eq!(b, 1);
    assert_eq!(store.get_symbol(a).unwrap().label, "alpha");
    assert_eq!(store.get_symbol(b).unwrap().label, "beta");
    assert!(store.get_symbol(2).is_none());
}

#[test]
fn expression_store_hands_out_stable_indices() {
    let mut store = ExpressionStore::default();
    let lhs = store.add_expression(AstExpression::UNKNOWN);
    let rhs = store.add_expression(AstExpression::UNKNOWN);
    let sum = store.add_expression(AstExpression::Operator(OperatorExpr::Plus { lhs, rhs }));
    assert_eq!((lhs, rhs, sum), (0, 1, 2));
    match store.get_expression(sum).unwrap() {
        AstExpression::Operator(OperatorExpr::Plus { lhs: l, rhs: r }) => {
            assert_eq!((*l, *r), (lhs, rhs));
        },
        other => panic!("wrong expression: {:?}", other),
    }
    assert!(store.get_expression(3).is_none());
}

#[test]
fn interpreter_runs_the_handed_tree() {
    let it = Interpreter::new(InstructionTree);
    assert!(it.execute().is_ok());
}

#[test]
fn parser_spans_and_locations() {
    let sp = ParserSpan::new(3, 9);
    assert_eq!((sp.start, sp.end), (3, 9));
    let loc = Location::new(7, 2);
    assert_eq!((loc.line, loc.char), (7, 2));
}

#[test]
fn compact_lexeme_carries_kind_and_extent() {
    let l = CompactLexeme::new(CompactKind::Identifier, 5, 3);
    assert_eq!(l.kind, CompactKind::Identifier);
    assert_eq!((l.index, l.length), (5, 3));
}

#[test]
fn parse_tree_collects_statements() {
    let mut tree = ParseTree::new();
    tree.add(Statement::Return(ReturnStmt {
        inner: Expression::Binary(),
        span: ParserSpan::new(0, 4),
    }));
    tree.add(Statement::Expression(Expression::Unary()));
    let shown = format!("{:?}", tree);
    assert!(shown.contains("Return"));
}
