use rage_front::builder::driver::{execute_parse, BuildError, BuildEvent};
use rage_front::builder::incrimental::Incrimental;
use rage_front::builder::source::Source;
use rage_front::lexer::lexeme::Lexeme;

#[test]
fn identity_is_a_full_digest() {
    let s = Source::from_text("a.rg".to_string(), "".to_string());
    assert_eq!(s.id().as_bytes().len(), 32);
}

#[test]
fn identity_matches_the_content_digest() {
    // the identity is the digest of the text, nothing else
    let s = Source::from_text("a.rg".to_string(), "pub fn main".to_string());
    let expected = blake3::hash("pub fn main".as_bytes());
    assert_eq!(s.id().as_bytes().as_slice(), expected.as_bytes());
}

#[test]
fn same_content_same_identity_across_paths() {
    let a = Source::from_text("first.rg".to_string(), "fn x".to_string());
    let b = Source::from_text("second.rg".to_string(), "fn x".to_string());
    assert!(a.id().same_as(b.id()));
    assert_ne!(a.path(), b.path());
}

#[test]
fn different_content_different_identity() {
    let a = Source::from_text("a.rg".to_string(), "fn x".to_string());
    let b = Source::from_text("a.rg".to_string(), "fn y".to_string());
    assert!(!a.id().same_as(b.id()));
}

#[test]
fn loaded_source_starts_at_raw_text() {
    let s = Source::from_text("a.rg".to_string(), "fn x".to_string());
    assert_eq!(s.incrimental, Incrimental::RawText("fn x".to_string()));
    assert_eq!(s.path(), "a.rg");
}

#[test]
fn phase_never_regresses() {
    let mut s = Source::from_text("a.rg".to_string(), "fn x".to_string());
    assert!(!s.advance(Incrimental::CheckCached));
    assert!(!s.advance(Incrimental::Metadata {}));
    assert!(!s.advance(Incrimental::RawText("other".to_string())));
    assert_eq!(s.incrimental, Incrimental::RawText("fn x".to_string()));
}

#[test]
fn phase_ranks_are_ordered() {
    assert!(Incrimental::CheckCached.rank() < Incrimental::Metadata {}.rank());
    assert!(Incrimental::Metadata {}.rank() < Incrimental::RawText(String::new()).rank());
}

#[test]
fn parse_task_scans_the_loaded_text() {
    let s = Source::from_text("a.rg".to_string(), "pub fn".to_string());
    match execute_parse(&s) {
        BuildEvent::Parsed { tokens } => {
            let kinds: Vec<&Lexeme> = tokens.iter().map(|(_, l)| l).collect();
            assert_eq!(kinds, vec![&Lexeme::Pub, &Lexeme::Whitespace, &Lexeme::Fn]);
        },
        other => panic!("expected a parsed event, got {:?}", other),
    }
}

#[test]
fn parse_task_surfaces_lexical_errors() {
    let s = Source::from_text("a.rg".to_string(), "//*".to_string());
    match execute_parse(&s) {
        BuildEvent::Error { context: BuildError::Lexical(e) } => {
            assert_eq!(e.span.start, 0);
            assert_eq!(e.span.length, 3);
        },
        other => panic!("expected a lexical error event, got {:?}", other),
    }
}

#[test]
fn parse_task_needs_loaded_text() {
    let mut s = Source::from_text("a.rg".to_string(), "fn x".to_string());
    s.incrimental = Incrimental::CheckCached;
    match execute_parse(&s) {
        BuildEvent::Error { context } => assert_eq!(context, BuildError::MissingSourceText),
        other => panic!("expected an error event, got {:?}", other),
    }
}
