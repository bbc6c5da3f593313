use rage_front::lexer::error::{LexicalError, LexicalErrorKind};
use rage_front::lexer::lexeme::{str_to_keyword, Lexeme, Span};
use rage_front::lexer::tokenize::{scan, Tokenizer};

#[test]
fn tokenize_dangling_block_comment() {
    if let Some(Err(e)) = Tokenizer::new("//*").next() {
        assert_eq!(
            e,
            LexicalError { kind: LexicalErrorKind::DanglingLexeme, span: Span { start: 0, length: 3 } }
        )
    } else {
        assert!(false)
    }
}

#[test]
fn tokenize_label_snake_case() {
    if let Some(Ok((_, l))) = Tokenizer::new("snake_case").next() {
        assert_eq!(l, Lexeme::Label("snake_case".into()))
    } else {
        assert!(false)
    }
}

#[test]
fn tokenize_label_pascal_case() {
    if let Some(Ok((_, l))) = Tokenizer::new("PascalCase").next() {
        assert_eq!(l, Lexeme::Label("PascalCase".into()))
    } else {
        assert!(false)
    }
}

#[test]
fn tokenize_lable_with_digit() {
    if let Some(Ok((_, l))) = Tokenizer::new("test0").next() {
        assert_eq!(l, Lexeme::Label("test0".into()))
    } else {
        assert!(false)
    }
}

#[test]
fn tokenize_hex() {
    if let Some(Ok((_, l))) = Tokenizer::new("0x0f7f").next() {
        assert_eq!(l, Lexeme::Hex("0x0f7f".into()))
    } else {
        assert!(false)
    }
}

#[test]
fn tokenize_binary() {
    if let Some(Ok((_, l))) = Tokenizer::new("0b01010101").next() {
        assert_eq!(l, Lexeme::Binary("0b01010101".into()))
    } else {
        assert!(false)
    }
}

#[test]
fn tokenize_keyword() {
    if let Some(Ok((_, l))) = Tokenizer::new("pub").next() {
        assert_eq!(l, Lexeme::Pub)
    } else {
        assert!(false)
    }
}

#[test]
fn scan_identifier_span() {
    let toks = scan("snake_case").unwrap();
    assert_eq!(toks.len(), 1);
    assert_eq!(toks[0], (Span::new(0, 10), Lexeme::Label("snake_case".into())));
}

#[test]
fn scan_keyword_is_not_identifier() {
    let toks = scan("pub").unwrap();
    assert_eq!(toks, vec![(Span::new(0, 3), Lexeme::Pub)]);
}

#[test]
fn scan_all_keywords() {
    let words = ["const", "else", "fn", "if", "match", "mut", "pub", "return", "type", "use"];
    let kinds = [
        Lexeme::Const,
        Lexeme::Else,
        Lexeme::Fn,
        Lexeme::If,
        Lexeme::Match,
        Lexeme::Mut,
        Lexeme::Pub,
        Lexeme::Return,
        Lexeme::Type,
        Lexeme::Use,
    ];
    for (word, kind) in words.iter().zip(kinds.iter()) {
        let toks = scan(word).unwrap();
        assert_eq!(toks.len(), 1);
        assert_eq!(&toks[0].1, kind);
    }
}

#[test]
fn scan_hex_span_includes_prefix() {
    let toks = scan("0x0f7f").unwrap();
    assert_eq!(toks, vec![(Span::new(0, 6), Lexeme::Hex("0x0f7f".into()))]);
}

#[test]
fn scan_binary_span_includes_prefix() {
    let toks = scan("0b01010101").unwrap();
    assert_eq!(toks, vec![(Span::new(0, 10), Lexeme::Binary("0b01010101".into()))]);
}

#[test]
fn scan_octal_literal() {
    let toks = scan("0o755").unwrap();
    assert_eq!(toks, vec![(Span::new(0, 5), Lexeme::Octal("0o755".into()))]);
}

#[test]
fn scan_bare_hex_prefix() {
    let toks = scan("0x").unwrap();
    assert_eq!(toks, vec![(Span::new(0, 2), Lexeme::Hex("0x".into()))]);
}

#[test]
fn scan_integer_and_float() {
    let toks = scan("420 3.14").unwrap();
    assert_eq!(
        toks,
        vec![
            (Span::new(0, 3), Lexeme::Integer("420".into())),
            (Span::new(3, 1), Lexeme::Whitespace),
            (Span::new(4, 4), Lexeme::Float("3.14".into())),
        ]
    );
}

#[test]
fn scan_dot_is_float_separator_only() {
    // a dot not followed by a digit stays its own token
    let toks = scan("5.").unwrap();
    assert_eq!(
        toks,
        vec![
            (Span::new(0, 1), Lexeme::Integer("5".into())),
            (Span::new(1, 1), Lexeme::Period),
        ]
    );
    // a range between integers never becomes a float
    let toks = scan("1..5").unwrap();
    assert_eq!(
        toks,
        vec![
            (Span::new(0, 1), Lexeme::Integer("1".into())),
            (Span::new(1, 2), Lexeme::Range),
            (Span::new(3, 1), Lexeme::Integer("5".into())),
        ]
    );
}

#[test]
fn scan_bool_literals_before_keywords() {
    let toks = scan("true false truex").unwrap();
    assert_eq!(toks[0], (Span::new(0, 4), Lexeme::Bool(true)));
    assert_eq!(toks[2], (Span::new(5, 5), Lexeme::Bool(false)));
    assert_eq!(toks[4], (Span::new(11, 5), Lexeme::Label("truex".into())));
}

#[test]
fn scan_whitespace_and_newline_runs() {
    let toks = scan("  \t\r\n\n").unwrap();
    assert_eq!(
        toks,
        vec![(Span::new(0, 3), Lexeme::Whitespace), (Span::new(3, 3), Lexeme::Newline)]
    );
}

#[test]
fn scan_line_and_doc_comments() {
    let toks = scan("// hi\n/// doc").unwrap();
    assert_eq!(
        toks,
        vec![
            (Span::new(0, 5), Lexeme::InlineComment("// hi".into())),
            (Span::new(5, 1), Lexeme::Newline),
            (Span::new(6, 7), Lexeme::DocComment("/// doc".into())),
        ]
    );
}

#[test]
fn scan_block_comment_to_first_close() {
    let toks = scan("//* a *//*").unwrap();
    // the comment closes at the first `*/`; what follows is scanned anew
    assert_eq!(toks[0], (Span::new(0, 8), Lexeme::BlockComment("//* a */".into())));
    assert_eq!(toks[1], (Span::new(8, 1), Lexeme::Slash));
    assert_eq!(toks[2], (Span::new(9, 1), Lexeme::Asterisk));
}

#[test]
fn scan_shortest_block_comment() {
    let toks = scan("//*/").unwrap();
    assert_eq!(toks, vec![(Span::new(0, 4), Lexeme::BlockComment("//*/".into()))]);
}

#[test]
fn scan_string_literal_with_quotes() {
    let toks = scan("\"banana\" x").unwrap();
    assert_eq!(toks[0], (Span::new(0, 8), Lexeme::Str("\"banana\"".into())));
    assert_eq!(toks[2], (Span::new(9, 1), Lexeme::Label("x".into())));
}

#[test]
fn scan_char_literal_with_quotes() {
    let toks = scan("'!'").unwrap();
    assert_eq!(toks, vec![(Span::new(0, 3), Lexeme::Char("'!'".into()))]);
}

#[test]
fn scan_unterminated_string_is_dangling() {
    let e = scan("\"abc").unwrap_err();
    assert_eq!(e, LexicalError::new(LexicalErrorKind::DanglingLexeme, Span::new(0, 4)));
}

#[test]
fn scan_unterminated_char_is_dangling() {
    let e = scan("'a").unwrap_err();
    assert_eq!(e, LexicalError::new(LexicalErrorKind::DanglingLexeme, Span::new(0, 2)));
}

#[test]
fn scan_invalid_character() {
    let e = scan("é").unwrap_err();
    assert_eq!(e, LexicalError::new(LexicalErrorKind::InvalidLexeme, Span::new(0, 1)));
}

#[test]
fn scan_maximal_munch_operators() {
    let toks = scan("<<<= >>= ..= ... .. ++ -- && || != ==").unwrap();
    let ops: Vec<&Lexeme> = toks.iter().map(|(_, l)| l).filter(|l| **l != Lexeme::Whitespace).collect();
    assert_eq!(
        ops,
        vec![
            &Lexeme::RotateLeft,
            &Lexeme::Equal,
            &Lexeme::ShiftRightEqual,
            &Lexeme::RangeInclusive,
            &Lexeme::Ellipsis,
            &Lexeme::Range,
            &Lexeme::Increment,
            &Lexeme::Decrement,
            &Lexeme::AndAnd,
            &Lexeme::OrOr,
            &Lexeme::NotEqual,
            &Lexeme::EqualEqual,
        ]
    );
}

#[test]
fn scan_compound_assignment_operators() {
    let toks = scan("+= -= *= /= %= &= |= ^= <<= >>=").unwrap();
    let ops: Vec<&Lexeme> = toks.iter().map(|(_, l)| l).filter(|l| **l != Lexeme::Whitespace).collect();
    assert_eq!(
        ops,
        vec![
            &Lexeme::PlusEqual,
            &Lexeme::MinusEqual,
            &Lexeme::AsteriskEqual,
            &Lexeme::SlashEqual,
            &Lexeme::PercentEqual,
            &Lexeme::AmpersandEqual,
            &Lexeme::PipeEqual,
            &Lexeme::CaretEqual,
            &Lexeme::ShiftLeftEqual,
            &Lexeme::ShiftRightEqual,
        ]
    );
}

#[test]
fn coverage_concatenated_slices_rebuild_source() {
    let text = "pub fn main() {\n    // greet\n    let s = \"hi\";\n    s + 1.5 ..= 0x7f\n}\n";
    let tk = Tokenizer::new(text);
    let toks = scan(text).unwrap();
    let mut rebuilt = String::new();
    for (span, lex) in &toks {
        let slice = tk.get_span(span).unwrap();
        // a token that carries text carries exactly its slice
        if let Some(t) = lex.text() {
            assert_eq!(t, slice);
        }
        rebuilt.push_str(&slice);
    }
    assert_eq!(rebuilt, text);
}

#[test]
fn coverage_counts_characters_not_bytes() {
    let text = "\"héllo\" x";
    let tk = Tokenizer::new(text);
    let toks = scan(text).unwrap();
    assert_eq!(toks[0], (Span::new(0, 7), Lexeme::Str("\"héllo\"".into())));
    let mut rebuilt = String::new();
    for (span, _) in &toks {
        rebuilt.push_str(&tk.get_span(span).unwrap());
    }
    assert_eq!(rebuilt, text);
}

#[test]
fn get_span_out_of_bounds_is_missing() {
    let tk = Tokenizer::new("abc");
    assert_eq!(tk.get_span(&Span::new(1, 3)), Err(LexicalErrorKind::MissingLexeme));
    assert_eq!(tk.get_span(&Span::new(1, 2)).unwrap(), "bc");
}

#[test]
fn tokenizer_restarts_from_any_offset() {
    let mut tk = Tokenizer::new("ab cd");
    assert_eq!(tk.next().unwrap().unwrap().1, Lexeme::Label("ab".into()));
    tk.jump(3);
    assert_eq!(tk.next().unwrap().unwrap().1, Lexeme::Label("cd".into()));
    tk.jump(0);
    assert_eq!(tk.next().unwrap().unwrap().1, Lexeme::Label("ab".into()));
}

#[test]
fn dangling_error_is_the_only_event() {
    let mut tk = Tokenizer::new("//*");
    assert!(matches!(tk.next(), Some(Err(_))));
    assert!(tk.next().is_none());
    assert!(tk.next().is_none());
}

#[test]
fn unterminated_string_error_ends_the_stream() {
    let mut tk = Tokenizer::new("x \"abc");
    assert_eq!(tk.next().unwrap().unwrap().1, Lexeme::Label("x".into()));
    assert_eq!(tk.next().unwrap().unwrap().1, Lexeme::Whitespace);
    let e = tk.next().unwrap().unwrap_err();
    assert_eq!(e, LexicalError::new(LexicalErrorKind::DanglingLexeme, Span::new(2, 4)));
    assert!(tk.next().is_none());
}

#[test]
fn invalid_character_is_consumed_with_its_error() {
    let mut tk = Tokenizer::new("é ok");
    let e = tk.next().unwrap().unwrap_err();
    assert_eq!(e, LexicalError::new(LexicalErrorKind::InvalidLexeme, Span::new(0, 1)));
    assert_eq!(tk.next().unwrap().unwrap().1, Lexeme::Whitespace);
    assert_eq!(tk.next().unwrap().unwrap().1, Lexeme::Label("ok".into()));
    assert!(tk.next().is_none());
}

#[test]
fn str_to_keyword_closed_table() {
    assert_eq!(str_to_keyword("pub"), Some(Lexeme::Pub));
    assert_eq!(str_to_keyword("const"), Some(Lexeme::Const));
    assert_eq!(str_to_keyword("banana"), None);
    assert_eq!(str_to_keyword("true"), None);
}

#[test]
fn lexeme_text_of_fixed_tokens() {
    assert_eq!(Lexeme::Ellipsis.text().unwrap(), "...");
    assert_eq!(Lexeme::Pub.text().unwrap(), "pub");
    assert_eq!(Lexeme::Bool(true).text().unwrap(), "true");
    assert_eq!(Lexeme::Bool(false).text().unwrap(), "false");
    assert_eq!(Lexeme::Label("abc".to_string()).text().unwrap(), "abc");
    assert_eq!(Lexeme::Whitespace.text(), None);
    assert_eq!(Lexeme::Newline.text(), None);
}

#[test]
fn span_helpers() {
    let sp = Span::new(3, 4);
    let r = sp.as_range();
    assert_eq!(r.start, 3);
    assert_eq!(r.end, 7);
    let e = LexicalError::new(LexicalErrorKind::InvalidLexeme, sp);
    assert_eq!(e.kind, LexicalErrorKind::InvalidLexeme);
    assert_eq!(e.span, sp);
}
