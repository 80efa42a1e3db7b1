use cddl::lexer::{LexError, LexErrorKind, Lexer};
use cddl::token::{ByteValue, Token, TokenKind, Value};

fn tokens(input: &str) -> (Vec<Token>, Option<LexError>) {
    let mut l = Lexer::new(input);
    let mut out = Vec::new();
    loop {
        match l.next_token() {
            Ok(Token::EOF) => return (out, None),
            Ok(t) => out.push(t),
            Err(e) => return (out, Some(e)),
        }
    }
}

fn kinds(input: &str) -> Vec<TokenKind> {
    let (tokens, failure) = tokens(input);
    assert_eq!(failure, None);
    tokens.iter().map(|t| t.kind()).collect()
}

fn ident(name: &str) -> Token {
    Token::IDENT(name.to_string())
}

#[test]
fn a_rule_is_three_tokens() {
    assert_eq!(
        tokens("myrule = myotherrule"),
        (vec![ident("myrule"), Token::ASSIGN, ident("myotherrule")], None)
    );
}

#[test]
fn blanks_and_comments_separate_tokens() {
    assert_eq!(
        tokens("a ; the first\n\t= b;done"),
        (vec![ident("a"), Token::ASSIGN, ident("b")], None)
    );
    assert_eq!(tokens(""), (vec![], None));
    assert_eq!(tokens(" \r\n ; nothing"), (vec![], None));
}

#[test]
fn the_longest_token_wins() {
    assert_eq!(
        kinds("= => / // /= //= ///"),
        vec![
            TokenKind::ASSIGN,
            TokenKind::ARROWMAP,
            TokenKind::TCHOICE,
            TokenKind::GCHOICE,
            TokenKind::TCHOICEALT,
            TokenKind::GCHOICEALT,
            TokenKind::GCHOICE,
            TokenKind::TCHOICE,
        ]
    );
}

#[test]
fn each_sign_is_a_token() {
    assert_eq!(
        kinds("<>(){}[],:?*+~&^"),
        vec![
            TokenKind::LANGLEBRACKET,
            TokenKind::RANGLEBRACKET,
            TokenKind::LPAREN,
            TokenKind::RPAREN,
            TokenKind::LBRACE,
            TokenKind::RBRACE,
            TokenKind::LBRACKET,
            TokenKind::RBRACKET,
            TokenKind::COMMA,
            TokenKind::COLON,
            TokenKind::OPTIONAL,
            TokenKind::ASTERISK,
            TokenKind::ONEORMORE,
            TokenKind::UNWRAP,
            TokenKind::GTOCHOICE,
            TokenKind::CUT,
        ]
    );
}

#[test]
fn names_may_hold_digits_dashes_and_dots() {
    assert_eq!(
        tokens("my-rule_2 $sock @x a.b h b6 b64"),
        (
            vec![
                ident("my-rule_2"),
                ident("$sock"),
                ident("@x"),
                ident("a.b"),
                ident("h"),
                ident("b6"),
                ident("b64")
            ],
            None
        )
    );
}

#[test]
fn numbers_are_read_by_their_shape() {
    let value = |text: &str| match tokens(text) {
        (ts, None) if ts.len() == 1 => match &ts[0] {
            Token::VALUE(v) => v.clone(),
            other => panic!("not a value: {:?}", other),
        },
        other => panic!("not one token: {:?}", other),
    };
    assert_eq!(value("0"), Value::UINT(0));
    assert_eq!(value("007"), Value::UINT(7));
    assert_eq!(value("18446744073709551615"), Value::UINT(u64::MAX));
    assert_eq!(value("-1"), Value::INT(-1));
    assert_eq!(value("-0"), Value::INT(0));
    assert_eq!(value("-9223372036854775808"), Value::INT(i64::MIN));
    assert_eq!(value("1.5"), Value::FLOAT("1.5".to_string()));
    assert_eq!(value("-1.5e-3"), Value::FLOAT("-1.5e-3".to_string()));
    assert_eq!(value("2E+10"), Value::FLOAT("2E+10".to_string()));
    assert_eq!(value("3e7"), Value::FLOAT("3e7".to_string()));
}

#[test]
fn a_point_or_an_exponent_needs_a_digit() {
    let one = Token::VALUE(Value::UINT(1));
    assert_eq!(
        tokens("1.x"),
        (
            vec![one.clone()],
            Some(LexError { position: 1, kind: LexErrorKind::UnexpectedCharacter })
        )
    );
    assert_eq!(tokens("1e"), (vec![one.clone(), ident("e")], None));
    assert_eq!(tokens("1e+"), (vec![one, ident("e"), Token::ONEORMORE], None));
}

#[test]
fn integers_have_to_fit_in_64_bits() {
    let too_large = |text: &str| {
        assert_eq!(
            tokens(text),
            (vec![], Some(LexError { position: 0, kind: LexErrorKind::NumberTooLarge }))
        );
    };
    too_large("18446744073709551616");
    too_large("99999999999999999999999999");
    too_large("-9223372036854775809");
    too_large("-18446744073709551616");
}

#[test]
fn a_range_is_one_token() {
    assert_eq!(
        tokens("1..5"),
        (
            vec![Token::RANGE {
                lower: Value::UINT(1),
                upper: Value::UINT(5),
                is_inclusive: true
            }],
            None
        )
    );
    assert_eq!(
        tokens("-1.5...2e3 x"),
        (
            vec![
                Token::RANGE {
                    lower: Value::FLOAT("-1.5".to_string()),
                    upper: Value::FLOAT("2e3".to_string()),
                    is_inclusive: false
                },
                ident("x")
            ],
            None
        )
    );
    assert_eq!(
        tokens("a = 1..x"),
        (
            vec![ident("a"), Token::ASSIGN],
            Some(LexError { position: 4, kind: LexErrorKind::MalformedRange })
        )
    );
    assert_eq!(
        tokens("1..99999999999999999999"),
        (vec![], Some(LexError { position: 0, kind: LexErrorKind::NumberTooLarge }))
    );
}

#[test]
fn strings_end_at_the_quote_that_no_backslash_hides() {
    assert_eq!(
        tokens(r#""reboot" "say \"hi\"" """#),
        (
            vec![
                Token::VALUE(Value::TEXT("reboot".to_string())),
                Token::VALUE(Value::TEXT(r#"say \"hi\""#.to_string())),
                Token::VALUE(Value::TEXT(String::new())),
            ],
            None
        )
    );
    assert_eq!(
        tokens("\"caf\u{e9} \u{1f600}\" x"),
        (vec![Token::VALUE(Value::TEXT("caf\u{e9} \u{1f600}".to_string())), ident("x")], None)
    );
}

#[test]
fn byte_strings_keep_their_encoding() {
    assert_eq!(
        tokens("'raw' h'6279' b64'Ynl0ZXM'"),
        (
            vec![
                Token::VALUE(Value::BYTE(ByteValue::UTF8(b"raw".to_vec()))),
                Token::VALUE(Value::BYTE(ByteValue::B16(b"6279".to_vec()))),
                Token::VALUE(Value::BYTE(ByteValue::B64(b"Ynl0ZXM".to_vec()))),
            ],
            None
        )
    );
}

#[test]
fn each_failure_has_its_kind_and_its_place() {
    let fails = |text: &str, position: usize, kind: LexErrorKind| {
        assert_eq!(tokens(text).1, Some(LexError { position, kind }));
    };
    fails("a = %", 4, LexErrorKind::UnexpectedCharacter);
    fails("a = \"open", 4, LexErrorKind::UnterminatedString);
    fails("\"open\\", 0, LexErrorKind::UnterminatedString);
    fails("  'open", 2, LexErrorKind::UnterminatedString);
    fails("h'\u{e9}'", 0, LexErrorKind::NonAsciiByte);
    fails("- 1", 0, LexErrorKind::MalformedNumber);
    fails("1..", 0, LexErrorKind::MalformedRange);
    fails("12345678901234567890123", 0, LexErrorKind::NumberTooLarge);
}

#[test]
fn a_lexer_that_failed_fails_at_every_call() {
    let mut l = Lexer::new("a %");
    assert_eq!(l.next_token(), Ok(ident("a")));
    let failure = Err(LexError { position: 2, kind: LexErrorKind::UnexpectedCharacter });
    assert_eq!(l.next_token(), failure);
    assert_eq!(l.next_token(), failure);
}

#[test]
fn a_lexer_at_the_end_hands_out_eof_for_ever() {
    let mut l = Lexer::new("a");
    assert_eq!(l.next_token(), Ok(ident("a")));
    assert_eq!(l.next_token(), Ok(Token::EOF));
    assert_eq!(l.next_token(), Ok(Token::EOF));
}

#[test]
fn given_tokens_end_at_the_first_eof() {
    let mut l = Lexer::from_tokens(vec![ident("a"), Token::EOF, ident("b")]);
    assert_eq!(l.next_token(), Ok(ident("a")));
    assert_eq!(l.next_token(), Ok(Token::EOF));
    assert_eq!(l.next_token(), Ok(Token::EOF));
    let mut l = Lexer::from_tokens(vec![Token::COMMA, Token::COLON]);
    assert_eq!(l.next_token(), Ok(Token::COMMA));
    assert_eq!(l.next_token(), Ok(Token::COLON));
    assert_eq!(l.next_token(), Ok(Token::EOF));
}

#[test]
fn a_copy_of_a_token_is_equal_to_it() {
    let all = [
        ident("a"),
        Token::VALUE(Value::INT(-1)),
        Token::VALUE(Value::UINT(1)),
        Token::VALUE(Value::FLOAT("1.0".to_string())),
        Token::VALUE(Value::TEXT("1".to_string())),
        Token::VALUE(Value::BYTE(ByteValue::UTF8(vec![1]))),
        Token::VALUE(Value::BYTE(ByteValue::B16(vec![1]))),
        Token::VALUE(Value::BYTE(ByteValue::B64(vec![1]))),
        Token::RANGE { lower: Value::UINT(1), upper: Value::UINT(2), is_inclusive: true },
        Token::EOF,
    ];
    for (i, a) in all.iter().enumerate() {
        assert_eq!(a.clone(), *a);
        for (j, b) in all.iter().enumerate() {
            assert_eq!(a == b, i == j);
        }
    }
    assert!(
        Token::RANGE { lower: Value::UINT(1), upper: Value::UINT(2), is_inclusive: true }
            != Token::RANGE { lower: Value::UINT(1), upper: Value::UINT(2), is_inclusive: false }
    );
}
