use cddl::ast::{
    Assignment, Group, GroupChoice, GroupEntry, Identifier, MemberKey, Occur, Occurrence, Rule,
    Type, Type1, Type2, TypeChoice, TypeGroupnameEntry, ValueMemberKeyEntry, CDDL,
};
use cddl::lexer::Lexer;
use cddl::grammar::ParseError;
use cddl::parser::{cddl_from_str, parse, Parser};
use cddl::token::{Token, TokenKind, Value};

fn check_parser_errors(p: &Parser) -> Result<(), String> {
    if p.errors().len() == 0 {
        return Ok(());
    }
    for err in p.errors().iter() {
        println!("parser error: {:?}", err);
    }
    Err("Parser has errors".into())
}

fn parser_for(input: &str) -> Result<Parser, String> {
    Parser::new(Lexer::new(input)).map_err(|e| format!("{:?}", e))
}

fn test_rule(r: &Rule, name: &str) -> bool {
    match r {
        Rule::Type { rule: tr } => {
            if tr.name.ident != name {
                println!("rule.name.value not '{}'. got={}", name, tr.name.ident);
                return false;
            }
            if format!("{:?}", Token::IDENT(tr.name.ident.clone()))
                != format!("{:?}", Token::IDENT(name.into()))
            {
                println!("rule.value not '{}'. got={}", name, tr.name.ident);
                return false;
            }
            true
        }
        _ => false,
    }
}

/// A basic type as it is written, for the two forms that these tests read.
fn type2_text(t2: &Type2) -> String {
    match t2 {
        Type2::TextValue { value } => format!("\"{}\"", value),
        Type2::Typename { ident, generic_args: None } => ident.ident.clone(),
        other => panic!("no text for {:?}", other),
    }
}

fn type1_text(t1: &Type1) -> String {
    assert!(t1.operator.is_none());
    type2_text(&t1.type2)
}

#[test]
fn verify_rule() -> Result<(), String> {
    let input = r#"myrule = myotherrule

secondrule = thirdrule"#;

    let mut p = parser_for(input)?;

    let cddl = p.parse_cddl().map_err(|e| format!("{:?}", e))?;
    check_parser_errors(&p)?;

    if cddl.rules.len() != 2 {
        println!("cddl.rules does not contain 2 statements. got='{}'", cddl.rules.len());
    }
    assert_eq!(cddl.rules.len(), 2);

    let expected_identifiers = ["myrule", "secondrule"];

    for (idx, expected_identifier) in expected_identifiers.iter().enumerate() {
        let rule = &cddl.rules[idx];
        assert!(test_rule(rule, expected_identifier));
    }

    Ok(())
}

#[test]
fn verify_type() -> Result<(), String> {
    let input = r#"tchoice1 / tchoice2"#;

    let mut p = parser_for(input)?;

    let t = p.parse_type().map_err(|e| format!("{:?}", e))?;
    check_parser_errors(&p)?;

    if t.type_choices.len() != 2 {
        println!("type.0 does not contain 2 type choices. got='{}'", t.type_choices.len());
    }
    assert_eq!(t.type_choices.len(), 2);

    let expected_t1_identifiers = ["tchoice1", "tchoice2"];

    for (idx, expected_t1_identifier) in expected_t1_identifiers.iter().enumerate() {
        let t_choice = &t.type_choices[idx];
        assert_eq!(type2_text(&t_choice.type1.type2), *expected_t1_identifier);
    }

    Ok(())
}

#[test]
fn verify_genericparm() -> Result<(), String> {
    let input = r#"<t, v>"#;

    let mut p = parser_for(input)?;

    let gps = p.parse_genericparm().map_err(|e| format!("{:?}", e))?;
    check_parser_errors(&p)?;

    if gps.params.len() != 2 {
        println!(
            "GenericParm does not contain 2 generic parameters. got='{}'",
            gps.params.len()
        );
    }
    assert_eq!(gps.params.len(), 2);

    let expected_generic_params = ["t", "v"];

    for (idx, expected_generic_param) in expected_generic_params.iter().enumerate() {
        let gp = &gps.params[idx];
        assert_eq!(gp.param.ident, *expected_generic_param);
    }

    Ok(())
}

#[test]
fn verify_genericarg() -> Result<(), String> {
    let input = r#"<"reboot", "now">"#;

    let mut p = parser_for(input)?;

    let generic_args = p.parse_genericarg().map_err(|e| format!("{:?}", e))?;
    check_parser_errors(&p)?;

    if generic_args.args.len() != 2 {
        println!(
            "generic_args does not contain 2 generic args. got='{}'",
            generic_args.args.len()
        );
    }
    assert_eq!(generic_args.args.len(), 2);

    let expected_generic_args = ["\"reboot\"", "\"now\""];

    for (idx, expected_generic_arg) in expected_generic_args.iter().enumerate() {
        let ga = &generic_args.args[idx];
        assert_eq!(type1_text(&ga.arg), *expected_generic_arg);
    }

    Ok(())
}

fn single_type_rule(cddl: &CDDL) -> &cddl::ast::TypeRule {
    assert_eq!(cddl.rules.len(), 1);
    match &cddl.rules[0] {
        Rule::Type { rule } => rule,
        other => panic!("not a type rule: {:?}", other),
    }
}

#[test]
fn a_rule_binds_a_name_to_a_typename() {
    let cddl = cddl_from_str("a = b").unwrap();
    let rule = single_type_rule(&cddl);
    assert_eq!(rule.name.ident, "a");
    assert_eq!(rule.name.position, 0);
    assert!(rule.generic_params.is_none());
    assert_eq!(rule.assign, Assignment::Define);
    assert_eq!(rule.value.type_choices.len(), 1);
    let t1 = &rule.value.type_choices[0].type1;
    assert!(t1.operator.is_none());
    match &t1.type2 {
        Type2::Typename { ident, generic_args } => {
            assert_eq!(ident.ident, "b");
            assert_eq!(ident.position, 2);
            assert!(generic_args.is_none());
        }
        other => panic!("not a typename: {:?}", other),
    }
}

#[test]
fn many_rules_come_out_in_source_order() {
    let names = ["one", "two", "three", "four", "five"];
    let mut text = String::new();
    for name in names.iter() {
        text.push_str(&format!("{} = some-type / \"text\"\n\n", name));
    }
    let cddl = cddl_from_str(&text).unwrap();
    assert_eq!(cddl.rules.len(), names.len());
    for (rule, name) in cddl.rules.iter().zip(names.iter()) {
        assert!(test_rule(rule, name));
    }
}

#[test]
fn no_rules_make_an_empty_schema() {
    assert_eq!(cddl_from_str("").unwrap().rules.len(), 0);
    assert_eq!(cddl_from_str("  ; only a comment\n").unwrap().rules.len(), 0);
}

#[test]
fn each_assignment_token_is_recorded() {
    let cddl = cddl_from_str("a = b\na /= c\na //= d").unwrap();
    let flags: Vec<Assignment> = cddl
        .rules
        .iter()
        .map(|r| match r {
            Rule::Type { rule } => rule.assign,
            Rule::Group { rule } => rule.assign,
        })
        .collect();
    assert_eq!(
        flags,
        vec![
            Assignment::Define,
            Assignment::TypeChoiceAlternate,
            Assignment::GroupChoiceAlternate
        ]
    );
}

#[test]
fn a_rule_may_have_generic_parameters() {
    let cddl = cddl_from_str("message<t, v> = t / v").unwrap();
    let rule = single_type_rule(&cddl);
    let params = rule.generic_params.as_ref().unwrap();
    let names: Vec<&str> = params.params.iter().map(|p| p.param.ident.as_str()).collect();
    assert_eq!(names, vec!["t", "v"]);
    let places: Vec<usize> = params.params.iter().map(|p| p.param.position).collect();
    assert_eq!(places, vec![2, 4]);
    assert_eq!(rule.value.type_choices.len(), 2);
}

#[test]
fn a_typename_may_have_generic_arguments() {
    let cddl = cddl_from_str(r#"a = message<"reboot", inner<1>>"#).unwrap();
    let rule = single_type_rule(&cddl);
    match &rule.value.type_choices[0].type1.type2 {
        Type2::Typename { ident, generic_args: Some(args) } => {
            assert_eq!(ident.ident, "message");
            assert_eq!(args.args.len(), 2);
            assert_eq!(type1_text(&args.args[0].arg), "\"reboot\"");
            match &args.args[1].arg.type2 {
                Type2::Typename { ident, generic_args: Some(inner) } => {
                    assert_eq!(ident.ident, "inner");
                    assert_eq!(inner.args.len(), 1);
                    assert_eq!(inner.args[0].arg.type2, Type2::UintValue { value: 1 });
                }
                other => panic!("not a typename with arguments: {:?}", other),
            }
        }
        other => panic!("not a typename with arguments: {:?}", other),
    }
}

#[test]
fn a_range_token_becomes_a_range_operator() {
    let cddl = cddl_from_str("a = 1..5 / -3...3").unwrap();
    let rule = single_type_rule(&cddl);
    assert_eq!(rule.value.type_choices.len(), 2);
    let first = &rule.value.type_choices[0].type1;
    assert_eq!(first.type2, Type2::UintValue { value: 1 });
    let op = first.operator.as_ref().unwrap();
    assert_eq!(op.operator, cddl::ast::RangeCtlOp::RangeOp { is_inclusive: true });
    assert_eq!(op.type2, Type2::UintValue { value: 5 });
    let second = &rule.value.type_choices[1].type1;
    assert_eq!(second.type2, Type2::IntValue { value: -3 });
    let op = second.operator.as_ref().unwrap();
    assert_eq!(op.operator, cddl::ast::RangeCtlOp::RangeOp { is_inclusive: false });
    assert_eq!(op.type2, Type2::UintValue { value: 3 });
}

#[test]
fn every_kind_of_literal_is_a_basic_type() {
    let cases: Vec<(&str, Type2)> = vec![
        ("7", Type2::UintValue { value: 7 }),
        ("-7", Type2::IntValue { value: -7 }),
        ("1.5e3", Type2::FloatValue { value: "1.5e3".to_string() }),
        ("\"text\"", Type2::TextValue { value: "text".to_string() }),
        ("'bytes'", Type2::UTF8ByteString { value: b"bytes".to_vec() }),
        ("h'6279'", Type2::B16ByteString { value: b"6279".to_vec() }),
        ("b64'Ynl0'", Type2::B64ByteString { value: b"Ynl0".to_vec() }),
    ];
    for (text, expected) in cases {
        let mut p = parser_for(text).unwrap();
        assert_eq!(p.parse_type2().unwrap(), expected);
    }
}

#[test]
fn a_text_literal_keeps_its_payload_as_written() {
    let mut p = parser_for(r#""say \"hi\"""#).unwrap();
    assert_eq!(
        p.parse_type2().unwrap(),
        Type2::TextValue { value: r#"say \"hi\""#.to_string() }
    );
}

#[test]
fn a_rule_must_start_with_a_name() {
    assert_eq!(
        cddl_from_str("= b").unwrap_err(),
        vec![ParseError::UnexpectedToken {
            position: 0,
            expected: TokenKind::IDENT,
            found: TokenKind::ASSIGN
        }]
    );
}

#[test]
fn a_missing_assignment_is_noted_and_reported() {
    assert_eq!(
        cddl_from_str("a b").unwrap_err(),
        vec![
            ParseError::UnexpectedToken {
                position: 1,
                expected: TokenKind::GCHOICEALT,
                found: TokenKind::IDENT
            },
            ParseError::ExpectedAssignment { position: 1, found: TokenKind::IDENT },
        ]
    );
    assert_eq!(
        cddl_from_str("a<t> b").unwrap_err(),
        vec![ParseError::ExpectedAssignment { position: 4, found: TokenKind::IDENT }]
    );
}

#[test]
fn errors_of_earlier_rules_do_not_linger() {
    assert_eq!(
        cddl_from_str("a = b\nc d").unwrap_err(),
        vec![
            ParseError::UnexpectedToken {
                position: 4,
                expected: TokenKind::GCHOICEALT,
                found: TokenKind::IDENT
            },
            ParseError::ExpectedAssignment { position: 4, found: TokenKind::IDENT },
        ]
    );
}

#[test]
fn a_group_rule_is_refused_as_unimplemented() {
    assert_eq!(
        cddl_from_str("a = ( * tstr )").unwrap_err(),
        vec![ParseError::Unimplemented { position: 2 }]
    );
}

#[test]
fn generic_parameters_are_names_between_commas() {
    let illegal = |text: &str, position: usize, found: TokenKind| {
        let mut p = parser_for(text).unwrap();
        assert_eq!(
            p.parse_genericparm().unwrap_err(),
            ParseError::IllegalToken { position, found }
        );
    };
    illegal("<>", 1, TokenKind::RANGLEBRACKET);
    illegal("<t v>", 2, TokenKind::IDENT);
    illegal("<t,>", 3, TokenKind::RANGLEBRACKET);
    illegal("<t, 1>", 3, TokenKind::VALUE);
    illegal("<t", 2, TokenKind::EOF);
    let mut p = parser_for("t>").unwrap();
    assert_eq!(
        p.parse_genericparm().unwrap_err(),
        ParseError::UnexpectedToken {
            position: 0,
            expected: TokenKind::LANGLEBRACKET,
            found: TokenKind::IDENT
        }
    );
}

#[test]
fn generic_arguments_are_types_between_commas() {
    let mut p = parser_for("<a b>").unwrap();
    assert_eq!(
        p.parse_genericarg().unwrap_err(),
        ParseError::IllegalToken { position: 2, found: TokenKind::IDENT }
    );
    let mut p = parser_for("<>").unwrap();
    assert_eq!(
        p.parse_genericarg().unwrap_err(),
        ParseError::UnrecognizedType2 { position: 1, found: TokenKind::RANGLEBRACKET }
    );
}

#[test]
fn what_starts_no_basic_type_is_unrecognized() {
    let mut p = parser_for(": a").unwrap();
    assert_eq!(
        p.parse_type2().unwrap_err(),
        ParseError::UnrecognizedType2 { position: 0, found: TokenKind::COLON }
    );
    assert_eq!(
        cddl_from_str("a = b /").unwrap_err(),
        vec![ParseError::UnrecognizedType2 { position: 4, found: TokenKind::EOF }]
    );
}

#[test]
fn a_failure_of_the_lexer_ends_the_parse() {
    let errors = cddl_from_str("a = b / \"open").unwrap_err();
    assert_eq!(errors.len(), 1);
    match errors[0] {
        ParseError::Lex { error } => {
            assert_eq!(error.position, 8);
            assert_eq!(error.kind, cddl::lexer::LexErrorKind::UnterminatedString);
        }
        other => panic!("not a lexer failure: {:?}", other),
    }
    // With fewer than two tokens in front of the failure no parser can be made.
    assert!(Parser::new(Lexer::new("a %")).is_err());
    assert!(Parser::new(Lexer::new("a = %")).is_ok());
}

#[test]
fn tokens_can_be_parsed_without_a_text() {
    let tokens = vec![
        Token::IDENT("a".to_string()),
        Token::ASSIGN,
        Token::VALUE(Value::UINT(1)),
        Token::EOF,
        Token::IDENT("ignored".to_string()),
    ];
    let cddl = parse(Lexer::from_tokens(tokens)).unwrap();
    let rule = single_type_rule(&cddl);
    assert_eq!(rule.name.ident, "a");
    assert_eq!(rule.value.type_choices[0].type1.type2, Type2::UintValue { value: 1 });
}

#[test]
fn the_parser_moves_token_by_token() {
    let mut p = parser_for("a = b").unwrap();
    assert!(p.cur_token_is(Token::IDENT(String::new())));
    assert!(p.peek_token_is(&Token::ASSIGN));
    assert_eq!(p.expect_peek(&Token::COMMA), Ok(false));
    assert_eq!(
        p.errors(),
        &vec![ParseError::UnexpectedToken {
            position: 1,
            expected: TokenKind::COMMA,
            found: TokenKind::ASSIGN
        }]
    );
    assert_eq!(p.expect_peek(&Token::ASSIGN), Ok(true));
    assert!(p.cur_token_is(Token::ASSIGN));
    p.next_token().unwrap();
    p.next_token().unwrap();
    assert!(p.cur_token_is(Token::EOF));
    p.next_token().unwrap();
    assert!(p.cur_token_is(Token::EOF));
    p.peek_error(&Token::IDENT(String::new()));
    assert_eq!(
        p.errors()[1],
        ParseError::UnexpectedToken {
            position: 3,
            expected: TokenKind::IDENT,
            found: TokenKind::EOF
        }
    );
}

fn name(ident: &str, position: usize) -> Identifier {
    Identifier { ident: ident.to_string(), position }
}

fn typename(ident: &str, position: usize) -> Type1 {
    Type1 {
        type2: Type2::Typename { ident: name(ident, position), generic_args: None },
        operator: None,
    }
}

fn one_choice(type1: Type1) -> Type {
    Type { type_choices: vec![TypeChoice { type1 }] }
}

fn uint(value: u64) -> Type1 {
    Type1 { type2: Type2::UintValue { value }, operator: None }
}

fn occurs(occur: Occur) -> Option<Occurrence> {
    Some(Occurrence { occur })
}

fn keyed(occur: Option<Occurrence>, member_key: Option<MemberKey>, entry_type: Type) -> GroupEntry {
    GroupEntry::ValueMemberKey { ge: ValueMemberKeyEntry { occur, member_key, entry_type } }
}

fn named(occur: Option<Occurrence>, ident: &str, position: usize) -> GroupEntry {
    GroupEntry::TypeGroupname {
        ge: TypeGroupnameEntry { occur, name: name(ident, position), generic_args: None },
    }
}

fn group_of(type2: &Type2) -> &Group {
    match type2 {
        Type2::MapType { group }
        | Type2::Array { group }
        | Type2::ChoiceFromInlineGroup { group } => group,
        other => panic!("no group in {:?}", other),
    }
}

fn type2_of(input: &str) -> Type2 {
    let mut p = parser_for(input).unwrap();
    let t2 = p.parse_type2().unwrap();
    assert!(p.cur_token_is(Token::EOF));
    check_parser_errors(&p).unwrap();
    t2
}

#[test]
fn a_map_holds_keys_and_types() {
    let t2 = type2_of("{ name: tstr, ? age: uint, * tstr => any }");
    assert!(matches!(t2, Type2::MapType { .. }));
    let group = group_of(&t2);
    assert_eq!(group.group_choices.len(), 1);
    assert_eq!(
        group.group_choices[0],
        GroupChoice {
            group_entries: vec![
                (
                    keyed(
                        None,
                        Some(MemberKey::Bareword { ident: name("name", 1) }),
                        one_choice(typename("tstr", 3))
                    ),
                    true
                ),
                (
                    keyed(
                        occurs(Occur::Optional),
                        Some(MemberKey::Bareword { ident: name("age", 6) }),
                        one_choice(typename("uint", 8))
                    ),
                    true
                ),
                (
                    keyed(
                        occurs(Occur::ZeroOrMore),
                        Some(MemberKey::Type1 { t1: typename("tstr", 11), is_cut: false }),
                        one_choice(typename("any", 13))
                    ),
                    false
                ),
            ]
        }
    );
}

#[test]
fn an_array_holds_entries_with_or_without_commas() {
    let t2 = type2_of("[ 1*3 int, b 5 ]");
    assert!(matches!(t2, Type2::Array { .. }));
    assert_eq!(
        group_of(&t2).group_choices,
        vec![GroupChoice {
            group_entries: vec![
                (named(occurs(Occur::Exact { lower: Some(1), upper: Some(3) }), "int", 4), true),
                (named(None, "b", 6), false),
                (keyed(None, None, one_choice(uint(5))), false),
            ]
        }]
    );
    assert_eq!(
        group_of(&type2_of("[]")).group_choices,
        vec![GroupChoice { group_entries: vec![] }]
    );
}

#[test]
fn each_occurrence_indicator_is_read() {
    let occurrence = |input: &str| match &group_of(&type2_of(input)).group_choices[0].group_entries
        [0]
        .0
    {
        GroupEntry::TypeGroupname { ge } => ge.occur.as_ref().map(|o| o.occur),
        other => panic!("not a name: {:?}", other),
    };
    assert_eq!(occurrence("[ a ]"), None);
    assert_eq!(occurrence("[ ? a ]"), Some(Occur::Optional));
    assert_eq!(occurrence("[ + a ]"), Some(Occur::OneOrMore));
    assert_eq!(occurrence("[ * a ]"), Some(Occur::ZeroOrMore));
    assert_eq!(occurrence("[ 2* a ]"), Some(Occur::Exact { lower: Some(2), upper: None }));
    assert_eq!(occurrence("[ *5 a ]"), Some(Occur::Exact { lower: None, upper: Some(5) }));
    assert_eq!(
        occurrence("[ 2*5 a ]"),
        Some(Occur::Exact { lower: Some(2), upper: Some(5) })
    );
}

#[test]
fn a_key_is_a_name_a_literal_or_a_type() {
    let key = |input: &str| match &group_of(&type2_of(input)).group_choices[0].group_entries[0].0
    {
        GroupEntry::ValueMemberKey { ge } => {
            let choices = if ge.member_key.is_some() { 1 } else { 2 };
            assert_eq!(ge.entry_type.type_choices.len(), choices);
            ge.member_key.as_ref().map(|k| format!("{:?}", k))
        }
        other => panic!("no key in {:?}", other),
    };
    let shown = |k: MemberKey| Some(format!("{:?}", k));
    assert_eq!(key("{ a: 1 }"), shown(MemberKey::Bareword { ident: name("a", 1) }));
    assert_eq!(
        key("{ \"a\": 1 }"),
        shown(MemberKey::Value { value: Value::TEXT("a".to_string()) })
    );
    assert_eq!(key("{ 7: 1 }"), shown(MemberKey::Value { value: Value::UINT(7) }));
    assert_eq!(key("{ a => 1 }"), shown(MemberKey::Type1 { t1: typename("a", 1), is_cut: false }));
    assert_eq!(key("{ 7 ^ => 1 }"), shown(MemberKey::Type1 { t1: uint(7), is_cut: true }));
    assert_eq!(key("{ 7 / 8 }"), None);
}

#[test]
fn groups_nest_and_have_choices() {
    let t2 = type2_of("{ a: 1 // * ( b, c ) // }");
    let group = group_of(&t2);
    assert_eq!(group.group_choices.len(), 3);
    assert_eq!(group.group_choices[0].group_entries.len(), 1);
    assert_eq!(
        group.group_choices[1].group_entries,
        vec![(
            GroupEntry::InlineGroup {
                occur: occurs(Occur::ZeroOrMore),
                group: Group {
                    group_choices: vec![GroupChoice {
                        group_entries: vec![
                            (named(None, "b", 7), true),
                            (named(None, "c", 9), false)
                        ]
                    }]
                }
            },
            false
        )]
    );
    assert_eq!(group.group_choices[2].group_entries.len(), 0);
}

#[test]
fn the_other_forms_of_a_basic_type() {
    assert_eq!(
        type2_of("( a / 1 )"),
        Type2::ParenthesizedType {
            pt: Type {
                type_choices: vec![
                    TypeChoice { type1: typename("a", 1) },
                    TypeChoice { type1: uint(1) }
                ]
            }
        }
    );
    assert_eq!(
        type2_of("~a"),
        Type2::Unwrap { ident: name("a", 1), generic_args: None }
    );
    assert_eq!(
        type2_of("&g"),
        Type2::ChoiceFromGroup { ident: name("g", 1), generic_args: None }
    );
    match type2_of("&g<1>") {
        Type2::ChoiceFromGroup { ident, generic_args: Some(args) } => {
            assert_eq!(ident, name("g", 1));
            assert_eq!(args.args.len(), 1);
            assert_eq!(args.args[0].arg, uint(1));
        }
        other => panic!("not a choice from a group: {:?}", other),
    }
    let t2 = type2_of("&( a: 1, b: 2 )");
    assert!(matches!(t2, Type2::ChoiceFromInlineGroup { .. }));
    assert_eq!(group_of(&t2).group_choices[0].group_entries.len(), 2);
}

#[test]
fn a_rule_may_bind_a_map() {
    let cddl = cddl_from_str("person = { name: tstr }\nlist = [ * person ]").unwrap();
    assert_eq!(cddl.rules.len(), 2);
    assert!(test_rule(&cddl.rules[0], "person"));
    assert!(test_rule(&cddl.rules[1], "list"));
    match &cddl.rules[1] {
        Rule::Type { rule } => assert_eq!(
            group_of(&rule.value.type_choices[0].type1.type2).group_choices[0].group_entries,
            vec![(named(occurs(Occur::ZeroOrMore), "person", 11), false)]
        ),
        other => panic!("not a type rule: {:?}", other),
    }
}

#[test]
fn brackets_have_to_be_closed() {
    let fails = |input: &str, error: ParseError| {
        let mut p = parser_for(input).unwrap();
        assert_eq!(p.parse_type2().unwrap_err(), error);
    };
    let unexpected = |position, expected, found| ParseError::UnexpectedToken {
        position,
        expected,
        found,
    };
    fails("{ a", unexpected(2, TokenKind::RBRACE, TokenKind::EOF));
    fails("[ a }", unexpected(2, TokenKind::RBRACKET, TokenKind::RBRACE));
    fails("( a ]", unexpected(2, TokenKind::RPAREN, TokenKind::RBRACKET));
    fails("&( a ]", unexpected(3, TokenKind::RPAREN, TokenKind::RBRACKET));
    fails("[ ( a ]", unexpected(3, TokenKind::RPAREN, TokenKind::RBRACKET));
    fails("[ a ^ b ]", unexpected(3, TokenKind::ARROWMAP, TokenKind::IDENT));
    fails("~1", unexpected(1, TokenKind::IDENT, TokenKind::VALUE));
    fails("& 1", unexpected(1, TokenKind::IDENT, TokenKind::VALUE));
    fails(
        "[ * ]",
        ParseError::UnrecognizedType2 { position: 2, found: TokenKind::RBRACKET },
    );
    fails(
        "{ a: }",
        ParseError::UnrecognizedType2 { position: 3, found: TokenKind::RBRACE },
    );
}

#[test]
fn expect_cur_moves_past_the_token_it_finds() {
    let mut p = parser_for("( )").unwrap();
    assert_eq!(p.expect_cur(TokenKind::LPAREN), Ok(()));
    assert_eq!(
        p.expect_cur(TokenKind::LPAREN),
        Err(ParseError::UnexpectedToken {
            position: 1,
            expected: TokenKind::LPAREN,
            found: TokenKind::RPAREN
        })
    );
    assert_eq!(p.expect_cur(TokenKind::RPAREN), Ok(()));
    assert_eq!(p.expect_cur(TokenKind::EOF), Ok(()));
    assert_eq!(p.expect_cur(TokenKind::EOF), Ok(()));
    assert_eq!(p.uint_at_cur(), None);
    let mut p = parser_for("12 a").unwrap();
    assert_eq!(p.uint_at_cur(), Some(12));
    assert_eq!(p.parse_occurrence(), Ok(None));
    assert_eq!(p.uint_at_cur(), Some(12));
}
