use cddl::ast::{
    Assignment, Group, GroupChoice, GroupEntry, GroupRule, Identifier, Occur, Occurrence, Rule,
    Type, Type1, Type2, TypeChoice, TypeGroupnameEntry, TypeRule, CDDL,
};
use cddl::grammar::ParseError;
use cddl::parser::cddl_from_str;
use cddl::validator::parent_visitor::{Error, Parent, ParentVisitor};
use cddl::visitor::CDDLType;

type Result<T> = std::result::Result<T, Error>;

fn name(ident: &str, position: usize) -> Identifier {
    Identifier { ident: ident.to_string(), position }
}

/// The rule `<name> = ( * tstr )`, whose name is the token at `position`.
fn group_rule(ident: &str, position: usize) -> Rule {
    let tstr = TypeGroupnameEntry {
        occur: Some(Occurrence { occur: Occur::ZeroOrMore }),
        name: name("tstr", position + 4),
        generic_args: None,
    };
    let choice =
        GroupChoice { group_entries: vec![(GroupEntry::TypeGroupname { ge: tstr }, false)] };
    Rule::Group {
        rule: GroupRule {
            name: name(ident, position),
            generic_params: None,
            assign: Assignment::Define,
            entry: GroupEntry::InlineGroup {
                occur: None,
                group: Group { group_choices: vec![choice] },
            },
        },
    }
}

/// The schema that `input` holds. The parser reads type rules only: where it
/// refuses the rule `b = ( * tstr )` or `a = ( * tstr )` at the end of the
/// text, the tree of that rule is put in by hand.
fn schema(input: &str) -> CDDL {
    match cddl_from_str(input) {
        Ok(cddl) => cddl,
        Err(errors) => {
            let group = input.trim_end().strip_suffix("= ( * tstr )").unwrap();
            let position = match errors[..] {
                [ParseError::Unimplemented { position }] => position - 2,
                _ => panic!("not a group rule: {:?}", errors),
            };
            let cut = group.trim_end().len() - 1;
            let mut cddl = cddl_from_str(&input[..cut]).unwrap();
            cddl.rules.push(group_rule(&group.trim_end()[cut..], position));
            cddl
        }
    }
}

#[test]
fn rule_parent_is_cddl() -> Result<()> {
    let cddl = schema(r#"a = "myrule""#);
    let pv = ParentVisitor::new(&cddl).unwrap();
    let rule = cddl.rules.first().unwrap();

    assert_eq!(rule.parent(&pv).unwrap(), &cddl);

    Ok(())
}

#[test]
fn type_and_group_rule_parent_is_rule() -> Result<()> {
    let cddl = schema(
        r#"
      a = "myrule"
      b = ( * tstr )
    "#,
    );
    assert_eq!(cddl.rules.len(), 2);
    let pv = ParentVisitor::new(&cddl).unwrap();

    let mut seen = 0;
    if let r @ Rule::Type { rule, .. } = cddl.rules.first().unwrap() {
        assert_eq!(rule.parent(&pv).unwrap(), r);
        seen += 1;
    }

    if let r @ Rule::Group { rule, .. } = cddl.rules.get(1).unwrap() {
        assert_eq!(rule.parent(&pv).unwrap(), r);
        seen += 1;
    }
    assert_eq!(seen, 2);

    Ok(())
}

#[test]
fn type_parent_is_type_rule() -> Result<()> {
    let cddl = schema(r#"a = "myrule""#);
    let pv = ParentVisitor::new(&cddl).unwrap();

    let mut seen = 0;
    if let Rule::Type { rule, .. } = cddl.rules.first().unwrap() {
        let parent: Option<&TypeRule> = rule.value.parent(&pv);
        assert_eq!(parent.unwrap(), rule);
        seen += 1;
    }
    assert_eq!(seen, 1);

    Ok(())
}

#[test]
fn type_choice_parent_is_type() -> Result<()> {
    let cddl = schema(r#"a = "myrule""#);
    let pv = ParentVisitor::new(&cddl).unwrap();

    let mut seen = 0;
    if let Rule::Type { rule, .. } = cddl.rules.first().unwrap() {
        assert_eq!(
            rule.value.type_choices.first().unwrap().parent(&pv).unwrap(),
            &rule.value
        );
        seen += 1;
    }
    assert_eq!(seen, 1);

    Ok(())
}

#[test]
fn type1_parent_is_type_choice() -> Result<()> {
    let cddl = schema(r#"a = "myrule""#);
    let pv = ParentVisitor::new(&cddl).unwrap();

    let mut seen = 0;
    if let Rule::Type { rule, .. } = cddl.rules.first().unwrap() {
        let parent: Option<&TypeChoice> =
            rule.value.type_choices.first().unwrap().type1.parent(&pv);
        assert_eq!(parent.unwrap(), rule.value.type_choices.first().unwrap());
        seen += 1;
    }
    assert_eq!(seen, 1);

    Ok(())
}

#[test]
fn type2_parent_is_type1() -> Result<()> {
    let cddl = schema(r#"a = "myrule""#);
    let pv = ParentVisitor::new(&cddl).unwrap();

    let mut seen = 0;
    if let Rule::Type { rule, .. } = cddl.rules.first().unwrap() {
        let parent: Option<&Type1> =
            rule.value.type_choices.first().unwrap().type1.type2.parent(&pv);
        assert_eq!(parent.unwrap(), &rule.value.type_choices.first().unwrap().type1);
        seen += 1;
    }
    assert_eq!(seen, 1);

    Ok(())
}

#[test]
fn text_value_parent_is_type2() -> Result<()> {
    let cddl = schema(r#"a = "myrule""#);
    let pv = ParentVisitor::new(&cddl).unwrap();

    let mut seen = 0;
    if let Rule::Type { rule, .. } = cddl.rules.first().unwrap() {
        if let t2 @ Type2::TextValue { value, .. } =
            &rule.value.type_choices.first().unwrap().type1.type2
        {
            assert_eq!(value.parent(&pv).unwrap(), t2);
            seen += 1;
        }
    }
    assert_eq!(seen, 1);

    Ok(())
}

#[test]
fn group_entry_parent_is_group_rule() -> Result<()> {
    let cddl = schema(r#"a = ( * tstr )"#);
    let pv = ParentVisitor::new(&cddl).unwrap();

    let mut seen = 0;
    if let Rule::Group { rule, .. } = cddl.rules.first().unwrap() {
        let parent: Option<&GroupRule> = rule.entry.parent(&pv);
        assert_eq!(parent.unwrap(), rule);
        seen += 1;
    }
    assert_eq!(seen, 1);

    Ok(())
}

#[test]
fn the_schema_has_no_parent() {
    let cddl = schema(r#"a = "myrule""#);
    let pv = ParentVisitor::new(&cddl).unwrap();
    assert!(cddl.parent(&pv).is_none());
    assert!(CDDLType::CDDL(&cddl).parent(&pv).is_none());
    assert_eq!(pv.index_of(&CDDLType::CDDL(&cddl)), Some(0));
    assert_eq!(pv.parent_index(0), None);
}

#[test]
fn a_node_that_the_walk_did_not_meet_has_no_parent() {
    let cddl = schema(r#"a = "myrule""#);
    let pv = ParentVisitor::new(&cddl).unwrap();
    let stranger = Type2::TextValue { value: "other".to_string() };
    assert_eq!(pv.index_of(&CDDLType::Type2(&stranger)), None);
    let parent: Option<&Type1> = stranger.parent(&pv);
    assert!(parent.is_none());
    let len = pv.len();
    assert_eq!(pv.index_of(&CDDLType::Type2(&stranger)), None);
    assert_eq!(pv.len(), len);
}

#[test]
fn a_parent_of_another_kind_is_not_returned() {
    let cddl = schema("a = b");
    let pv = ParentVisitor::new(&cddl).unwrap();
    let rule = match &cddl.rules[0] {
        Rule::Type { rule } => rule,
        other => panic!("not a type rule: {:?}", other),
    };
    // The type of the rule hangs below the rule, not below a basic type.
    let as_type2: Option<&Type2> = rule.value.parent(&pv);
    assert!(as_type2.is_none());
    let as_rule: Option<&TypeRule> = rule.value.parent(&pv);
    assert_eq!(as_rule.unwrap(), rule);
    // The name of the rule hangs below the rule; the name that is referred to
    // hangs below its basic type.
    let definer: Option<&TypeRule> = rule.name.parent(&pv);
    assert_eq!(definer.unwrap(), rule);
    let t2 = &rule.value.type_choices[0].type1.type2;
    if let Type2::Typename { ident, .. } = t2 {
        let user: Option<&Type2> = ident.parent(&pv);
        assert_eq!(user.unwrap(), t2);
        let not_a_rule: Option<&TypeRule> = ident.parent(&pv);
        assert!(not_a_rule.is_none());
    } else {
        panic!("not a typename: {:?}", t2);
    }
}

#[test]
fn the_walk_records_every_node_of_a_small_schema() {
    // a = "myrule": the schema, the rule, its body, the name, the type, the
    // choice, the Type1, the Type2 and the value.
    let cddl = schema(r#"a = "myrule""#);
    let pv = ParentVisitor::new(&cddl).unwrap();
    assert_eq!(pv.len(), 9);
    let parents: Vec<Option<usize>> = (0..pv.len()).map(|i| pv.parent_index(i)).collect();
    assert_eq!(
        parents,
        vec![None, Some(0), Some(1), Some(2), Some(2), Some(4), Some(5), Some(6), Some(7)]
    );
    let children: Vec<Vec<usize>> = (0..pv.len()).map(|i| pv.children(i).clone()).collect();
    assert_eq!(
        children,
        vec![vec![1], vec![2], vec![3, 4], vec![], vec![5], vec![6], vec![7], vec![8], vec![]]
    );
    assert!(matches!(pv.value(0), CDDLType::CDDL(_)));
    assert!(matches!(pv.value(3), CDDLType::Identifier(_)));
    assert!(matches!(pv.value(8), CDDLType::Value(_)));
}

#[test]
fn the_walk_goes_through_a_group_rule() {
    // a = ( * tstr ): schema, rule, body, name, entry, group, choice, entry,
    // its body, occurrence, what it says, name.
    let cddl = schema("a = ( * tstr )");
    let pv = ParentVisitor::new(&cddl).unwrap();
    assert_eq!(pv.len(), 12);
    let kinds: Vec<String> = (0..pv.len()).map(|i| format!("{:?}", pv.value(i).kind())).collect();
    assert_eq!(
        kinds,
        vec![
            "CDDL",
            "Rule",
            "GroupRule",
            "Identifier",
            "GroupEntry",
            "Group",
            "GroupChoice",
            "GroupEntry",
            "TypeGroupnameEntry",
            "Occurrence",
            "Occur",
            "Identifier"
        ]
    );
    let parents: Vec<Option<usize>> = (0..pv.len()).map(|i| pv.parent_index(i)).collect();
    assert_eq!(
        parents,
        vec![
            None,
            Some(0),
            Some(1),
            Some(2),
            Some(2),
            Some(4),
            Some(5),
            Some(6),
            Some(7),
            Some(8),
            Some(9),
            Some(8)
        ]
    );
}

#[test]
fn the_first_parent_wins() {
    // Both rules hold the type `"same"`. The two types are equal, so they share
    // one slot, which keeps the rule that was walked first as its parent.
    let cddl = schema("a = \"same\"\nb = \"same\"");
    let pv = ParentVisitor::new(&cddl).unwrap();
    let (first, second) = match (&cddl.rules[0], &cddl.rules[1]) {
        (Rule::Type { rule: a }, Rule::Type { rule: b }) => (a, b),
        other => panic!("not two type rules: {:?}", other),
    };
    assert_eq!(first.value, second.value);
    let slot = pv.index_of(&CDDLType::Type(&first.value)).unwrap();
    assert_eq!(pv.index_of(&CDDLType::Type(&second.value)), Some(slot));
    let parent: Option<&TypeRule> = second.value.parent(&pv);
    assert_eq!(parent.unwrap(), first);
    // Both rules list the slot among their children.
    let a = pv.index_of(&CDDLType::TypeRule(first)).unwrap();
    let b = pv.index_of(&CDDLType::TypeRule(second)).unwrap();
    assert!(a != b);
    assert_eq!(pv.parent_index(slot), Some(a));
    assert!(pv.children(a).contains(&slot));
    assert!(pv.children(b).contains(&slot));
}

#[test]
fn insert_keeps_a_parent_and_lists_the_child_again() {
    let cddl = schema("a = b");
    let mut pv = ParentVisitor::new(&cddl).unwrap();
    let before = pv.parent_index(3);
    assert_eq!(before, Some(2));
    assert_eq!(pv.insert(0, 3), Ok(()));
    assert_eq!(pv.parent_index(3), Some(2));
    assert_eq!(pv.children(0), &vec![1, 3]);
    // The schema itself has no parent yet: the first one given is kept.
    assert_eq!(pv.insert(3, 0), Ok(()));
    assert_eq!(pv.parent_index(0), Some(3));
    assert_eq!(pv.insert(4, 0), Ok(()));
    assert_eq!(pv.parent_index(0), Some(3));
}

#[test]
fn the_error_says_what_it_is() {
    assert_eq!(Error::Overwrite.to_string(), "attempt to overwrite existing tree node");
}

#[test]
fn equal_nodes_are_equal_wherever_they_stand() {
    let t = |text: &str| Type {
        type_choices: vec![TypeChoice {
            type1: Type1 { type2: Type2::TextValue { value: text.to_string() }, operator: None },
        }],
    };
    assert_eq!(t("x"), t("x"));
    assert!(t("x") != t("y"));
    assert_eq!(CDDLType::Type(&t("x")), CDDLType::Type(&t("x")));
    let t1 = Type1 { type2: Type2::TextValue { value: "x".to_string() }, operator: None };
    // A node and its only child are of different kinds, and never equal.
    assert!(CDDLType::Type1(&t1) != CDDLType::Type2(&t1.type2));
    assert!(name("a", 0) != name("a", 1));
}
