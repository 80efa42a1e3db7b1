use cddl::ast::{Rule, Type2, TypeRule, CDDL};
use cddl::parser::cddl_from_str;
use cddl::token::Value;
use cddl::validator::parent_visitor::{Parent, ParentVisitor};
use cddl::visitor::CDDLType;

fn type_rule(cddl: &CDDL, i: usize) -> &TypeRule {
    match &cddl.rules[i] {
        Rule::Type { rule } => rule,
        other => panic!("not a type rule: {:?}", other),
    }
}

#[test]
fn every_link_of_the_chain_from_a_value_up_to_the_schema() {
    let cddl = cddl_from_str(r#"a = "myrule""#).unwrap();
    let pv = ParentVisitor::new(&cddl).unwrap();
    let node = &cddl.rules[0];
    assert_eq!(node.parent(&pv).unwrap(), &cddl);
    let rule = type_rule(&cddl, 0);
    assert_eq!(rule.parent(&pv).unwrap(), node);
    let value: Option<&TypeRule> = rule.value.parent(&pv);
    assert_eq!(value.unwrap(), rule);
    let choice = &rule.value.type_choices[0];
    assert_eq!(rule.value.type_choices.len(), 1);
    assert_eq!(choice.parent(&pv).unwrap(), &rule.value);
    let t1: Option<&cddl::ast::TypeChoice> = choice.type1.parent(&pv);
    assert_eq!(t1.unwrap(), choice);
    let t2: Option<&cddl::ast::Type1> = choice.type1.type2.parent(&pv);
    assert_eq!(t2.unwrap(), &choice.type1);
    let literal = Value::TEXT("myrule".to_string());
    let holder: Option<&Type2> = literal.parent(&pv);
    assert_eq!(holder.unwrap(), &choice.type1.type2);
}

#[test]
fn two_occurrences_of_a_name_have_two_slots() {
    let cddl = cddl_from_str("a = b\nb = \"test\"").unwrap();
    let pv = ParentVisitor::new(&cddl).unwrap();
    let first = type_rule(&cddl, 0);
    let second = type_rule(&cddl, 1);
    let referred = match &first.value.type_choices[0].type1.type2 {
        Type2::Typename { ident, .. } => ident,
        other => panic!("not a typename: {:?}", other),
    };
    let defined = &second.name;
    assert_eq!(referred.ident, "b");
    assert_eq!(defined.ident, "b");
    let use_slot = pv.index_of(&CDDLType::Identifier(referred)).unwrap();
    let definition_slot = pv.index_of(&CDDLType::Identifier(defined)).unwrap();
    assert!(use_slot != definition_slot);
    let user: Option<&Type2> = referred.parent(&pv);
    assert_eq!(user.unwrap(), &first.value.type_choices[0].type1.type2);
    let definer: Option<&TypeRule> = defined.parent(&pv);
    assert_eq!(definer.unwrap(), second);
}

#[test]
fn two_occurrences_of_a_literal_share_a_slot() {
    let cddl = cddl_from_str("a = \"test\"\nb = \"test\"").unwrap();
    let pv = ParentVisitor::new(&cddl).unwrap();
    let first = &type_rule(&cddl, 0).value.type_choices[0].type1.type2;
    let second = &type_rule(&cddl, 1).value.type_choices[0].type1.type2;
    let slot = pv.index_of(&CDDLType::Type2(first)).unwrap();
    assert_eq!(pv.index_of(&CDDLType::Type2(second)), Some(slot));
    let literal = CDDLType::Value(Value::TEXT("test".to_string()));
    let value_slot = pv.index_of(&literal).unwrap();
    assert_eq!(pv.parent_index(value_slot), Some(slot));
    // One slot for each distinct node: the schema, two rules, two bodies, two
    // names, and one type, choice, Type1, Type2 and value.
    assert_eq!(pv.len(), 12);
    // The value was reached twice from its basic type.
    assert_eq!(pv.children(slot), &vec![value_slot, value_slot]);
}

#[test]
fn building_twice_gives_the_same_index() {
    let cddl = cddl_from_str("a<t> = b<t, 1..2> / \"x\"\nc = a<3> / \"x\" / c").unwrap();
    let first = ParentVisitor::new(&cddl).unwrap();
    let second = ParentVisitor::new(&cddl).unwrap();
    assert_eq!(first.len(), second.len());
    for i in 0..first.len() {
        assert_eq!(first.value(i), second.value(i));
        assert_eq!(first.parent_index(i), second.parent_index(i));
        assert_eq!(first.children(i), second.children(i));
    }
    // An equal schema, read a second time, gives the same index too.
    let again = cddl_from_str("a<t> = b<t, 1..2> / \"x\"\nc = a<3> / \"x\" / c").unwrap();
    let third = ParentVisitor::new(&again).unwrap();
    assert_eq!(first.len(), third.len());
    for i in 0..first.len() {
        assert_eq!(first.value(i), third.value(i));
        assert_eq!(first.parent_index(i), third.parent_index(i));
        assert_eq!(first.children(i), third.children(i));
    }
}

#[test]
fn slots_refer_to_slots_and_hold_distinct_nodes() {
    let cddl = cddl_from_str("a = b / 1 / \"x\" / b\nb<t> = 1 / t / a<\"x\", 1>").unwrap();
    let pv = ParentVisitor::new(&cddl).unwrap();
    for i in 0..pv.len() {
        if let Some(p) = pv.parent_index(i) {
            assert!(p < pv.len());
            assert!(pv.children(p).contains(&i));
        }
        for child in pv.children(i) {
            assert!(*child < pv.len());
        }
        for j in 0..i {
            assert!(pv.value(i) != pv.value(j));
        }
        assert_eq!(pv.index_of(pv.value(i)), Some(i));
    }
}

/// The steps of the walk below `node`, found with nothing but `children`.
fn steps<'a>(node: &CDDLType<'a>, out: &mut Vec<(String, String)>) {
    let name = |n: &CDDLType| format!("{:?}", n.kind());
    for child in node.children() {
        out.push((name(node), name(&child)));
        steps(&child, out);
    }
}

#[test]
fn children_come_in_the_order_of_the_grammar() {
    let cddl = cddl_from_str("a<t> = b<t> / 1..2\nc = { ? k: [ * a<1> ] }").unwrap();
    let root = CDDLType::CDDL(&cddl);
    let kinds = |n: &CDDLType| -> Vec<String> {
        n.children().iter().map(|c| format!("{:?}", c.kind())).collect()
    };
    assert_eq!(kinds(&root), vec!["Rule", "Rule"]);
    let rule = type_rule(&cddl, 0);
    assert_eq!(kinds(&CDDLType::Rule(&cddl.rules[0])), vec!["TypeRule"]);
    assert_eq!(kinds(&CDDLType::TypeRule(rule)), vec!["Identifier", "GenericParams", "Type"]);
    assert_eq!(kinds(&CDDLType::Type(&rule.value)), vec!["TypeChoice", "TypeChoice"]);
    let range = &rule.value.type_choices[1].type1;
    assert_eq!(kinds(&CDDLType::Type1(range)), vec!["Operator", "Type2"]);
    assert_eq!(kinds(&CDDLType::Type2(&range.type2)), vec!["Value"]);
    assert_eq!(range.type2.children(), vec![CDDLType::Value(Value::UINT(1))]);
    let name = &rule.value.type_choices[0].type1.type2;
    assert_eq!(kinds(&CDDLType::Type2(name)), vec!["Identifier", "GenericArgs"]);
    assert_eq!(kinds(&CDDLType::Identifier(&rule.name)), Vec::<String>::new());
    let map = &type_rule(&cddl, 1).value.type_choices[0].type1.type2;
    assert_eq!(kinds(&CDDLType::Type2(map)), vec!["Group"]);
    let entry = match map {
        Type2::MapType { group } => &group.group_choices[0].group_entries[0].0,
        other => panic!("not a map: {:?}", other),
    };
    assert_eq!(kinds(&CDDLType::GroupEntry(entry)), vec!["ValueMemberKeyEntry"]);
    match entry {
        cddl::ast::GroupEntry::ValueMemberKey { ge } => {
            assert_eq!(
                kinds(&CDDLType::ValueMemberKeyEntry(ge)),
                vec!["Occurrence", "MemberKey", "Type"]
            );
            assert_eq!(
                kinds(&CDDLType::Occurrence(ge.occur.as_ref().unwrap())),
                vec!["Occur"]
            );
        }
        other => panic!("not an entry with a key: {:?}", other),
    }
}

#[test]
fn the_index_records_the_steps_that_children_give() {
    let cddl = cddl_from_str("a<t> = b<t> / 1..2\nc = { ? k: [ * a<1>, &( x: 1 ), ~b ] }").unwrap();
    let pv = ParentVisitor::new(&cddl).unwrap();
    let mut walked = Vec::new();
    steps(&CDDLType::CDDL(&cddl), &mut walked);
    // Each step is one entry in a list of children.
    let listed: usize = (0..pv.len()).map(|i| pv.children(i).len()).sum();
    assert_eq!(walked.len(), listed);
    // Each node that a step leads to has a parent of the kind that the step
    // starts at, or had one before.
    for i in 1..pv.len() {
        let parent = pv.parent_index(i).unwrap();
        let pair = (format!("{:?}", pv.value(parent).kind()), format!("{:?}", pv.value(i).kind()));
        assert!(walked.contains(&pair));
    }
}

#[test]
fn a_copy_of_a_tree_is_equal_to_it() {
    let text = "a<t> = b<t> / 1..2 / -1 / 1.5 / 'x' / h'00' / b64'AA'
                c = { ? k: [ * a<1>, &( x: 1 ), ~b ] }";
    let cddl = cddl_from_str(text).unwrap();
    let copy = cddl.clone();
    assert_eq!(copy, cddl);
    assert_eq!(copy.rules.len(), 2);
    let root = CDDLType::CDDL(&cddl);
    assert_eq!(root.clone(), root);
    // The index of the copy is the index of the tree.
    let first = ParentVisitor::new(&cddl).unwrap();
    let second = ParentVisitor::new(&copy).unwrap();
    assert_eq!(first.len(), second.len());
    for i in 0..first.len() {
        assert_eq!(first.value(i), second.value(i));
        assert_eq!(first.parent_index(i), second.parent_index(i));
        assert_eq!(first.children(i), second.children(i));
    }
    // A change below makes the trees differ.
    let mut changed = cddl.clone();
    if let Rule::Type { rule } = &mut changed.rules[0] {
        rule.value.type_choices.pop();
    }
    assert!(changed != cddl);
}
