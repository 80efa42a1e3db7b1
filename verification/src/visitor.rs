//! Walking a syntax tree.
//!
//! [`CDDLType`] names any node of a tree together with its kind. The walk of a
//! tree visits a node, then each of its children in the order in which the
//! grammar writes them, and so on downwards. What the walk yields is the
//! sequence of its steps from a node to a child, the [`Edge`]s of the tree:
//! [`cddl_edges`] lists them for a whole schema.
//!
//! [`children`] gives the children of any node, which is all that a
//! traversal of one's own needs; [`kinds`] says which kinds of nodes hold
//! which.
use crate::ast::{
    CDDLView, GenericArgView, GenericArgsView, GenericParamView, GenericParamsView,
    GroupChoiceView, GroupEntryView, GroupRuleView, GroupView, IdentifierView, MemberKeyView,
    NonMemberKeyView, Occur, OccurrenceView, OperatorView, RuleView, Type1View, Type2View,
    TypeChoiceView, TypeGroupnameEntryView, TypeRuleView, TypeView, ValueMemberKeyEntryView, CDDL,
    GenericArg, GenericArgs, GenericParam, GenericParams, Group, GroupChoice, GroupEntry,
    GroupRule, Identifier, MemberKey, NonMemberKey, Occurrence, Operator, Rule, Type, Type1, Type2,
    TypeChoice, TypeGroupnameEntry, TypeRule, ValueMemberKeyEntry,
};
use crate::token::{bytes_clone, ByteValue, ByteValueView, Value, ValueView};
use vstd::prelude::*;
use vstd::std_specs::cmp::PartialEqSpecImpl;

pub mod children;
pub mod kinds;

verus! {

/// A reference to a node of a syntax tree, tagged with the kind of the node.
///
/// Two of them are equal when they have the same tag and the nodes are equal in
/// shape and content, wherever the nodes stand.
#[derive(Debug)]
pub enum CDDLType<'a> {
    /// The whole schema.
    CDDL(&'a CDDL),
    /// A rule.
    Rule(&'a Rule),
    /// The body of a type rule.
    TypeRule(&'a TypeRule),
    /// The body of a group rule.
    GroupRule(&'a GroupRule),
    /// A group.
    Group(&'a Group),
    /// One alternative of a group.
    GroupChoice(&'a GroupChoice),
    /// A parameter list.
    GenericParams(&'a GenericParams),
    /// One parameter.
    GenericParam(&'a GenericParam),
    /// An argument list.
    GenericArgs(&'a GenericArgs),
    /// One argument.
    GenericArg(&'a GenericArg),
    /// A group entry.
    GroupEntry(&'a GroupEntry),
    /// A name.
    Identifier(&'a Identifier),
    /// A type.
    Type(&'a Type),
    /// One alternative of a type.
    TypeChoice(&'a TypeChoice),
    /// A basic type with its operator.
    Type1(&'a Type1),
    /// A basic type.
    Type2(&'a Type2),
    /// An operator with its operand.
    Operator(&'a Operator),
    /// An occurrence indicator.
    Occurrence(&'a Occurrence),
    /// What an occurrence indicator says, held by value.
    Occur(Occur),
    /// A literal, held by value.
    Value(Value),
    /// A group entry with a key and a type.
    ValueMemberKeyEntry(&'a ValueMemberKeyEntry),
    /// A group entry that is a name.
    TypeGroupnameEntry(&'a TypeGroupnameEntry),
    /// The key of a group entry.
    MemberKey(&'a MemberKey),
    /// A type or group in key position.
    NonMemberKey(&'a NonMemberKey),
}

/// The mathematical value of a [`CDDLType`]: the tag and the value of the node.
pub ghost enum CDDLTypeView {
    CDDL(CDDLView),
    Rule(RuleView),
    TypeRule(TypeRuleView),
    GroupRule(GroupRuleView),
    Group(GroupView),
    GroupChoice(GroupChoiceView),
    GenericParams(GenericParamsView),
    GenericParam(GenericParamView),
    GenericArgs(GenericArgsView),
    GenericArg(GenericArgView),
    GroupEntry(GroupEntryView),
    Identifier(IdentifierView),
    Type(TypeView),
    TypeChoice(TypeChoiceView),
    Type1(Type1View),
    Type2(Type2View),
    Operator(OperatorView),
    Occurrence(OccurrenceView),
    Occur(Occur),
    Value(ValueView),
    ValueMemberKeyEntry(ValueMemberKeyEntryView),
    TypeGroupnameEntry(TypeGroupnameEntryView),
    MemberKey(MemberKeyView),
    NonMemberKey(NonMemberKeyView),
}

impl<'a> CDDLType<'a> {
    pub open spec fn view(&self) -> CDDLTypeView {
        match self {
            CDDLType::CDDL(x) => CDDLTypeView::CDDL(x@),
            CDDLType::Rule(x) => CDDLTypeView::Rule(x@),
            CDDLType::TypeRule(x) => CDDLTypeView::TypeRule(x@),
            CDDLType::GroupRule(x) => CDDLTypeView::GroupRule(x@),
            CDDLType::Group(x) => CDDLTypeView::Group(x@),
            CDDLType::GroupChoice(x) => CDDLTypeView::GroupChoice(x@),
            CDDLType::GenericParams(x) => CDDLTypeView::GenericParams(x@),
            CDDLType::GenericParam(x) => CDDLTypeView::GenericParam(x@),
            CDDLType::GenericArgs(x) => CDDLTypeView::GenericArgs(x@),
            CDDLType::GenericArg(x) => CDDLTypeView::GenericArg(x@),
            CDDLType::GroupEntry(x) => CDDLTypeView::GroupEntry(x@),
            CDDLType::Identifier(x) => CDDLTypeView::Identifier(x@),
            CDDLType::Type(x) => CDDLTypeView::Type(x@),
            CDDLType::TypeChoice(x) => CDDLTypeView::TypeChoice(x@),
            CDDLType::Type1(x) => CDDLTypeView::Type1(x@),
            CDDLType::Type2(x) => CDDLTypeView::Type2(x@),
            CDDLType::Operator(x) => CDDLTypeView::Operator(x@),
            CDDLType::Occurrence(x) => CDDLTypeView::Occurrence(x@),
            CDDLType::Occur(x) => CDDLTypeView::Occur(*x),
            CDDLType::Value(x) => CDDLTypeView::Value(x@),
            CDDLType::ValueMemberKeyEntry(x) => CDDLTypeView::ValueMemberKeyEntry(x@),
            CDDLType::TypeGroupnameEntry(x) => CDDLTypeView::TypeGroupnameEntry(x@),
            CDDLType::MemberKey(x) => CDDLTypeView::MemberKey(x@),
            CDDLType::NonMemberKey(x) => CDDLTypeView::NonMemberKey(x@),
        }
    }

    /// Whether the two refer to nodes of the same kind, shape and content.
    pub fn equals(&self, other: &CDDLType<'a>) -> (r: bool)
        ensures
            r == (self@ == other@),
    {
        match self {
            CDDLType::CDDL(x) => match other {
                CDDLType::CDDL(y) => x.equals(y),
                _ => false,
            },
            CDDLType::Rule(x) => match other {
                CDDLType::Rule(y) => x.equals(y),
                _ => false,
            },
            CDDLType::TypeRule(x) => match other {
                CDDLType::TypeRule(y) => x.equals(y),
                _ => false,
            },
            CDDLType::GroupRule(x) => match other {
                CDDLType::GroupRule(y) => x.equals(y),
                _ => false,
            },
            CDDLType::Group(x) => match other {
                CDDLType::Group(y) => x.equals(y),
                _ => false,
            },
            CDDLType::GroupChoice(x) => match other {
                CDDLType::GroupChoice(y) => x.equals(y),
                _ => false,
            },
            CDDLType::GenericParams(x) => match other {
                CDDLType::GenericParams(y) => x.equals(y),
                _ => false,
            },
            CDDLType::GenericParam(x) => match other {
                CDDLType::GenericParam(y) => x.equals(y),
                _ => false,
            },
            CDDLType::GenericArgs(x) => match other {
                CDDLType::GenericArgs(y) => x.equals(y),
                _ => false,
            },
            CDDLType::GenericArg(x) => match other {
                CDDLType::GenericArg(y) => x.equals(y),
                _ => false,
            },
            CDDLType::GroupEntry(x) => match other {
                CDDLType::GroupEntry(y) => x.equals(y),
                _ => false,
            },
            CDDLType::Identifier(x) => match other {
                CDDLType::Identifier(y) => x.equals(y),
                _ => false,
            },
            CDDLType::Type(x) => match other {
                CDDLType::Type(y) => x.equals(y),
                _ => false,
            },
            CDDLType::TypeChoice(x) => match other {
                CDDLType::TypeChoice(y) => x.equals(y),
                _ => false,
            },
            CDDLType::Type1(x) => match other {
                CDDLType::Type1(y) => x.equals(y),
                _ => false,
            },
            CDDLType::Type2(x) => match other {
                CDDLType::Type2(y) => x.equals(y),
                _ => false,
            },
            CDDLType::Operator(x) => match other {
                CDDLType::Operator(y) => x.equals(y),
                _ => false,
            },
            CDDLType::Occurrence(x) => match other {
                CDDLType::Occurrence(y) => x.equals(y),
                _ => false,
            },
            CDDLType::Occur(x) => match other {
                CDDLType::Occur(y) => *x == *y,
                _ => false,
            },
            CDDLType::Value(x) => match other {
                CDDLType::Value(y) => x.equals(y),
                _ => false,
            },
            CDDLType::ValueMemberKeyEntry(x) => match other {
                CDDLType::ValueMemberKeyEntry(y) => x.equals(y),
                _ => false,
            },
            CDDLType::TypeGroupnameEntry(x) => match other {
                CDDLType::TypeGroupnameEntry(y) => x.equals(y),
                _ => false,
            },
            CDDLType::MemberKey(x) => match other {
                CDDLType::MemberKey(y) => x.equals(y),
                _ => false,
            },
            CDDLType::NonMemberKey(x) => match other {
                CDDLType::NonMemberKey(y) => x.equals(y),
                _ => false,
            },
        }
    }
}

impl<'a> Clone for CDDLType<'a> {
    fn clone(&self) -> (r: CDDLType<'a>)
        ensures
            r@ == self@,
    {
        match self {
            CDDLType::CDDL(x) => CDDLType::CDDL(*x),
            CDDLType::Rule(x) => CDDLType::Rule(*x),
            CDDLType::TypeRule(x) => CDDLType::TypeRule(*x),
            CDDLType::GroupRule(x) => CDDLType::GroupRule(*x),
            CDDLType::Group(x) => CDDLType::Group(*x),
            CDDLType::GroupChoice(x) => CDDLType::GroupChoice(*x),
            CDDLType::GenericParams(x) => CDDLType::GenericParams(*x),
            CDDLType::GenericParam(x) => CDDLType::GenericParam(*x),
            CDDLType::GenericArgs(x) => CDDLType::GenericArgs(*x),
            CDDLType::GenericArg(x) => CDDLType::GenericArg(*x),
            CDDLType::GroupEntry(x) => CDDLType::GroupEntry(*x),
            CDDLType::Identifier(x) => CDDLType::Identifier(*x),
            CDDLType::Type(x) => CDDLType::Type(*x),
            CDDLType::TypeChoice(x) => CDDLType::TypeChoice(*x),
            CDDLType::Type1(x) => CDDLType::Type1(*x),
            CDDLType::Type2(x) => CDDLType::Type2(*x),
            CDDLType::Operator(x) => CDDLType::Operator(*x),
            CDDLType::Occurrence(x) => CDDLType::Occurrence(*x),
            CDDLType::Occur(x) => CDDLType::Occur(*x),
            CDDLType::Value(x) => CDDLType::Value(x.clone()),
            CDDLType::ValueMemberKeyEntry(x) => CDDLType::ValueMemberKeyEntry(*x),
            CDDLType::TypeGroupnameEntry(x) => CDDLType::TypeGroupnameEntry(*x),
            CDDLType::MemberKey(x) => CDDLType::MemberKey(*x),
            CDDLType::NonMemberKey(x) => CDDLType::NonMemberKey(*x),
        }
    }
}

impl<'a> PartialEq for CDDLType<'a> {
    fn eq(&self, other: &CDDLType<'a>) -> (r: bool) {
        self.equals(other)
    }
}

impl<'a> PartialEqSpecImpl for CDDLType<'a> {
    open spec fn obeys_eq_spec() -> bool {
        true
    }

    open spec fn eq_spec(&self, other: &CDDLType<'a>) -> bool {
        self@ == other@
    }
}

/// One step of the walk: from a node down to one of its children.
pub ghost struct Edge {
    pub parent: CDDLTypeView,
    pub child: CDDLTypeView,
}

/// The step from `parent` to `child`.
pub open spec fn edge(parent: CDDLTypeView, child: CDDLTypeView) -> Edge {
    Edge { parent, child }
}

/// The edges below a schema, in walk order.
pub open spec fn cddl_edges(x: CDDLView) -> Seq<Edge>
    decreases x, x.rules.len() + 1,
{
    cddl_edges_upto(x, x.rules.len())
}

/// The edges that the walk of `x` has recorded once it is done with the first
/// `n` of its children.
pub open spec fn cddl_edges_upto(x: CDDLView, n: nat) -> Seq<Edge>
    decreases x, n,
{
    if n == 0 || n > x.rules.len() {
        Seq::empty()
    } else {
        let child = x.rules[n - 1];
        cddl_edges_upto(x, (n - 1) as nat) + seq![
            edge(CDDLTypeView::CDDL(x), CDDLTypeView::Rule(child)),
        ] + rule_edges(child)
    }
}

/// The edges below a rule, in walk order.
pub open spec fn rule_edges(x: RuleView) -> Seq<Edge>
    decreases x, 0nat,
{
    let p = CDDLTypeView::Rule(x);
    match x {
        RuleView::Type { rule } => {
            seq![edge(p, CDDLTypeView::TypeRule(rule))] + type_rule_edges(rule)
        },
        RuleView::Group { rule } => {
            seq![edge(p, CDDLTypeView::GroupRule(rule))] + group_rule_edges(rule)
        },
    }
}

/// The edges below a type rule: its name, its parameters, its type, in walk order.
pub open spec fn type_rule_edges(x: TypeRuleView) -> Seq<Edge>
    decreases x, 0nat,
{
    let p = CDDLTypeView::TypeRule(x);
    seq![edge(p, CDDLTypeView::Identifier(x.name))] + (match x.generic_params {
        Some(y) => seq![edge(p, CDDLTypeView::GenericParams(y))] + generic_params_edges(y),
        None => Seq::empty(),
    }) + seq![edge(p, CDDLTypeView::Type(x.value))] + type_edges(x.value)
}

/// The edges below a group rule: its name, its parameters, its entry, in walk order.
pub open spec fn group_rule_edges(x: GroupRuleView) -> Seq<Edge>
    decreases x, 0nat,
{
    let p = CDDLTypeView::GroupRule(x);
    seq![edge(p, CDDLTypeView::Identifier(x.name))] + (match x.generic_params {
        Some(y) => seq![edge(p, CDDLTypeView::GenericParams(y))] + generic_params_edges(y),
        None => Seq::empty(),
    }) + seq![edge(p, CDDLTypeView::GroupEntry(x.entry))] + group_entry_edges(x.entry)
}

/// The edges below a GenericParams, in walk order.
pub open spec fn generic_params_edges(x: GenericParamsView) -> Seq<Edge>
    decreases x, x.params.len() + 1,
{
    generic_params_edges_upto(x, x.params.len())
}

/// The edges that the walk of `x` has recorded once it is done with the first
/// `n` of its children.
pub open spec fn generic_params_edges_upto(x: GenericParamsView, n: nat) -> Seq<Edge>
    decreases x, n,
{
    if n == 0 || n > x.params.len() {
        Seq::empty()
    } else {
        let child = x.params[n - 1];
        generic_params_edges_upto(x, (n - 1) as nat) + seq![
            edge(CDDLTypeView::GenericParams(x), CDDLTypeView::GenericParam(child)),
        ] + generic_param_edges(child)
    }
}

/// The edges below a parameter: its name, in walk order.
pub open spec fn generic_param_edges(x: GenericParamView) -> Seq<Edge>
    decreases x, 0nat,
{
    let p = CDDLTypeView::GenericParam(x);
    seq![edge(p, CDDLTypeView::Identifier(x.param))]
}

/// The edges below a GenericArgs, in walk order.
pub open spec fn generic_args_edges(x: GenericArgsView) -> Seq<Edge>
    decreases x, x.args.len() + 1,
{
    generic_args_edges_upto(x, x.args.len())
}

/// The edges that the walk of `x` has recorded once it is done with the first
/// `n` of its children.
pub open spec fn generic_args_edges_upto(x: GenericArgsView, n: nat) -> Seq<Edge>
    decreases x, n,
{
    if n == 0 || n > x.args.len() {
        Seq::empty()
    } else {
        let child = x.args[n - 1];
        generic_args_edges_upto(x, (n - 1) as nat) + seq![
            edge(CDDLTypeView::GenericArgs(x), CDDLTypeView::GenericArg(child)),
        ] + generic_arg_edges(child)
    }
}

/// The edges below an argument: its type, in walk order.
pub open spec fn generic_arg_edges(x: GenericArgView) -> Seq<Edge>
    decreases x, 0nat,
{
    let p = CDDLTypeView::GenericArg(x);
    seq![edge(p, CDDLTypeView::Type1(x.arg))] + type1_edges(x.arg)
}

/// The edges below a Type, in walk order.
pub open spec fn type_edges(x: TypeView) -> Seq<Edge>
    decreases x, x.type_choices.len() + 1,
{
    type_edges_upto(x, x.type_choices.len())
}

/// The edges that the walk of `x` has recorded once it is done with the first
/// `n` of its children.
pub open spec fn type_edges_upto(x: TypeView, n: nat) -> Seq<Edge>
    decreases x, n,
{
    if n == 0 || n > x.type_choices.len() {
        Seq::empty()
    } else {
        let child = x.type_choices[n - 1];
        type_edges_upto(x, (n - 1) as nat) + seq![
            edge(CDDLTypeView::Type(x), CDDLTypeView::TypeChoice(child)),
        ] + type_choice_edges(child)
    }
}

/// The edges below a type choice, in walk order.
pub open spec fn type_choice_edges(x: TypeChoiceView) -> Seq<Edge>
    decreases x, 0nat,
{
    let p = CDDLTypeView::TypeChoice(x);
    seq![edge(p, CDDLTypeView::Type1(x.type1))] + type1_edges(x.type1)
}

/// The edges below a `Type1`: its operator, then its basic type, in walk order.
pub open spec fn type1_edges(x: Type1View) -> Seq<Edge>
    decreases x, 0nat,
{
    let p = CDDLTypeView::Type1(x);
    (match x.operator {
        Some(y) => seq![edge(p, CDDLTypeView::Operator(y))] + operator_edges(y),
        None => Seq::empty(),
    }) + seq![edge(p, CDDLTypeView::Type2(x.type2))] + type2_edges(x.type2)
}

/// The edges below an operator: its operand, in walk order.
pub open spec fn operator_edges(x: OperatorView) -> Seq<Edge>
    decreases x, 0nat,
{
    let p = CDDLTypeView::Operator(x);
    seq![edge(p, CDDLTypeView::Type2(x.type2))] + type2_edges(x.type2)
}

/// The literal that a basic type is, if it is one.
pub open spec fn literal_of(x: Type2View) -> Option<ValueView> {
    match x {
        Type2View::IntValue { value } => Some(ValueView::INT(value)),
        Type2View::UintValue { value } => Some(ValueView::UINT(value)),
        Type2View::FloatValue { value } => Some(ValueView::FLOAT(value)),
        Type2View::TextValue { value } => Some(ValueView::TEXT(value)),
        Type2View::UTF8ByteString { value } => Some(ValueView::BYTE(ByteValueView::UTF8(value))),
        Type2View::B16ByteString { value } => Some(ValueView::BYTE(ByteValueView::B16(value))),
        Type2View::B64ByteString { value } => Some(ValueView::BYTE(ByteValueView::B64(value))),
        _ => None,
    }
}

/// The edges below a basic type. A literal has one child, its value, in walk order.
pub open spec fn type2_edges(x: Type2View) -> Seq<Edge>
    decreases x, 0nat,
{
    let p = CDDLTypeView::Type2(x);
    match literal_of(x) {
        Some(value) => seq![edge(p, CDDLTypeView::Value(value))],
        None => match x {
            Type2View::Typename { ident, generic_args } => {
                seq![edge(p, CDDLTypeView::Identifier(ident))] + (match generic_args {
                    Some(y) => seq![edge(p, CDDLTypeView::GenericArgs(y))] + generic_args_edges(y),
                    None => Seq::empty(),
                })
            },
            Type2View::ParenthesizedType { pt } => {
                seq![edge(p, CDDLTypeView::Type(pt))] + type_edges(pt)
            },
            Type2View::MapType { group } => {
                seq![edge(p, CDDLTypeView::Group(group))] + group_edges(group)
            },
            Type2View::Array { group } => {
                seq![edge(p, CDDLTypeView::Group(group))] + group_edges(group)
            },
            Type2View::Unwrap { ident, generic_args } => {
                seq![edge(p, CDDLTypeView::Identifier(ident))] + (match generic_args {
                    Some(y) => seq![edge(p, CDDLTypeView::GenericArgs(y))] + generic_args_edges(y),
                    None => Seq::empty(),
                })
            },
            Type2View::ChoiceFromInlineGroup { group } => {
                seq![edge(p, CDDLTypeView::Group(group))] + group_edges(group)
            },
            Type2View::ChoiceFromGroup { ident, generic_args } => {
                seq![edge(p, CDDLTypeView::Identifier(ident))] + (match generic_args {
                    Some(y) => seq![edge(p, CDDLTypeView::GenericArgs(y))] + generic_args_edges(y),
                    None => Seq::empty(),
                })
            },
            Type2View::TaggedData { tag, t } => {
                seq![edge(p, CDDLTypeView::Type(t))] + type_edges(t)
            },
            _ => Seq::empty(),
        },
    }
}

/// The edges below a Group, in walk order.
pub open spec fn group_edges(x: GroupView) -> Seq<Edge>
    decreases x, x.group_choices.len() + 1,
{
    group_edges_upto(x, x.group_choices.len())
}

/// The edges that the walk of `x` has recorded once it is done with the first
/// `n` of its children.
pub open spec fn group_edges_upto(x: GroupView, n: nat) -> Seq<Edge>
    decreases x, n,
{
    if n == 0 || n > x.group_choices.len() {
        Seq::empty()
    } else {
        let child = x.group_choices[n - 1];
        group_edges_upto(x, (n - 1) as nat) + seq![
            edge(CDDLTypeView::Group(x), CDDLTypeView::GroupChoice(child)),
        ] + group_choice_edges(child)
    }
}

/// The edges below a GroupChoice, in walk order.
pub open spec fn group_choice_edges(x: GroupChoiceView) -> Seq<Edge>
    decreases x, x.group_entries.len() + 1,
{
    group_choice_edges_upto(x, x.group_entries.len())
}

/// The edges that the walk of `x` has recorded once it is done with the first
/// `n` of its children.
pub open spec fn group_choice_edges_upto(x: GroupChoiceView, n: nat) -> Seq<Edge>
    decreases x, n,
{
    if n == 0 || n > x.group_entries.len() {
        Seq::empty()
    } else {
        let child = x.group_entries[n - 1].0;
        group_choice_edges_upto(x, (n - 1) as nat) + seq![
            edge(CDDLTypeView::GroupChoice(x), CDDLTypeView::GroupEntry(child)),
        ] + group_entry_edges(child)
    }
}

/// The edges below a group entry, in walk order.
pub open spec fn group_entry_edges(x: GroupEntryView) -> Seq<Edge>
    decreases x, 0nat,
{
    let p = CDDLTypeView::GroupEntry(x);
    match x {
        GroupEntryView::ValueMemberKey { ge } => {
            seq![edge(p, CDDLTypeView::ValueMemberKeyEntry(ge))] + value_member_key_entry_edges(ge)
        },
        GroupEntryView::TypeGroupname { ge } => {
            seq![edge(p, CDDLTypeView::TypeGroupnameEntry(ge))] + type_groupname_entry_edges(ge)
        },
        GroupEntryView::InlineGroup { occur, group } => (match occur {
            Some(y) => seq![edge(p, CDDLTypeView::Occurrence(y))] + occurrence_edges(y),
            None => Seq::empty(),
        }) + seq![edge(p, CDDLTypeView::Group(group))] + group_edges(group),
    }
}

/// The edges below an entry with a key: its occurrence, its key, its type, in walk order.
pub open spec fn value_member_key_entry_edges(x: ValueMemberKeyEntryView) -> Seq<Edge>
    decreases x, 0nat,
{
    let p = CDDLTypeView::ValueMemberKeyEntry(x);
    (match x.occur {
        Some(y) => seq![edge(p, CDDLTypeView::Occurrence(y))] + occurrence_edges(y),
        None => Seq::empty(),
    }) + (match x.member_key {
        Some(y) => seq![edge(p, CDDLTypeView::MemberKey(y))] + member_key_edges(y),
        None => Seq::empty(),
    }) + seq![edge(p, CDDLTypeView::Type(x.entry_type))] + type_edges(x.entry_type)
}

/// The edges below an entry that is a name: its occurrence, its arguments, its name, in walk order.
pub open spec fn type_groupname_entry_edges(x: TypeGroupnameEntryView) -> Seq<Edge>
    decreases x, 0nat,
{
    let p = CDDLTypeView::TypeGroupnameEntry(x);
    (match x.occur {
        Some(y) => seq![edge(p, CDDLTypeView::Occurrence(y))] + occurrence_edges(y),
        None => Seq::empty(),
    }) + (match x.generic_args {
        Some(y) => seq![edge(p, CDDLTypeView::GenericArgs(y))] + generic_args_edges(y),
        None => Seq::empty(),
    }) + seq![edge(p, CDDLTypeView::Identifier(x.name))]
}

/// The edges below an occurrence indicator: what it says, in walk order.
pub open spec fn occurrence_edges(x: OccurrenceView) -> Seq<Edge>
    decreases x, 0nat,
{
    let p = CDDLTypeView::Occurrence(x);
    seq![edge(p, CDDLTypeView::Occur(x.occur))]
}

/// The edges below a key, in walk order.
pub open spec fn member_key_edges(x: MemberKeyView) -> Seq<Edge>
    decreases x, 0nat,
{
    let p = CDDLTypeView::MemberKey(x);
    match x {
        MemberKeyView::Type1 { t1, is_cut } => {
            seq![edge(p, CDDLTypeView::Type1(t1))] + type1_edges(t1)
        },
        MemberKeyView::Bareword { ident } => seq![edge(p, CDDLTypeView::Identifier(ident))],
        MemberKeyView::Value { value } => seq![edge(p, CDDLTypeView::Value(value))],
        MemberKeyView::NonMemberKey { non_member_key } => {
            seq![edge(p, CDDLTypeView::NonMemberKey(non_member_key))]
                + non_member_key_edges(non_member_key)
        },
    }
}

/// The edges below a type or group in key position, in walk order.
pub open spec fn non_member_key_edges(x: NonMemberKeyView) -> Seq<Edge>
    decreases x, 0nat,
{
    let p = CDDLTypeView::NonMemberKey(x);
    match x {
        NonMemberKeyView::Group(g) => seq![edge(p, CDDLTypeView::Group(g))] + group_edges(g),
        NonMemberKeyView::Type(t) => seq![edge(p, CDDLTypeView::Type(t))] + type_edges(t),
    }
}

impl Type2 {
    /// The literal that the basic type is, if it is one.
    pub fn literal(&self) -> (r: Option<Value>)
        ensures
            match r {
                Some(value) => literal_of(self@) == Some(value@),
                None => literal_of(self@) is None,
            },
    {
        match self {
            Type2::IntValue { value } => Some(Value::INT(*value)),
            Type2::UintValue { value } => Some(Value::UINT(*value)),
            Type2::FloatValue { value } => Some(Value::FLOAT(value.clone())),
            Type2::TextValue { value } => Some(Value::TEXT(value.clone())),
            Type2::UTF8ByteString { value } => Some(
                Value::BYTE(ByteValue::UTF8(bytes_clone(value))),
            ),
            Type2::B16ByteString { value } => Some(Value::BYTE(ByteValue::B16(bytes_clone(value)))),
            Type2::B64ByteString { value } => Some(Value::BYTE(ByteValue::B64(bytes_clone(value)))),
            _ => None,
        }
    }
}

} // verus!
