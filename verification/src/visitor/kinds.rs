//! The kinds of nodes, and which kinds hold which.
//!
//! [`may_hold`] is the containment relation of the grammar. The walk of a
//! tree goes from a node to nodes that it can hold only
//! ([`lemma_cddl_edges_well_kinded`]).
use crate::ast::{
    CDDLView, GenericArgView, GenericArgsView, GenericParamView, GenericParamsView,
    GroupChoiceView, GroupEntryView, GroupRuleView, GroupView, MemberKeyView, NonMemberKeyView,
    OccurrenceView, OperatorView, RuleView, Type1View, Type2View, TypeChoiceView,
    TypeGroupnameEntryView, TypeRuleView, TypeView, ValueMemberKeyEntryView,
};
use crate::visitor::{
    cddl_edges, cddl_edges_upto, edge, generic_arg_edges, generic_args_edges,
    generic_args_edges_upto, generic_param_edges, generic_params_edges, generic_params_edges_upto,
    group_choice_edges, group_choice_edges_upto, group_edges, group_edges_upto, group_entry_edges,
    group_rule_edges, member_key_edges, non_member_key_edges, occurrence_edges, operator_edges,
    rule_edges, type1_edges, type2_edges, type_choice_edges, type_edges, type_edges_upto,
    type_groupname_entry_edges, type_rule_edges, value_member_key_entry_edges, CDDLType,
    CDDLTypeView, Edge,
};
use vstd::prelude::*;

verus! {

/// The kinds of nodes.
#[derive(Debug, Clone, Copy, PartialEq, Eq, Structural)]
pub enum Kind {
    CDDL,
    Rule,
    TypeRule,
    GroupRule,
    Group,
    GroupChoice,
    GenericParams,
    GenericParam,
    GenericArgs,
    GenericArg,
    GroupEntry,
    Identifier,
    Type,
    TypeChoice,
    Type1,
    Type2,
    Operator,
    Occurrence,
    Occur,
    Value,
    ValueMemberKeyEntry,
    TypeGroupnameEntry,
    MemberKey,
    NonMemberKey,
}

impl CDDLTypeView {
    /// The kind of the node.
    pub open spec fn kind(self) -> Kind {
        match self {
            CDDLTypeView::CDDL(_) => Kind::CDDL,
            CDDLTypeView::Rule(_) => Kind::Rule,
            CDDLTypeView::TypeRule(_) => Kind::TypeRule,
            CDDLTypeView::GroupRule(_) => Kind::GroupRule,
            CDDLTypeView::Group(_) => Kind::Group,
            CDDLTypeView::GroupChoice(_) => Kind::GroupChoice,
            CDDLTypeView::GenericParams(_) => Kind::GenericParams,
            CDDLTypeView::GenericParam(_) => Kind::GenericParam,
            CDDLTypeView::GenericArgs(_) => Kind::GenericArgs,
            CDDLTypeView::GenericArg(_) => Kind::GenericArg,
            CDDLTypeView::GroupEntry(_) => Kind::GroupEntry,
            CDDLTypeView::Identifier(_) => Kind::Identifier,
            CDDLTypeView::Type(_) => Kind::Type,
            CDDLTypeView::TypeChoice(_) => Kind::TypeChoice,
            CDDLTypeView::Type1(_) => Kind::Type1,
            CDDLTypeView::Type2(_) => Kind::Type2,
            CDDLTypeView::Operator(_) => Kind::Operator,
            CDDLTypeView::Occurrence(_) => Kind::Occurrence,
            CDDLTypeView::Occur(_) => Kind::Occur,
            CDDLTypeView::Value(_) => Kind::Value,
            CDDLTypeView::ValueMemberKeyEntry(_) => Kind::ValueMemberKeyEntry,
            CDDLTypeView::TypeGroupnameEntry(_) => Kind::TypeGroupnameEntry,
            CDDLTypeView::MemberKey(_) => Kind::MemberKey,
            CDDLTypeView::NonMemberKey(_) => Kind::NonMemberKey,
        }
    }
}

impl<'a> CDDLType<'a> {
    /// The kind of the node.
    pub fn kind(&self) -> (k: Kind)
        ensures
            k == self@.kind(),
    {
        match self {
            CDDLType::CDDL(_) => Kind::CDDL,
            CDDLType::Rule(_) => Kind::Rule,
            CDDLType::TypeRule(_) => Kind::TypeRule,
            CDDLType::GroupRule(_) => Kind::GroupRule,
            CDDLType::Group(_) => Kind::Group,
            CDDLType::GroupChoice(_) => Kind::GroupChoice,
            CDDLType::GenericParams(_) => Kind::GenericParams,
            CDDLType::GenericParam(_) => Kind::GenericParam,
            CDDLType::GenericArgs(_) => Kind::GenericArgs,
            CDDLType::GenericArg(_) => Kind::GenericArg,
            CDDLType::GroupEntry(_) => Kind::GroupEntry,
            CDDLType::Identifier(_) => Kind::Identifier,
            CDDLType::Type(_) => Kind::Type,
            CDDLType::TypeChoice(_) => Kind::TypeChoice,
            CDDLType::Type1(_) => Kind::Type1,
            CDDLType::Type2(_) => Kind::Type2,
            CDDLType::Operator(_) => Kind::Operator,
            CDDLType::Occurrence(_) => Kind::Occurrence,
            CDDLType::Occur(_) => Kind::Occur,
            CDDLType::Value(_) => Kind::Value,
            CDDLType::ValueMemberKeyEntry(_) => Kind::ValueMemberKeyEntry,
            CDDLType::TypeGroupnameEntry(_) => Kind::TypeGroupnameEntry,
            CDDLType::MemberKey(_) => Kind::MemberKey,
            CDDLType::NonMemberKey(_) => Kind::NonMemberKey,
        }
    }
}

/// Whether a node of kind `parent` can hold a node of kind `child`: the
/// containment relation of the grammar.
pub open spec fn may_hold(parent: Kind, child: Kind) -> bool {
    match parent {
        Kind::CDDL => child == Kind::Rule,
        Kind::Rule => child == Kind::TypeRule || child == Kind::GroupRule,
        Kind::TypeRule => {
            child == Kind::Identifier || child == Kind::GenericParams || child == Kind::Type
        },
        Kind::GroupRule => {
            child == Kind::Identifier || child == Kind::GenericParams || child == Kind::GroupEntry
        },
        Kind::Group => child == Kind::GroupChoice,
        Kind::GroupChoice => child == Kind::GroupEntry,
        Kind::GenericParams => child == Kind::GenericParam,
        Kind::GenericParam => child == Kind::Identifier,
        Kind::GenericArgs => child == Kind::GenericArg,
        Kind::GenericArg => child == Kind::Type1,
        Kind::GroupEntry => {
            child == Kind::ValueMemberKeyEntry
                || child == Kind::TypeGroupnameEntry
                || child == Kind::Occurrence
                || child == Kind::Group
        },
        Kind::Identifier => false,
        Kind::Type => child == Kind::TypeChoice,
        Kind::TypeChoice => child == Kind::Type1,
        Kind::Type1 => child == Kind::Operator || child == Kind::Type2,
        Kind::Type2 => {
            child == Kind::Value
                || child == Kind::Identifier
                || child == Kind::GenericArgs
                || child == Kind::Type
                || child == Kind::Group
        },
        Kind::Operator => child == Kind::Type2,
        Kind::Occurrence => child == Kind::Occur,
        Kind::Occur => false,
        Kind::Value => false,
        Kind::ValueMemberKeyEntry => {
            child == Kind::Occurrence || child == Kind::MemberKey || child == Kind::Type
        },
        Kind::TypeGroupnameEntry => {
            child == Kind::Occurrence || child == Kind::GenericArgs || child == Kind::Identifier
        },
        Kind::MemberKey => {
            child == Kind::Type1
                || child == Kind::Identifier
                || child == Kind::Value
                || child == Kind::NonMemberKey
        },
        Kind::NonMemberKey => child == Kind::Group || child == Kind::Type,
    }
}

/// Whether each of the steps goes from a node to a node that it can hold.
pub open spec fn well_kinded(edges: Seq<Edge>) -> bool {
    forall|k: int|
        0 <= k < edges.len() ==> may_hold(
            (#[trigger] edges[k]).parent.kind(),
            edges[k].child.kind(),
        )
}

/// Whether each of the steps that starts at a schema starts at `root`.
pub open spec fn rooted_at(edges: Seq<Edge>, root: CDDLTypeView) -> bool {
    forall|k: int|
        0 <= k < edges.len() ==> ((#[trigger] edges[k]).parent.kind() == Kind::CDDL
            ==> edges[k].parent == root)
}

/// Steps that start at no other schema than `root`, one after the other,
/// start at no other schema than `root`.
pub proof fn lemma_rooted_at_concat(first: Seq<Edge>, second: Seq<Edge>, root: CDDLTypeView)
    requires
        rooted_at(first, root),
        rooted_at(second, root),
    ensures
        rooted_at(first + second, root),
{
    let both = first + second;
    assert forall|k: int|
        0 <= k < both.len()
            && (#[trigger] both[k]).parent.kind() == Kind::CDDL implies both[k].parent
        == root by {
        if k < first.len() {
            assert(both[k] == first[k]);
        } else {
            assert(both[k] == second[k - first.len()]);
        }
    }
}

/// Steps that are well kinded, one after the other, are well kinded.
pub proof fn lemma_well_kinded_concat(first: Seq<Edge>, second: Seq<Edge>)
    requires
        well_kinded(first),
        well_kinded(second),
    ensures
        well_kinded(first + second),
{
    assert forall|k: int| 0 <= k < (first + second).len() implies may_hold(
        (#[trigger] (first + second)[k]).parent.kind(),
        (first + second)[k].child.kind(),
    ) by {
        if k < first.len() {
            assert((first + second)[k] == first[k]);
        } else {
            assert((first + second)[k] == second[k - first.len()]);
        }
    }
}

/// The walk of a schema goes from each node to nodes that it can hold, and
/// starts at no other schema than the one that it is below.
pub proof fn lemma_cddl_edges_well_kinded(x: CDDLView)
    ensures
        well_kinded(cddl_edges(x)),
        rooted_at(cddl_edges(x), CDDLTypeView::CDDL(x)),
    decreases x, x.rules.len() + 1,
{
    lemma_cddl_edges_upto_well_kinded(x, x.rules.len());
}

/// The steps that the walk has recorded once it is done with the first `n`
/// children of the node go from each node to nodes that it can hold, and
/// start at no other schema than the one that the walk is below.
pub proof fn lemma_cddl_edges_upto_well_kinded(x: CDDLView, n: nat)
    ensures
        well_kinded(cddl_edges_upto(x, n)),
        rooted_at(cddl_edges_upto(x, n), CDDLTypeView::CDDL(x)),
    decreases x, n,
{
    if !(n == 0 || n > x.rules.len()) {
        let child = x.rules[n - 1];
        lemma_cddl_edges_upto_well_kinded(x, (n - 1) as nat);
        lemma_rule_edges_well_kinded(child, CDDLTypeView::CDDL(x));
        let step = seq![edge(CDDLTypeView::CDDL(x), CDDLTypeView::Rule(child))];
        lemma_well_kinded_concat(cddl_edges_upto(x, (n - 1) as nat), step);
        lemma_well_kinded_concat(
            cddl_edges_upto(x, (n - 1) as nat) + step,
            rule_edges(child),
        );
        lemma_rooted_at_concat(cddl_edges_upto(x, (n - 1) as nat), step, CDDLTypeView::CDDL(x));
        lemma_rooted_at_concat(
            cddl_edges_upto(x, (n - 1) as nat) + step,
            rule_edges(child),
            CDDLTypeView::CDDL(x),
        );
    }
}

/// The walk of a GenericParams goes from each node to nodes that it can hold, and
/// starts at no other schema than the one that it is below.
pub proof fn lemma_generic_params_edges_well_kinded(x: GenericParamsView, root: CDDLTypeView)
    ensures
        well_kinded(generic_params_edges(x)),
        rooted_at(generic_params_edges(x), root),
    decreases x, x.params.len() + 1,
{
    lemma_generic_params_edges_upto_well_kinded(x, x.params.len(), root);
}

/// The steps that the walk has recorded once it is done with the first `n`
/// children of the node go from each node to nodes that it can hold, and
/// start at no other schema than the one that the walk is below.
pub proof fn lemma_generic_params_edges_upto_well_kinded(
    x: GenericParamsView,
    n: nat,
    root: CDDLTypeView,
)
    ensures
        well_kinded(generic_params_edges_upto(x, n)),
        rooted_at(generic_params_edges_upto(x, n), root),
    decreases x, n,
{
    if !(n == 0 || n > x.params.len()) {
        let child = x.params[n - 1];
        lemma_generic_params_edges_upto_well_kinded(x, (n - 1) as nat, root);
        lemma_generic_param_edges_well_kinded(child, root);
        let step = seq![edge(CDDLTypeView::GenericParams(x), CDDLTypeView::GenericParam(child))];
        lemma_well_kinded_concat(generic_params_edges_upto(x, (n - 1) as nat), step);
        lemma_well_kinded_concat(
            generic_params_edges_upto(x, (n - 1) as nat) + step,
            generic_param_edges(child),
        );
        lemma_rooted_at_concat(generic_params_edges_upto(x, (n - 1) as nat), step, root);
        lemma_rooted_at_concat(
            generic_params_edges_upto(x, (n - 1) as nat) + step,
            generic_param_edges(child),
            root,
        );
    }
}

/// The walk of a GenericArgs goes from each node to nodes that it can hold, and
/// starts at no other schema than the one that it is below.
pub proof fn lemma_generic_args_edges_well_kinded(x: GenericArgsView, root: CDDLTypeView)
    ensures
        well_kinded(generic_args_edges(x)),
        rooted_at(generic_args_edges(x), root),
    decreases x, x.args.len() + 1,
{
    lemma_generic_args_edges_upto_well_kinded(x, x.args.len(), root);
}

/// The steps that the walk has recorded once it is done with the first `n`
/// children of the node go from each node to nodes that it can hold, and
/// start at no other schema than the one that the walk is below.
pub proof fn lemma_generic_args_edges_upto_well_kinded(
    x: GenericArgsView,
    n: nat,
    root: CDDLTypeView,
)
    ensures
        well_kinded(generic_args_edges_upto(x, n)),
        rooted_at(generic_args_edges_upto(x, n), root),
    decreases x, n,
{
    if !(n == 0 || n > x.args.len()) {
        let child = x.args[n - 1];
        lemma_generic_args_edges_upto_well_kinded(x, (n - 1) as nat, root);
        lemma_generic_arg_edges_well_kinded(child, root);
        let step = seq![edge(CDDLTypeView::GenericArgs(x), CDDLTypeView::GenericArg(child))];
        lemma_well_kinded_concat(generic_args_edges_upto(x, (n - 1) as nat), step);
        lemma_well_kinded_concat(
            generic_args_edges_upto(x, (n - 1) as nat) + step,
            generic_arg_edges(child),
        );
        lemma_rooted_at_concat(generic_args_edges_upto(x, (n - 1) as nat), step, root);
        lemma_rooted_at_concat(
            generic_args_edges_upto(x, (n - 1) as nat) + step,
            generic_arg_edges(child),
            root,
        );
    }
}

/// The walk of a Type goes from each node to nodes that it can hold, and
/// starts at no other schema than the one that it is below.
pub proof fn lemma_type_edges_well_kinded(x: TypeView, root: CDDLTypeView)
    ensures
        well_kinded(type_edges(x)),
        rooted_at(type_edges(x), root),
    decreases x, x.type_choices.len() + 1,
{
    lemma_type_edges_upto_well_kinded(x, x.type_choices.len(), root);
}

/// The steps that the walk has recorded once it is done with the first `n`
/// children of the node go from each node to nodes that it can hold, and
/// start at no other schema than the one that the walk is below.
pub proof fn lemma_type_edges_upto_well_kinded(x: TypeView, n: nat, root: CDDLTypeView)
    ensures
        well_kinded(type_edges_upto(x, n)),
        rooted_at(type_edges_upto(x, n), root),
    decreases x, n,
{
    if !(n == 0 || n > x.type_choices.len()) {
        let child = x.type_choices[n - 1];
        lemma_type_edges_upto_well_kinded(x, (n - 1) as nat, root);
        lemma_type_choice_edges_well_kinded(child, root);
        let step = seq![edge(CDDLTypeView::Type(x), CDDLTypeView::TypeChoice(child))];
        lemma_well_kinded_concat(type_edges_upto(x, (n - 1) as nat), step);
        lemma_well_kinded_concat(
            type_edges_upto(x, (n - 1) as nat) + step,
            type_choice_edges(child),
        );
        lemma_rooted_at_concat(type_edges_upto(x, (n - 1) as nat), step, root);
        lemma_rooted_at_concat(
            type_edges_upto(x, (n - 1) as nat) + step,
            type_choice_edges(child),
            root,
        );
    }
}

/// The walk of a Group goes from each node to nodes that it can hold, and
/// starts at no other schema than the one that it is below.
pub proof fn lemma_group_edges_well_kinded(x: GroupView, root: CDDLTypeView)
    ensures
        well_kinded(group_edges(x)),
        rooted_at(group_edges(x), root),
    decreases x, x.group_choices.len() + 1,
{
    lemma_group_edges_upto_well_kinded(x, x.group_choices.len(), root);
}

/// The steps that the walk has recorded once it is done with the first `n`
/// children of the node go from each node to nodes that it can hold, and
/// start at no other schema than the one that the walk is below.
pub proof fn lemma_group_edges_upto_well_kinded(x: GroupView, n: nat, root: CDDLTypeView)
    ensures
        well_kinded(group_edges_upto(x, n)),
        rooted_at(group_edges_upto(x, n), root),
    decreases x, n,
{
    if !(n == 0 || n > x.group_choices.len()) {
        let child = x.group_choices[n - 1];
        lemma_group_edges_upto_well_kinded(x, (n - 1) as nat, root);
        lemma_group_choice_edges_well_kinded(child, root);
        let step = seq![edge(CDDLTypeView::Group(x), CDDLTypeView::GroupChoice(child))];
        lemma_well_kinded_concat(group_edges_upto(x, (n - 1) as nat), step);
        lemma_well_kinded_concat(
            group_edges_upto(x, (n - 1) as nat) + step,
            group_choice_edges(child),
        );
        lemma_rooted_at_concat(group_edges_upto(x, (n - 1) as nat), step, root);
        lemma_rooted_at_concat(
            group_edges_upto(x, (n - 1) as nat) + step,
            group_choice_edges(child),
            root,
        );
    }
}

/// The walk of a GroupChoice goes from each node to nodes that it can hold, and
/// starts at no other schema than the one that it is below.
pub proof fn lemma_group_choice_edges_well_kinded(x: GroupChoiceView, root: CDDLTypeView)
    ensures
        well_kinded(group_choice_edges(x)),
        rooted_at(group_choice_edges(x), root),
    decreases x, x.group_entries.len() + 1,
{
    lemma_group_choice_edges_upto_well_kinded(x, x.group_entries.len(), root);
}

/// The steps that the walk has recorded once it is done with the first `n`
/// children of the node go from each node to nodes that it can hold, and
/// start at no other schema than the one that the walk is below.
pub proof fn lemma_group_choice_edges_upto_well_kinded(
    x: GroupChoiceView,
    n: nat,
    root: CDDLTypeView,
)
    ensures
        well_kinded(group_choice_edges_upto(x, n)),
        rooted_at(group_choice_edges_upto(x, n), root),
    decreases x, n,
{
    if !(n == 0 || n > x.group_entries.len()) {
        let child = x.group_entries[n - 1].0;
        lemma_group_choice_edges_upto_well_kinded(x, (n - 1) as nat, root);
        lemma_group_entry_edges_well_kinded(child, root);
        let step = seq![edge(CDDLTypeView::GroupChoice(x), CDDLTypeView::GroupEntry(child))];
        lemma_well_kinded_concat(group_choice_edges_upto(x, (n - 1) as nat), step);
        lemma_well_kinded_concat(
            group_choice_edges_upto(x, (n - 1) as nat) + step,
            group_entry_edges(child),
        );
        lemma_rooted_at_concat(group_choice_edges_upto(x, (n - 1) as nat), step, root);
        lemma_rooted_at_concat(
            group_choice_edges_upto(x, (n - 1) as nat) + step,
            group_entry_edges(child),
            root,
        );
    }
}

/// The walk of a rule goes from each node to nodes that it can hold, and
/// starts at no other schema than the one that it is below.
pub proof fn lemma_rule_edges_well_kinded(x: RuleView, root: CDDLTypeView)
    ensures
        well_kinded(rule_edges(x)),
        rooted_at(rule_edges(x), root),
    decreases x, 0nat,
{
    let p = CDDLTypeView::Rule(x);
    match x {
        RuleView::Type { rule } => {
            lemma_type_rule_edges_well_kinded(rule, root);
            lemma_well_kinded_concat(
                seq![edge(p, CDDLTypeView::TypeRule(rule))],
                type_rule_edges(rule),
            );
            lemma_rooted_at_concat(
                seq![edge(p, CDDLTypeView::TypeRule(rule))],
                type_rule_edges(rule),
                root,
            );
            let part0 = seq![edge(p, CDDLTypeView::TypeRule(rule))] + type_rule_edges(rule);
            assert(well_kinded(part0) && rooted_at(part0, root));
        },
        RuleView::Group { rule } => {
            lemma_group_rule_edges_well_kinded(rule, root);
            lemma_well_kinded_concat(
                seq![edge(p, CDDLTypeView::GroupRule(rule))],
                group_rule_edges(rule),
            );
            lemma_rooted_at_concat(
                seq![edge(p, CDDLTypeView::GroupRule(rule))],
                group_rule_edges(rule),
                root,
            );
            let part0 = seq![edge(p, CDDLTypeView::GroupRule(rule))] + group_rule_edges(rule);
            assert(well_kinded(part0) && rooted_at(part0, root));
        },
    }
}

/// The walk of a type rule goes from each node to nodes that it can hold, and
/// starts at no other schema than the one that it is below.
pub proof fn lemma_type_rule_edges_well_kinded(x: TypeRuleView, root: CDDLTypeView)
    ensures
        well_kinded(type_rule_edges(x)),
        rooted_at(type_rule_edges(x), root),
    decreases x, 0nat,
{
    let p = CDDLTypeView::TypeRule(x);
    let part0 = seq![edge(p, CDDLTypeView::Identifier(x.name))];
    assert(well_kinded(part0) && rooted_at(part0, root));
    if let Some(y) = x.generic_params {
        lemma_generic_params_edges_well_kinded(y, root);
        lemma_well_kinded_concat(
            seq![edge(p, CDDLTypeView::GenericParams(y))],
            generic_params_edges(y),
        );
        lemma_rooted_at_concat(
            seq![edge(p, CDDLTypeView::GenericParams(y))],
            generic_params_edges(y),
            root,
        );
    }
    let part1 = (match x.generic_params {
        Some(y) => seq![edge(p, CDDLTypeView::GenericParams(y))] + generic_params_edges(y),
        None => Seq::empty(),
    });
    assert(well_kinded(part1) && rooted_at(part1, root));
    lemma_type_edges_well_kinded(x.value, root);
    lemma_well_kinded_concat(seq![edge(p, CDDLTypeView::Type(x.value))], type_edges(x.value));
    lemma_rooted_at_concat(seq![edge(p, CDDLTypeView::Type(x.value))], type_edges(x.value), root);
    let part2 = seq![edge(p, CDDLTypeView::Type(x.value))] + type_edges(x.value);
    assert(well_kinded(part2) && rooted_at(part2, root));
    lemma_well_kinded_concat(part0, part1);
    lemma_rooted_at_concat(part0, part1, root);
    lemma_well_kinded_concat(part0 + part1, part2);
    lemma_rooted_at_concat(part0 + part1, part2, root);
}

/// The walk of a group rule goes from each node to nodes that it can hold, and
/// starts at no other schema than the one that it is below.
pub proof fn lemma_group_rule_edges_well_kinded(x: GroupRuleView, root: CDDLTypeView)
    ensures
        well_kinded(group_rule_edges(x)),
        rooted_at(group_rule_edges(x), root),
    decreases x, 0nat,
{
    let p = CDDLTypeView::GroupRule(x);
    let part0 = seq![edge(p, CDDLTypeView::Identifier(x.name))];
    assert(well_kinded(part0) && rooted_at(part0, root));
    if let Some(y) = x.generic_params {
        lemma_generic_params_edges_well_kinded(y, root);
        lemma_well_kinded_concat(
            seq![edge(p, CDDLTypeView::GenericParams(y))],
            generic_params_edges(y),
        );
        lemma_rooted_at_concat(
            seq![edge(p, CDDLTypeView::GenericParams(y))],
            generic_params_edges(y),
            root,
        );
    }
    let part1 = (match x.generic_params {
        Some(y) => seq![edge(p, CDDLTypeView::GenericParams(y))] + generic_params_edges(y),
        None => Seq::empty(),
    });
    assert(well_kinded(part1) && rooted_at(part1, root));
    lemma_group_entry_edges_well_kinded(x.entry, root);
    lemma_well_kinded_concat(
        seq![edge(p, CDDLTypeView::GroupEntry(x.entry))],
        group_entry_edges(x.entry),
    );
    lemma_rooted_at_concat(
        seq![edge(p, CDDLTypeView::GroupEntry(x.entry))],
        group_entry_edges(x.entry),
        root,
    );
    let part2 = seq![edge(p, CDDLTypeView::GroupEntry(x.entry))] + group_entry_edges(x.entry);
    assert(well_kinded(part2) && rooted_at(part2, root));
    lemma_well_kinded_concat(part0, part1);
    lemma_rooted_at_concat(part0, part1, root);
    lemma_well_kinded_concat(part0 + part1, part2);
    lemma_rooted_at_concat(part0 + part1, part2, root);
}

/// The walk of a parameter goes from each node to nodes that it can hold, and
/// starts at no other schema than the one that it is below.
pub proof fn lemma_generic_param_edges_well_kinded(x: GenericParamView, root: CDDLTypeView)
    ensures
        well_kinded(generic_param_edges(x)),
        rooted_at(generic_param_edges(x), root),
    decreases x, 0nat,
{
    let p = CDDLTypeView::GenericParam(x);
    let part0 = seq![edge(p, CDDLTypeView::Identifier(x.param))];
    assert(well_kinded(part0) && rooted_at(part0, root));
}

/// The walk of an argument goes from each node to nodes that it can hold, and
/// starts at no other schema than the one that it is below.
pub proof fn lemma_generic_arg_edges_well_kinded(x: GenericArgView, root: CDDLTypeView)
    ensures
        well_kinded(generic_arg_edges(x)),
        rooted_at(generic_arg_edges(x), root),
    decreases x, 0nat,
{
    let p = CDDLTypeView::GenericArg(x);
    lemma_type1_edges_well_kinded(x.arg, root);
    lemma_well_kinded_concat(seq![edge(p, CDDLTypeView::Type1(x.arg))], type1_edges(x.arg));
    lemma_rooted_at_concat(seq![edge(p, CDDLTypeView::Type1(x.arg))], type1_edges(x.arg), root);
    let part0 = seq![edge(p, CDDLTypeView::Type1(x.arg))] + type1_edges(x.arg);
    assert(well_kinded(part0) && rooted_at(part0, root));
}

/// The walk of a type choice goes from each node to nodes that it can hold, and
/// starts at no other schema than the one that it is below.
pub proof fn lemma_type_choice_edges_well_kinded(x: TypeChoiceView, root: CDDLTypeView)
    ensures
        well_kinded(type_choice_edges(x)),
        rooted_at(type_choice_edges(x), root),
    decreases x, 0nat,
{
    let p = CDDLTypeView::TypeChoice(x);
    lemma_type1_edges_well_kinded(x.type1, root);
    lemma_well_kinded_concat(seq![edge(p, CDDLTypeView::Type1(x.type1))], type1_edges(x.type1));
    lemma_rooted_at_concat(seq![edge(p, CDDLTypeView::Type1(x.type1))], type1_edges(x.type1), root);
    let part0 = seq![edge(p, CDDLTypeView::Type1(x.type1))] + type1_edges(x.type1);
    assert(well_kinded(part0) && rooted_at(part0, root));
}

/// The walk of a `Type1` goes from each node to nodes that it can hold, and
/// starts at no other schema than the one that it is below.
pub proof fn lemma_type1_edges_well_kinded(x: Type1View, root: CDDLTypeView)
    ensures
        well_kinded(type1_edges(x)),
        rooted_at(type1_edges(x), root),
    decreases x, 0nat,
{
    let p = CDDLTypeView::Type1(x);
    if let Some(y) = x.operator {
        lemma_operator_edges_well_kinded(y, root);
        lemma_well_kinded_concat(seq![edge(p, CDDLTypeView::Operator(y))], operator_edges(y));
        lemma_rooted_at_concat(seq![edge(p, CDDLTypeView::Operator(y))], operator_edges(y), root);
    }
    let part0 = (match x.operator {
        Some(y) => seq![edge(p, CDDLTypeView::Operator(y))] + operator_edges(y),
        None => Seq::empty(),
    });
    assert(well_kinded(part0) && rooted_at(part0, root));
    lemma_type2_edges_well_kinded(x.type2, root);
    lemma_well_kinded_concat(seq![edge(p, CDDLTypeView::Type2(x.type2))], type2_edges(x.type2));
    lemma_rooted_at_concat(seq![edge(p, CDDLTypeView::Type2(x.type2))], type2_edges(x.type2), root);
    let part1 = seq![edge(p, CDDLTypeView::Type2(x.type2))] + type2_edges(x.type2);
    assert(well_kinded(part1) && rooted_at(part1, root));
    lemma_well_kinded_concat(part0, part1);
    lemma_rooted_at_concat(part0, part1, root);
}

/// The walk of an operator goes from each node to nodes that it can hold, and
/// starts at no other schema than the one that it is below.
pub proof fn lemma_operator_edges_well_kinded(x: OperatorView, root: CDDLTypeView)
    ensures
        well_kinded(operator_edges(x)),
        rooted_at(operator_edges(x), root),
    decreases x, 0nat,
{
    let p = CDDLTypeView::Operator(x);
    lemma_type2_edges_well_kinded(x.type2, root);
    lemma_well_kinded_concat(seq![edge(p, CDDLTypeView::Type2(x.type2))], type2_edges(x.type2));
    lemma_rooted_at_concat(seq![edge(p, CDDLTypeView::Type2(x.type2))], type2_edges(x.type2), root);
    let part0 = seq![edge(p, CDDLTypeView::Type2(x.type2))] + type2_edges(x.type2);
    assert(well_kinded(part0) && rooted_at(part0, root));
}

/// The walk of a basic type goes from each node to nodes that it can hold, and
/// starts at no other schema than the one that it is below.
pub proof fn lemma_type2_edges_well_kinded(x: Type2View, root: CDDLTypeView)
    ensures
        well_kinded(type2_edges(x)),
        rooted_at(type2_edges(x), root),
    decreases x, 0nat,
{
    let p = CDDLTypeView::Type2(x);
    match x {
        Type2View::Typename { ident, generic_args } => {
            let part0 = seq![edge(p, CDDLTypeView::Identifier(ident))];
            assert(well_kinded(part0) && rooted_at(part0, root));
            if let Some(y) = generic_args {
                lemma_generic_args_edges_well_kinded(y, root);
                lemma_well_kinded_concat(
                    seq![edge(p, CDDLTypeView::GenericArgs(y))],
                    generic_args_edges(y),
                );
                lemma_rooted_at_concat(
                    seq![edge(p, CDDLTypeView::GenericArgs(y))],
                    generic_args_edges(y),
                    root,
                );
            }
            let part1 = (match generic_args {
                Some(y) => seq![edge(p, CDDLTypeView::GenericArgs(y))] + generic_args_edges(y),
                None => Seq::empty(),
            });
            assert(well_kinded(part1) && rooted_at(part1, root));
            lemma_well_kinded_concat(part0, part1);
            lemma_rooted_at_concat(part0, part1, root);
        },
        Type2View::ParenthesizedType { pt } => {
            lemma_type_edges_well_kinded(pt, root);
            lemma_well_kinded_concat(seq![edge(p, CDDLTypeView::Type(pt))], type_edges(pt));
            lemma_rooted_at_concat(seq![edge(p, CDDLTypeView::Type(pt))], type_edges(pt), root);
            let part0 = seq![edge(p, CDDLTypeView::Type(pt))] + type_edges(pt);
            assert(well_kinded(part0) && rooted_at(part0, root));
        },
        Type2View::MapType { group } => {
            lemma_group_edges_well_kinded(group, root);
            lemma_well_kinded_concat(seq![edge(p, CDDLTypeView::Group(group))], group_edges(group));
            lemma_rooted_at_concat(
                seq![edge(p, CDDLTypeView::Group(group))],
                group_edges(group),
                root,
            );
            let part0 = seq![edge(p, CDDLTypeView::Group(group))] + group_edges(group);
            assert(well_kinded(part0) && rooted_at(part0, root));
        },
        Type2View::Array { group } => {
            lemma_group_edges_well_kinded(group, root);
            lemma_well_kinded_concat(seq![edge(p, CDDLTypeView::Group(group))], group_edges(group));
            lemma_rooted_at_concat(
                seq![edge(p, CDDLTypeView::Group(group))],
                group_edges(group),
                root,
            );
            let part0 = seq![edge(p, CDDLTypeView::Group(group))] + group_edges(group);
            assert(well_kinded(part0) && rooted_at(part0, root));
        },
        Type2View::Unwrap { ident, generic_args } => {
            let part0 = seq![edge(p, CDDLTypeView::Identifier(ident))];
            assert(well_kinded(part0) && rooted_at(part0, root));
            if let Some(y) = generic_args {
                lemma_generic_args_edges_well_kinded(y, root);
                lemma_well_kinded_concat(
                    seq![edge(p, CDDLTypeView::GenericArgs(y))],
                    generic_args_edges(y),
                );
                lemma_rooted_at_concat(
                    seq![edge(p, CDDLTypeView::GenericArgs(y))],
                    generic_args_edges(y),
                    root,
                );
            }
            let part1 = (match generic_args {
                Some(y) => seq![edge(p, CDDLTypeView::GenericArgs(y))] + generic_args_edges(y),
                None => Seq::empty(),
            });
            assert(well_kinded(part1) && rooted_at(part1, root));
            lemma_well_kinded_concat(part0, part1);
            lemma_rooted_at_concat(part0, part1, root);
        },
        Type2View::ChoiceFromInlineGroup { group } => {
            lemma_group_edges_well_kinded(group, root);
            lemma_well_kinded_concat(seq![edge(p, CDDLTypeView::Group(group))], group_edges(group));
            lemma_rooted_at_concat(
                seq![edge(p, CDDLTypeView::Group(group))],
                group_edges(group),
                root,
            );
            let part0 = seq![edge(p, CDDLTypeView::Group(group))] + group_edges(group);
            assert(well_kinded(part0) && rooted_at(part0, root));
        },
        Type2View::ChoiceFromGroup { ident, generic_args } => {
            let part0 = seq![edge(p, CDDLTypeView::Identifier(ident))];
            assert(well_kinded(part0) && rooted_at(part0, root));
            if let Some(y) = generic_args {
                lemma_generic_args_edges_well_kinded(y, root);
                lemma_well_kinded_concat(
                    seq![edge(p, CDDLTypeView::GenericArgs(y))],
                    generic_args_edges(y),
                );
                lemma_rooted_at_concat(
                    seq![edge(p, CDDLTypeView::GenericArgs(y))],
                    generic_args_edges(y),
                    root,
                );
            }
            let part1 = (match generic_args {
                Some(y) => seq![edge(p, CDDLTypeView::GenericArgs(y))] + generic_args_edges(y),
                None => Seq::empty(),
            });
            assert(well_kinded(part1) && rooted_at(part1, root));
            lemma_well_kinded_concat(part0, part1);
            lemma_rooted_at_concat(part0, part1, root);
        },
        Type2View::TaggedData { tag, t } => {
            lemma_type_edges_well_kinded(t, root);
            lemma_well_kinded_concat(seq![edge(p, CDDLTypeView::Type(t))], type_edges(t));
            lemma_rooted_at_concat(seq![edge(p, CDDLTypeView::Type(t))], type_edges(t), root);
            let part0 = seq![edge(p, CDDLTypeView::Type(t))] + type_edges(t);
            assert(well_kinded(part0) && rooted_at(part0, root));
        },
        _ => {},
    }
}

/// The walk of a group entry goes from each node to nodes that it can hold, and
/// starts at no other schema than the one that it is below.
pub proof fn lemma_group_entry_edges_well_kinded(x: GroupEntryView, root: CDDLTypeView)
    ensures
        well_kinded(group_entry_edges(x)),
        rooted_at(group_entry_edges(x), root),
    decreases x, 0nat,
{
    let p = CDDLTypeView::GroupEntry(x);
    match x {
        GroupEntryView::ValueMemberKey { ge } => {
            lemma_value_member_key_entry_edges_well_kinded(ge, root);
            lemma_well_kinded_concat(
                seq![edge(p, CDDLTypeView::ValueMemberKeyEntry(ge))],
                value_member_key_entry_edges(ge),
            );
            lemma_rooted_at_concat(
                seq![edge(p, CDDLTypeView::ValueMemberKeyEntry(ge))],
                value_member_key_entry_edges(ge),
                root,
            );
            let part0 = seq![edge(p, CDDLTypeView::ValueMemberKeyEntry(ge))]
                + value_member_key_entry_edges(ge);
            assert(well_kinded(part0) && rooted_at(part0, root));
        },
        GroupEntryView::TypeGroupname { ge } => {
            lemma_type_groupname_entry_edges_well_kinded(ge, root);
            lemma_well_kinded_concat(
                seq![edge(p, CDDLTypeView::TypeGroupnameEntry(ge))],
                type_groupname_entry_edges(ge),
            );
            lemma_rooted_at_concat(
                seq![edge(p, CDDLTypeView::TypeGroupnameEntry(ge))],
                type_groupname_entry_edges(ge),
                root,
            );
            let part0 = seq![edge(p, CDDLTypeView::TypeGroupnameEntry(ge))]
                + type_groupname_entry_edges(ge);
            assert(well_kinded(part0) && rooted_at(part0, root));
        },
        GroupEntryView::InlineGroup { occur, group } => {
            if let Some(y) = occur {
                lemma_occurrence_edges_well_kinded(y, root);
                lemma_well_kinded_concat(
                    seq![edge(p, CDDLTypeView::Occurrence(y))],
                    occurrence_edges(y),
                );
                lemma_rooted_at_concat(
                    seq![edge(p, CDDLTypeView::Occurrence(y))],
                    occurrence_edges(y),
                    root,
                );
            }
            let part0 = (match occur {
                Some(y) => seq![edge(p, CDDLTypeView::Occurrence(y))] + occurrence_edges(y),
                None => Seq::empty(),
            });
            assert(well_kinded(part0) && rooted_at(part0, root));
            lemma_group_edges_well_kinded(group, root);
            lemma_well_kinded_concat(seq![edge(p, CDDLTypeView::Group(group))], group_edges(group));
            lemma_rooted_at_concat(
                seq![edge(p, CDDLTypeView::Group(group))],
                group_edges(group),
                root,
            );
            let part1 = seq![edge(p, CDDLTypeView::Group(group))] + group_edges(group);
            assert(well_kinded(part1) && rooted_at(part1, root));
            lemma_well_kinded_concat(part0, part1);
            lemma_rooted_at_concat(part0, part1, root);
        },
    }
}

/// The walk of an entry with a key goes from each node to nodes that it can hold, and
/// starts at no other schema than the one that it is below.
pub proof fn lemma_value_member_key_entry_edges_well_kinded(
    x: ValueMemberKeyEntryView,
    root: CDDLTypeView,
)
    ensures
        well_kinded(value_member_key_entry_edges(x)),
        rooted_at(value_member_key_entry_edges(x), root),
    decreases x, 0nat,
{
    let p = CDDLTypeView::ValueMemberKeyEntry(x);
    if let Some(y) = x.occur {
        lemma_occurrence_edges_well_kinded(y, root);
        lemma_well_kinded_concat(seq![edge(p, CDDLTypeView::Occurrence(y))], occurrence_edges(y));
        lemma_rooted_at_concat(
            seq![edge(p, CDDLTypeView::Occurrence(y))],
            occurrence_edges(y),
            root,
        );
    }
    let part0 = (match x.occur {
        Some(y) => seq![edge(p, CDDLTypeView::Occurrence(y))] + occurrence_edges(y),
        None => Seq::empty(),
    });
    assert(well_kinded(part0) && rooted_at(part0, root));
    if let Some(y) = x.member_key {
        lemma_member_key_edges_well_kinded(y, root);
        lemma_well_kinded_concat(seq![edge(p, CDDLTypeView::MemberKey(y))], member_key_edges(y));
        lemma_rooted_at_concat(
            seq![edge(p, CDDLTypeView::MemberKey(y))],
            member_key_edges(y),
            root,
        );
    }
    let part1 = (match x.member_key {
        Some(y) => seq![edge(p, CDDLTypeView::MemberKey(y))] + member_key_edges(y),
        None => Seq::empty(),
    });
    assert(well_kinded(part1) && rooted_at(part1, root));
    lemma_type_edges_well_kinded(x.entry_type, root);
    lemma_well_kinded_concat(
        seq![edge(p, CDDLTypeView::Type(x.entry_type))],
        type_edges(x.entry_type),
    );
    lemma_rooted_at_concat(
        seq![edge(p, CDDLTypeView::Type(x.entry_type))],
        type_edges(x.entry_type),
        root,
    );
    let part2 = seq![edge(p, CDDLTypeView::Type(x.entry_type))] + type_edges(x.entry_type);
    assert(well_kinded(part2) && rooted_at(part2, root));
    lemma_well_kinded_concat(part0, part1);
    lemma_rooted_at_concat(part0, part1, root);
    lemma_well_kinded_concat(part0 + part1, part2);
    lemma_rooted_at_concat(part0 + part1, part2, root);
}

/// The walk of an entry that is a name goes from each node to nodes that it can hold, and
/// starts at no other schema than the one that it is below.
pub proof fn lemma_type_groupname_entry_edges_well_kinded(
    x: TypeGroupnameEntryView,
    root: CDDLTypeView,
)
    ensures
        well_kinded(type_groupname_entry_edges(x)),
        rooted_at(type_groupname_entry_edges(x), root),
    decreases x, 0nat,
{
    let p = CDDLTypeView::TypeGroupnameEntry(x);
    if let Some(y) = x.occur {
        lemma_occurrence_edges_well_kinded(y, root);
        lemma_well_kinded_concat(seq![edge(p, CDDLTypeView::Occurrence(y))], occurrence_edges(y));
        lemma_rooted_at_concat(
            seq![edge(p, CDDLTypeView::Occurrence(y))],
            occurrence_edges(y),
            root,
        );
    }
    let part0 = (match x.occur {
        Some(y) => seq![edge(p, CDDLTypeView::Occurrence(y))] + occurrence_edges(y),
        None => Seq::empty(),
    });
    assert(well_kinded(part0) && rooted_at(part0, root));
    if let Some(y) = x.generic_args {
        lemma_generic_args_edges_well_kinded(y, root);
        lemma_well_kinded_concat(
            seq![edge(p, CDDLTypeView::GenericArgs(y))],
            generic_args_edges(y),
        );
        lemma_rooted_at_concat(
            seq![edge(p, CDDLTypeView::GenericArgs(y))],
            generic_args_edges(y),
            root,
        );
    }
    let part1 = (match x.generic_args {
        Some(y) => seq![edge(p, CDDLTypeView::GenericArgs(y))] + generic_args_edges(y),
        None => Seq::empty(),
    });
    assert(well_kinded(part1) && rooted_at(part1, root));
    let part2 = seq![edge(p, CDDLTypeView::Identifier(x.name))];
    assert(well_kinded(part2) && rooted_at(part2, root));
    lemma_well_kinded_concat(part0, part1);
    lemma_rooted_at_concat(part0, part1, root);
    lemma_well_kinded_concat(part0 + part1, part2);
    lemma_rooted_at_concat(part0 + part1, part2, root);
}

/// The walk of an occurrence indicator goes from each node to nodes that it can hold, and
/// starts at no other schema than the one that it is below.
pub proof fn lemma_occurrence_edges_well_kinded(x: OccurrenceView, root: CDDLTypeView)
    ensures
        well_kinded(occurrence_edges(x)),
        rooted_at(occurrence_edges(x), root),
    decreases x, 0nat,
{
}

/// The walk of a key goes from each node to nodes that it can hold, and
/// starts at no other schema than the one that it is below.
pub proof fn lemma_member_key_edges_well_kinded(x: MemberKeyView, root: CDDLTypeView)
    ensures
        well_kinded(member_key_edges(x)),
        rooted_at(member_key_edges(x), root),
    decreases x, 0nat,
{
    let p = CDDLTypeView::MemberKey(x);
    match x {
        MemberKeyView::Type1 { t1, is_cut } => {
            lemma_type1_edges_well_kinded(t1, root);
            lemma_well_kinded_concat(seq![edge(p, CDDLTypeView::Type1(t1))], type1_edges(t1));
            lemma_rooted_at_concat(seq![edge(p, CDDLTypeView::Type1(t1))], type1_edges(t1), root);
            let part0 = seq![edge(p, CDDLTypeView::Type1(t1))] + type1_edges(t1);
            assert(well_kinded(part0) && rooted_at(part0, root));
        },
        MemberKeyView::NonMemberKey { non_member_key } => {
            lemma_non_member_key_edges_well_kinded(non_member_key, root);
            lemma_well_kinded_concat(
                seq![edge(p, CDDLTypeView::NonMemberKey(non_member_key))],
                non_member_key_edges(non_member_key),
            );
            lemma_rooted_at_concat(
                seq![edge(p, CDDLTypeView::NonMemberKey(non_member_key))],
                non_member_key_edges(non_member_key),
                root,
            );
            let part0 = seq![edge(p, CDDLTypeView::NonMemberKey(non_member_key))]
                + non_member_key_edges(non_member_key);
            assert(well_kinded(part0) && rooted_at(part0, root));
        },
        _ => {},
    }
}

/// The walk of a type or group in key position goes from each node to nodes that it can hold, and
/// starts at no other schema than the one that it is below.
pub proof fn lemma_non_member_key_edges_well_kinded(x: NonMemberKeyView, root: CDDLTypeView)
    ensures
        well_kinded(non_member_key_edges(x)),
        rooted_at(non_member_key_edges(x), root),
    decreases x, 0nat,
{
    let p = CDDLTypeView::NonMemberKey(x);
    match x {
        NonMemberKeyView::Group(g) => {
            lemma_group_edges_well_kinded(g, root);
            lemma_well_kinded_concat(seq![edge(p, CDDLTypeView::Group(g))], group_edges(g));
            lemma_rooted_at_concat(seq![edge(p, CDDLTypeView::Group(g))], group_edges(g), root);
            let part0 = seq![edge(p, CDDLTypeView::Group(g))] + group_edges(g);
            assert(well_kinded(part0) && rooted_at(part0, root));
        },
        NonMemberKeyView::Type(t) => {
            lemma_type_edges_well_kinded(t, root);
            lemma_well_kinded_concat(seq![edge(p, CDDLTypeView::Type(t))], type_edges(t));
            lemma_rooted_at_concat(seq![edge(p, CDDLTypeView::Type(t))], type_edges(t), root);
            let part0 = seq![edge(p, CDDLTypeView::Type(t))] + type_edges(t);
            assert(well_kinded(part0) && rooted_at(part0, root));
        },
    }
}

} // verus!
