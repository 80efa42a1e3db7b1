//! The children of a node.
//!
//! [`CDDLType::children`] gives the children of any node in the order in
//! which the grammar writes them. The walk of a tree visits a node, then each
//! of its children in that order, and with each child all that is below it:
//! [`lemma_walk_goes_through_children`].
use crate::ast::{
    CDDL, CDDLView, GenericArg, GenericArgView, GenericArgs, GenericArgsView, GenericParam,
    GenericParamView, GenericParams, GenericParamsView, Group, GroupChoice, GroupChoiceView,
    GroupEntry, GroupEntryView, GroupRule, GroupRuleView, GroupView, IdentifierView, MemberKey,
    MemberKeyView, NonMemberKey, NonMemberKeyView, Occurrence, OccurrenceView, Operator,
    OperatorView, Rule, RuleView, Type, Type1, Type1View, Type2, Type2View, TypeChoice,
    TypeChoiceView, TypeGroupnameEntry, TypeGroupnameEntryView, TypeRule, TypeRuleView, TypeView,
    ValueMemberKeyEntry, ValueMemberKeyEntryView,
};
use crate::token::Value;
use crate::visitor::{
    cddl_edges, cddl_edges_upto, edge, generic_arg_edges, generic_args_edges,
    generic_args_edges_upto, generic_param_edges, generic_params_edges, generic_params_edges_upto,
    group_choice_edges, group_choice_edges_upto, group_edges, group_edges_upto, group_entry_edges,
    group_rule_edges, literal_of, member_key_edges, non_member_key_edges, occurrence_edges,
    operator_edges, rule_edges, type1_edges, type2_edges, type_choice_edges, type_edges,
    type_edges_upto, type_groupname_entry_edges, type_rule_edges, value_member_key_entry_edges,
    CDDLType, CDDLTypeView, Edge,
};
use vstd::prelude::*;

verus! {

/// The node made of `x` if there is one, as a sequence of no or one node.
pub open spec fn maybe<T>(x: Option<T>, node: spec_fn(T) -> CDDLTypeView) -> Seq<CDDLTypeView> {
    match x {
        Some(y) => seq![node(y)],
        None => Seq::empty(),
    }
}

/// The nodes that a name with generic arguments holds.
pub open spec fn named_children(
    ident: IdentifierView,
    generic_args: Option<GenericArgsView>,
) -> Seq<CDDLTypeView> {
    seq![CDDLTypeView::Identifier(ident)] + maybe(generic_args, |y| CDDLTypeView::GenericArgs(y))
}

/// The children of a node, in the order in which the grammar writes them.
pub open spec fn children_of(node: CDDLTypeView) -> Seq<CDDLTypeView> {
    match node {
        CDDLTypeView::CDDL(x) => Seq::new(x.rules.len(), |i: int| CDDLTypeView::Rule(x.rules[i])),
        CDDLTypeView::Rule(x) => match x {
            RuleView::Type { rule } => seq![CDDLTypeView::TypeRule(rule)],
            RuleView::Group { rule } => seq![CDDLTypeView::GroupRule(rule)],
        },
        CDDLTypeView::TypeRule(x) => {
            seq![CDDLTypeView::Identifier(x.name)]
                + maybe(x.generic_params, |y| CDDLTypeView::GenericParams(y))
                + seq![CDDLTypeView::Type(x.value)]
        },
        CDDLTypeView::GroupRule(x) => {
            seq![CDDLTypeView::Identifier(x.name)]
                + maybe(x.generic_params, |y| CDDLTypeView::GenericParams(y))
                + seq![CDDLTypeView::GroupEntry(x.entry)]
        },
        CDDLTypeView::Group(x) => {
            Seq::new(x.group_choices.len(), |i: int| CDDLTypeView::GroupChoice(x.group_choices[i]))
        },
        CDDLTypeView::GroupChoice(x) => {
            Seq::new(x.group_entries.len(), |i: int| CDDLTypeView::GroupEntry(x.group_entries[i].0))
        },
        CDDLTypeView::GenericParams(x) => {
            Seq::new(x.params.len(), |i: int| CDDLTypeView::GenericParam(x.params[i]))
        },
        CDDLTypeView::GenericParam(x) => seq![CDDLTypeView::Identifier(x.param)],
        CDDLTypeView::GenericArgs(x) => {
            Seq::new(x.args.len(), |i: int| CDDLTypeView::GenericArg(x.args[i]))
        },
        CDDLTypeView::GenericArg(x) => seq![CDDLTypeView::Type1(x.arg)],
        CDDLTypeView::GroupEntry(x) => match x {
            GroupEntryView::ValueMemberKey { ge } => seq![CDDLTypeView::ValueMemberKeyEntry(ge)],
            GroupEntryView::TypeGroupname { ge } => seq![CDDLTypeView::TypeGroupnameEntry(ge)],
            GroupEntryView::InlineGroup { occur, group } => {
                maybe(occur, |y| CDDLTypeView::Occurrence(y)) + seq![CDDLTypeView::Group(group)]
            },
        },
        CDDLTypeView::Identifier(_) => Seq::empty(),
        CDDLTypeView::Type(x) => {
            Seq::new(x.type_choices.len(), |i: int| CDDLTypeView::TypeChoice(x.type_choices[i]))
        },
        CDDLTypeView::TypeChoice(x) => seq![CDDLTypeView::Type1(x.type1)],
        CDDLTypeView::Type1(x) => {
            maybe(x.operator, |y| CDDLTypeView::Operator(y)) + seq![CDDLTypeView::Type2(x.type2)]
        },
        CDDLTypeView::Type2(x) => match literal_of(x) {
            Some(value) => seq![CDDLTypeView::Value(value)],
            None => match x {
                Type2View::Typename { ident, generic_args } => named_children(ident, generic_args),
                Type2View::ParenthesizedType { pt } => seq![CDDLTypeView::Type(pt)],
                Type2View::MapType { group } => seq![CDDLTypeView::Group(group)],
                Type2View::Array { group } => seq![CDDLTypeView::Group(group)],
                Type2View::Unwrap { ident, generic_args } => named_children(ident, generic_args),
                Type2View::ChoiceFromInlineGroup { group } => seq![CDDLTypeView::Group(group)],
                Type2View::ChoiceFromGroup { ident, generic_args } => {
                    named_children(ident, generic_args)
                },
                Type2View::TaggedData { tag, t } => seq![CDDLTypeView::Type(t)],
                _ => Seq::empty(),
            },
        },
        CDDLTypeView::Operator(x) => seq![CDDLTypeView::Type2(x.type2)],
        CDDLTypeView::Occurrence(x) => seq![CDDLTypeView::Occur(x.occur)],
        CDDLTypeView::Occur(_) => Seq::empty(),
        CDDLTypeView::Value(_) => Seq::empty(),
        CDDLTypeView::ValueMemberKeyEntry(x) => {
            maybe(x.occur, |y| CDDLTypeView::Occurrence(y))
                + maybe(x.member_key, |y| CDDLTypeView::MemberKey(y))
                + seq![CDDLTypeView::Type(x.entry_type)]
        },
        CDDLTypeView::TypeGroupnameEntry(x) => {
            maybe(x.occur, |y| CDDLTypeView::Occurrence(y))
                + maybe(x.generic_args, |y| CDDLTypeView::GenericArgs(y))
                + seq![CDDLTypeView::Identifier(x.name)]
        },
        CDDLTypeView::MemberKey(x) => match x {
            MemberKeyView::Type1 { t1, is_cut } => seq![CDDLTypeView::Type1(t1)],
            MemberKeyView::Bareword { ident } => seq![CDDLTypeView::Identifier(ident)],
            MemberKeyView::Value { value } => seq![CDDLTypeView::Value(value)],
            MemberKeyView::NonMemberKey { non_member_key } => {
                seq![CDDLTypeView::NonMemberKey(non_member_key)]
            },
        },
        CDDLTypeView::NonMemberKey(x) => match x {
            NonMemberKeyView::Group(g) => seq![CDDLTypeView::Group(g)],
            NonMemberKeyView::Type(t) => seq![CDDLTypeView::Type(t)],
        },
    }
}

/// The steps of the walk below a node of any kind, in walk order.
pub open spec fn edges_of(node: CDDLTypeView) -> Seq<Edge> {
    match node {
        CDDLTypeView::CDDL(x) => cddl_edges(x),
        CDDLTypeView::Rule(x) => rule_edges(x),
        CDDLTypeView::TypeRule(x) => type_rule_edges(x),
        CDDLTypeView::GroupRule(x) => group_rule_edges(x),
        CDDLTypeView::Group(x) => group_edges(x),
        CDDLTypeView::GroupChoice(x) => group_choice_edges(x),
        CDDLTypeView::GenericParams(x) => generic_params_edges(x),
        CDDLTypeView::GenericParam(x) => generic_param_edges(x),
        CDDLTypeView::GenericArgs(x) => generic_args_edges(x),
        CDDLTypeView::GenericArg(x) => generic_arg_edges(x),
        CDDLTypeView::GroupEntry(x) => group_entry_edges(x),
        CDDLTypeView::Identifier(_) => Seq::empty(),
        CDDLTypeView::Type(x) => type_edges(x),
        CDDLTypeView::TypeChoice(x) => type_choice_edges(x),
        CDDLTypeView::Type1(x) => type1_edges(x),
        CDDLTypeView::Type2(x) => type2_edges(x),
        CDDLTypeView::Operator(x) => operator_edges(x),
        CDDLTypeView::Occurrence(x) => occurrence_edges(x),
        CDDLTypeView::Occur(_) => Seq::empty(),
        CDDLTypeView::Value(_) => Seq::empty(),
        CDDLTypeView::ValueMemberKeyEntry(x) => value_member_key_entry_edges(x),
        CDDLTypeView::TypeGroupnameEntry(x) => type_groupname_entry_edges(x),
        CDDLTypeView::MemberKey(x) => member_key_edges(x),
        CDDLTypeView::NonMemberKey(x) => non_member_key_edges(x),
    }
}

/// The steps of a walk that goes from `node` to each of `children` in turn,
/// and from each child through all that is below it.
pub open spec fn steps_through(node: CDDLTypeView, children: Seq<CDDLTypeView>) -> Seq<Edge>
    decreases children.len(),
{
    if children.len() == 0 {
        Seq::empty()
    } else {
        steps_through(node, children.drop_last()) + seq![edge(node, children.last())] + edges_of(
            children.last(),
        )
    }
}

/// Going through one child is the step to it and the walk below it.
pub proof fn lemma_steps_through_one(node: CDDLTypeView, child: CDDLTypeView)
    ensures
        steps_through(node, seq![child]) == seq![edge(node, child)] + edges_of(child),
{
    assert(seq![child].drop_last() =~= Seq::<CDDLTypeView>::empty());
    reveal_with_fuel(steps_through, 2);
    assert(Seq::<Edge>::empty() + seq![edge(node, child)] + edges_of(child) =~= seq![
        edge(node, child),
    ] + edges_of(child));
}

/// Going through children one after the other is going through the first of
/// them and then through the others.
pub proof fn lemma_steps_through_concat(
    node: CDDLTypeView,
    first: Seq<CDDLTypeView>,
    second: Seq<CDDLTypeView>,
)
    ensures
        steps_through(node, first + second) == steps_through(node, first) + steps_through(
            node,
            second,
        ),
    decreases second.len(),
{
    if second.len() == 0 {
        assert(first + second =~= first);
        assert(steps_through(node, first) + Seq::<Edge>::empty() =~= steps_through(node, first));
    } else {
        assert((first + second).drop_last() =~= first + second.drop_last());
        assert((first + second).last() == second.last());
        lemma_steps_through_concat(node, first, second.drop_last());
        let step = seq![edge(node, second.last())] + edges_of(second.last());
        assert(steps_through(node, first) + steps_through(node, second.drop_last()) + seq![
            edge(node, second.last()),
        ] + edges_of(second.last()) =~= steps_through(node, first) + (steps_through(
            node,
            second.drop_last(),
        ) + seq![edge(node, second.last())] + edges_of(second.last())));
    }
}

/// Going through the child that may be there: the step to it and the walk
/// below it, or nothing.
pub proof fn lemma_steps_through_maybe<T>(
    node: CDDLTypeView,
    x: Option<T>,
    wrap: spec_fn(T) -> CDDLTypeView,
)
    ensures
        steps_through(node, maybe(x, wrap)) == match x {
            Some(y) => seq![edge(node, wrap(y))] + edges_of(wrap(y)),
            None => Seq::<Edge>::empty(),
        },
{
    if let Some(y) = x {
        lemma_steps_through_one(node, wrap(y));
    }
}

/// The steps that the walk has recorded once it is done with the first `n`
/// children of the node are the steps through those children.
proof fn lemma_cddl_walk_upto(x: CDDLView, n: nat)
    requires
        n <= x.rules.len(),
    ensures
        cddl_edges_upto(x, n) == steps_through(
            CDDLTypeView::CDDL(x),
            children_of(CDDLTypeView::CDDL(x)).take(n as int),
        ),
    decreases n,
{
    let node = CDDLTypeView::CDDL(x);
    let children = children_of(node);
    if n > 0 {
        lemma_cddl_walk_upto(x, (n - 1) as nat);
        assert(children.take(n as int).drop_last() =~= children.take(n - 1));
        assert(children.take(n as int).last() == children[n - 1]);
    }
}

/// The steps that the walk has recorded once it is done with the first `n`
/// children of the node are the steps through those children.
proof fn lemma_generic_params_walk_upto(x: GenericParamsView, n: nat)
    requires
        n <= x.params.len(),
    ensures
        generic_params_edges_upto(x, n) == steps_through(
            CDDLTypeView::GenericParams(x),
            children_of(CDDLTypeView::GenericParams(x)).take(n as int),
        ),
    decreases n,
{
    let node = CDDLTypeView::GenericParams(x);
    let children = children_of(node);
    if n > 0 {
        lemma_generic_params_walk_upto(x, (n - 1) as nat);
        assert(children.take(n as int).drop_last() =~= children.take(n - 1));
        assert(children.take(n as int).last() == children[n - 1]);
    }
}

/// The steps that the walk has recorded once it is done with the first `n`
/// children of the node are the steps through those children.
proof fn lemma_generic_args_walk_upto(x: GenericArgsView, n: nat)
    requires
        n <= x.args.len(),
    ensures
        generic_args_edges_upto(x, n) == steps_through(
            CDDLTypeView::GenericArgs(x),
            children_of(CDDLTypeView::GenericArgs(x)).take(n as int),
        ),
    decreases n,
{
    let node = CDDLTypeView::GenericArgs(x);
    let children = children_of(node);
    if n > 0 {
        lemma_generic_args_walk_upto(x, (n - 1) as nat);
        assert(children.take(n as int).drop_last() =~= children.take(n - 1));
        assert(children.take(n as int).last() == children[n - 1]);
    }
}

/// The steps that the walk has recorded once it is done with the first `n`
/// children of the node are the steps through those children.
proof fn lemma_type_walk_upto(x: TypeView, n: nat)
    requires
        n <= x.type_choices.len(),
    ensures
        type_edges_upto(x, n) == steps_through(
            CDDLTypeView::Type(x),
            children_of(CDDLTypeView::Type(x)).take(n as int),
        ),
    decreases n,
{
    let node = CDDLTypeView::Type(x);
    let children = children_of(node);
    if n > 0 {
        lemma_type_walk_upto(x, (n - 1) as nat);
        assert(children.take(n as int).drop_last() =~= children.take(n - 1));
        assert(children.take(n as int).last() == children[n - 1]);
    }
}

/// The steps that the walk has recorded once it is done with the first `n`
/// children of the node are the steps through those children.
proof fn lemma_group_walk_upto(x: GroupView, n: nat)
    requires
        n <= x.group_choices.len(),
    ensures
        group_edges_upto(x, n) == steps_through(
            CDDLTypeView::Group(x),
            children_of(CDDLTypeView::Group(x)).take(n as int),
        ),
    decreases n,
{
    let node = CDDLTypeView::Group(x);
    let children = children_of(node);
    if n > 0 {
        lemma_group_walk_upto(x, (n - 1) as nat);
        assert(children.take(n as int).drop_last() =~= children.take(n - 1));
        assert(children.take(n as int).last() == children[n - 1]);
    }
}

/// The steps that the walk has recorded once it is done with the first `n`
/// children of the node are the steps through those children.
proof fn lemma_group_choice_walk_upto(x: GroupChoiceView, n: nat)
    requires
        n <= x.group_entries.len(),
    ensures
        group_choice_edges_upto(x, n) == steps_through(
            CDDLTypeView::GroupChoice(x),
            children_of(CDDLTypeView::GroupChoice(x)).take(n as int),
        ),
    decreases n,
{
    let node = CDDLTypeView::GroupChoice(x);
    let children = children_of(node);
    if n > 0 {
        lemma_group_choice_walk_upto(x, (n - 1) as nat);
        assert(children.take(n as int).drop_last() =~= children.take(n - 1));
        assert(children.take(n as int).last() == children[n - 1]);
    }
}

/// The walk below the node goes through its children.
proof fn lemma_cddl_walk(x: CDDLView)
    ensures
        cddl_edges(x) == steps_through(CDDLTypeView::CDDL(x), children_of(CDDLTypeView::CDDL(x))),
{
    let node = CDDLTypeView::CDDL(x);
    let children = children_of(node);
    lemma_cddl_walk_upto(x, x.rules.len());
    assert(children.take(children.len() as int) =~= children);
}

/// The walk below the node goes through its children.
proof fn lemma_rule_walk(x: RuleView)
    ensures
        rule_edges(x) == steps_through(CDDLTypeView::Rule(x), children_of(CDDLTypeView::Rule(x))),
{
    let node = CDDLTypeView::Rule(x);
    let children = children_of(node);
    lemma_steps_through_one(node, children[0]);
}

/// The walk below the node goes through its children.
proof fn lemma_type_rule_walk(x: TypeRuleView)
    ensures
        type_rule_edges(x)
            == steps_through(CDDLTypeView::TypeRule(x), children_of(CDDLTypeView::TypeRule(x))),
{
    let node = CDDLTypeView::TypeRule(x);
    let children = children_of(node);
    let part0 = seq![CDDLTypeView::Identifier(x.name)];
    lemma_steps_through_one(node, CDDLTypeView::Identifier(x.name));
    let part1 = maybe(x.generic_params, |y| CDDLTypeView::GenericParams(y));
    lemma_steps_through_maybe(node, x.generic_params, |y| CDDLTypeView::GenericParams(y));
    let part2 = seq![CDDLTypeView::Type(x.value)];
    lemma_steps_through_one(node, CDDLTypeView::Type(x.value));
    lemma_steps_through_concat(node, part0, part1);
    lemma_steps_through_concat(node, part0 + part1, part2);
}

/// The walk below the node goes through its children.
proof fn lemma_group_rule_walk(x: GroupRuleView)
    ensures
        group_rule_edges(x)
            == steps_through(CDDLTypeView::GroupRule(x), children_of(CDDLTypeView::GroupRule(x))),
{
    let node = CDDLTypeView::GroupRule(x);
    let children = children_of(node);
    let part0 = seq![CDDLTypeView::Identifier(x.name)];
    lemma_steps_through_one(node, CDDLTypeView::Identifier(x.name));
    let part1 = maybe(x.generic_params, |y| CDDLTypeView::GenericParams(y));
    lemma_steps_through_maybe(node, x.generic_params, |y| CDDLTypeView::GenericParams(y));
    let part2 = seq![CDDLTypeView::GroupEntry(x.entry)];
    lemma_steps_through_one(node, CDDLTypeView::GroupEntry(x.entry));
    lemma_steps_through_concat(node, part0, part1);
    lemma_steps_through_concat(node, part0 + part1, part2);
}

/// The walk below the node goes through its children.
proof fn lemma_group_walk(x: GroupView)
    ensures
        group_edges(x)
            == steps_through(CDDLTypeView::Group(x), children_of(CDDLTypeView::Group(x))),
{
    let node = CDDLTypeView::Group(x);
    let children = children_of(node);
    lemma_group_walk_upto(x, x.group_choices.len());
    assert(children.take(children.len() as int) =~= children);
}

/// The walk below the node goes through its children.
proof fn lemma_group_choice_walk(x: GroupChoiceView)
    ensures
        group_choice_edges(x)
            == steps_through(
                CDDLTypeView::GroupChoice(x),
                children_of(CDDLTypeView::GroupChoice(x)),
            ),
{
    let node = CDDLTypeView::GroupChoice(x);
    let children = children_of(node);
    lemma_group_choice_walk_upto(x, x.group_entries.len());
    assert(children.take(children.len() as int) =~= children);
}

/// The walk below the node goes through its children.
proof fn lemma_generic_params_walk(x: GenericParamsView)
    ensures
        generic_params_edges(x)
            == steps_through(
                CDDLTypeView::GenericParams(x),
                children_of(CDDLTypeView::GenericParams(x)),
            ),
{
    let node = CDDLTypeView::GenericParams(x);
    let children = children_of(node);
    lemma_generic_params_walk_upto(x, x.params.len());
    assert(children.take(children.len() as int) =~= children);
}

/// The walk below the node goes through its children.
proof fn lemma_generic_param_walk(x: GenericParamView)
    ensures
        generic_param_edges(x)
            == steps_through(
                CDDLTypeView::GenericParam(x),
                children_of(CDDLTypeView::GenericParam(x)),
            ),
{
    let node = CDDLTypeView::GenericParam(x);
    let children = children_of(node);
    let part0 = seq![CDDLTypeView::Identifier(x.param)];
    lemma_steps_through_one(node, CDDLTypeView::Identifier(x.param));
}

/// The walk below the node goes through its children.
proof fn lemma_generic_args_walk(x: GenericArgsView)
    ensures
        generic_args_edges(x)
            == steps_through(
                CDDLTypeView::GenericArgs(x),
                children_of(CDDLTypeView::GenericArgs(x)),
            ),
{
    let node = CDDLTypeView::GenericArgs(x);
    let children = children_of(node);
    lemma_generic_args_walk_upto(x, x.args.len());
    assert(children.take(children.len() as int) =~= children);
}

/// The walk below the node goes through its children.
proof fn lemma_generic_arg_walk(x: GenericArgView)
    ensures
        generic_arg_edges(x)
            == steps_through(CDDLTypeView::GenericArg(x), children_of(CDDLTypeView::GenericArg(x))),
{
    let node = CDDLTypeView::GenericArg(x);
    let children = children_of(node);
    let part0 = seq![CDDLTypeView::Type1(x.arg)];
    lemma_steps_through_one(node, CDDLTypeView::Type1(x.arg));
}

/// The walk below the node goes through its children.
proof fn lemma_group_entry_walk(x: GroupEntryView)
    ensures
        group_entry_edges(x)
            == steps_through(CDDLTypeView::GroupEntry(x), children_of(CDDLTypeView::GroupEntry(x))),
{
    let node = CDDLTypeView::GroupEntry(x);
    let children = children_of(node);
    match x {
        GroupEntryView::InlineGroup { occur, group } => {
            let part0 = maybe(occur, |y| CDDLTypeView::Occurrence(y));
            let part1 = seq![CDDLTypeView::Group(group)];
            lemma_steps_through_maybe(node, occur, |y| CDDLTypeView::Occurrence(y));
            lemma_steps_through_one(node, CDDLTypeView::Group(group));
            lemma_steps_through_concat(node, part0, part1);
        },
        _ => {
            lemma_steps_through_one(node, children[0]);
        },
    }
}

/// The walk below the node goes through its children.
proof fn lemma_type_walk(x: TypeView)
    ensures
        type_edges(x) == steps_through(CDDLTypeView::Type(x), children_of(CDDLTypeView::Type(x))),
{
    let node = CDDLTypeView::Type(x);
    let children = children_of(node);
    lemma_type_walk_upto(x, x.type_choices.len());
    assert(children.take(children.len() as int) =~= children);
}

/// The walk below the node goes through its children.
proof fn lemma_type_choice_walk(x: TypeChoiceView)
    ensures
        type_choice_edges(x)
            == steps_through(CDDLTypeView::TypeChoice(x), children_of(CDDLTypeView::TypeChoice(x))),
{
    let node = CDDLTypeView::TypeChoice(x);
    let children = children_of(node);
    let part0 = seq![CDDLTypeView::Type1(x.type1)];
    lemma_steps_through_one(node, CDDLTypeView::Type1(x.type1));
}

/// The walk below the node goes through its children.
proof fn lemma_type1_walk(x: Type1View)
    ensures
        type1_edges(x)
            == steps_through(CDDLTypeView::Type1(x), children_of(CDDLTypeView::Type1(x))),
{
    let node = CDDLTypeView::Type1(x);
    let children = children_of(node);
    let part0 = maybe(x.operator, |y| CDDLTypeView::Operator(y));
    lemma_steps_through_maybe(node, x.operator, |y| CDDLTypeView::Operator(y));
    let part1 = seq![CDDLTypeView::Type2(x.type2)];
    lemma_steps_through_one(node, CDDLTypeView::Type2(x.type2));
    lemma_steps_through_concat(node, part0, part1);
}

/// The walk below the node goes through its children.
proof fn lemma_type2_walk(x: Type2View)
    ensures
        type2_edges(x)
            == steps_through(CDDLTypeView::Type2(x), children_of(CDDLTypeView::Type2(x))),
{
    let node = CDDLTypeView::Type2(x);
    let children = children_of(node);
    match literal_of(x) {
        Some(value) => {
            lemma_steps_through_one(node, children[0]);
        },
        None => match x {
            Type2View::Typename { ident, generic_args } => {
                lemma_walk_goes_through_name(node, ident, generic_args);
            },
            Type2View::Unwrap { ident, generic_args } => {
                lemma_walk_goes_through_name(node, ident, generic_args);
            },
            Type2View::ChoiceFromGroup { ident, generic_args } => {
                lemma_walk_goes_through_name(node, ident, generic_args);
            },
            Type2View::ParenthesizedType { .. }
            | Type2View::MapType { .. }
            | Type2View::Array { .. }
            | Type2View::ChoiceFromInlineGroup { .. }
            | Type2View::TaggedData { .. } => {
                lemma_steps_through_one(node, children[0]);
            },
            _ => {},
        },
    }
}

/// The walk below the node goes through its children.
proof fn lemma_operator_walk(x: OperatorView)
    ensures
        operator_edges(x)
            == steps_through(CDDLTypeView::Operator(x), children_of(CDDLTypeView::Operator(x))),
{
    let node = CDDLTypeView::Operator(x);
    let children = children_of(node);
    let part0 = seq![CDDLTypeView::Type2(x.type2)];
    lemma_steps_through_one(node, CDDLTypeView::Type2(x.type2));
}

/// The walk below the node goes through its children.
proof fn lemma_occurrence_walk(x: OccurrenceView)
    ensures
        occurrence_edges(x)
            == steps_through(CDDLTypeView::Occurrence(x), children_of(CDDLTypeView::Occurrence(x))),
{
    let node = CDDLTypeView::Occurrence(x);
    let children = children_of(node);
    lemma_steps_through_one(node, children[0]);
}

/// The walk below the node goes through its children.
proof fn lemma_value_member_key_entry_walk(x: ValueMemberKeyEntryView)
    ensures
        value_member_key_entry_edges(x)
            == steps_through(
                CDDLTypeView::ValueMemberKeyEntry(x),
                children_of(CDDLTypeView::ValueMemberKeyEntry(x)),
            ),
{
    let node = CDDLTypeView::ValueMemberKeyEntry(x);
    let children = children_of(node);
    let part0 = maybe(x.occur, |y| CDDLTypeView::Occurrence(y));
    lemma_steps_through_maybe(node, x.occur, |y| CDDLTypeView::Occurrence(y));
    let part1 = maybe(x.member_key, |y| CDDLTypeView::MemberKey(y));
    lemma_steps_through_maybe(node, x.member_key, |y| CDDLTypeView::MemberKey(y));
    let part2 = seq![CDDLTypeView::Type(x.entry_type)];
    lemma_steps_through_one(node, CDDLTypeView::Type(x.entry_type));
    lemma_steps_through_concat(node, part0, part1);
    lemma_steps_through_concat(node, part0 + part1, part2);
}

/// The walk below the node goes through its children.
proof fn lemma_type_groupname_entry_walk(x: TypeGroupnameEntryView)
    ensures
        type_groupname_entry_edges(x)
            == steps_through(
                CDDLTypeView::TypeGroupnameEntry(x),
                children_of(CDDLTypeView::TypeGroupnameEntry(x)),
            ),
{
    let node = CDDLTypeView::TypeGroupnameEntry(x);
    let children = children_of(node);
    let part0 = maybe(x.occur, |y| CDDLTypeView::Occurrence(y));
    lemma_steps_through_maybe(node, x.occur, |y| CDDLTypeView::Occurrence(y));
    let part1 = maybe(x.generic_args, |y| CDDLTypeView::GenericArgs(y));
    lemma_steps_through_maybe(node, x.generic_args, |y| CDDLTypeView::GenericArgs(y));
    let part2 = seq![CDDLTypeView::Identifier(x.name)];
    lemma_steps_through_one(node, CDDLTypeView::Identifier(x.name));
    lemma_steps_through_concat(node, part0, part1);
    lemma_steps_through_concat(node, part0 + part1, part2);
}

/// The walk below the node goes through its children.
proof fn lemma_member_key_walk(x: MemberKeyView)
    ensures
        member_key_edges(x)
            == steps_through(CDDLTypeView::MemberKey(x), children_of(CDDLTypeView::MemberKey(x))),
{
    let node = CDDLTypeView::MemberKey(x);
    let children = children_of(node);
    lemma_steps_through_one(node, children[0]);
}

/// The walk below the node goes through its children.
proof fn lemma_non_member_key_walk(x: NonMemberKeyView)
    ensures
        non_member_key_edges(x)
            == steps_through(
                CDDLTypeView::NonMemberKey(x),
                children_of(CDDLTypeView::NonMemberKey(x)),
            ),
{
    let node = CDDLTypeView::NonMemberKey(x);
    let children = children_of(node);
    lemma_steps_through_one(node, children[0]);
}

/// The walk visits a node, then each of its children in the order in which
/// the grammar writes them, and with each child all that is below it.
pub proof fn lemma_walk_goes_through_children(node: CDDLTypeView)
    ensures
        edges_of(node) == steps_through(node, children_of(node)),
{
    match node {
        CDDLTypeView::CDDL(x) => {
            lemma_cddl_walk(x);
        },
        CDDLTypeView::Rule(x) => {
            lemma_rule_walk(x);
        },
        CDDLTypeView::TypeRule(x) => {
            lemma_type_rule_walk(x);
        },
        CDDLTypeView::GroupRule(x) => {
            lemma_group_rule_walk(x);
        },
        CDDLTypeView::Group(x) => {
            lemma_group_walk(x);
        },
        CDDLTypeView::GroupChoice(x) => {
            lemma_group_choice_walk(x);
        },
        CDDLTypeView::GenericParams(x) => {
            lemma_generic_params_walk(x);
        },
        CDDLTypeView::GenericParam(x) => {
            lemma_generic_param_walk(x);
        },
        CDDLTypeView::GenericArgs(x) => {
            lemma_generic_args_walk(x);
        },
        CDDLTypeView::GenericArg(x) => {
            lemma_generic_arg_walk(x);
        },
        CDDLTypeView::GroupEntry(x) => {
            lemma_group_entry_walk(x);
        },
        CDDLTypeView::Identifier(_) => {},
        CDDLTypeView::Type(x) => {
            lemma_type_walk(x);
        },
        CDDLTypeView::TypeChoice(x) => {
            lemma_type_choice_walk(x);
        },
        CDDLTypeView::Type1(x) => {
            lemma_type1_walk(x);
        },
        CDDLTypeView::Type2(x) => {
            lemma_type2_walk(x);
        },
        CDDLTypeView::Operator(x) => {
            lemma_operator_walk(x);
        },
        CDDLTypeView::Occurrence(x) => {
            lemma_occurrence_walk(x);
        },
        CDDLTypeView::Occur(_) => {},
        CDDLTypeView::Value(_) => {},
        CDDLTypeView::ValueMemberKeyEntry(x) => {
            lemma_value_member_key_entry_walk(x);
        },
        CDDLTypeView::TypeGroupnameEntry(x) => {
            lemma_type_groupname_entry_walk(x);
        },
        CDDLTypeView::MemberKey(x) => {
            lemma_member_key_walk(x);
        },
        CDDLTypeView::NonMemberKey(x) => {
            lemma_non_member_key_walk(x);
        },
    }
}

/// The walk below a node that holds a name with generic arguments goes to the
/// name and then to the arguments.
proof fn lemma_walk_goes_through_name(
    node: CDDLTypeView,
    ident: IdentifierView,
    generic_args: Option<GenericArgsView>,
)
    ensures
        steps_through(node, named_children(ident, generic_args)) == seq![
            edge(node, CDDLTypeView::Identifier(ident)),
        ] + (match generic_args {
            Some(y) => seq![edge(node, CDDLTypeView::GenericArgs(y))] + generic_args_edges(y),
            None => Seq::empty(),
        }),
{
    let part0 = seq![CDDLTypeView::Identifier(ident)];
    let part1 = maybe(generic_args, |y| CDDLTypeView::GenericArgs(y));
    lemma_steps_through_one(node, CDDLTypeView::Identifier(ident));
    lemma_steps_through_maybe(node, generic_args, |y| CDDLTypeView::GenericArgs(y));
    lemma_steps_through_concat(node, part0, part1);
    assert(seq![edge(node, CDDLTypeView::Identifier(ident))] + Seq::<Edge>::empty() =~= seq![
        edge(node, CDDLTypeView::Identifier(ident)),
    ]);
}

/// The values of a sequence of nodes.
pub open spec fn nodes_view(nodes: Seq<CDDLType>) -> Seq<CDDLTypeView> {
    Seq::new(nodes.len(), |i: int| nodes[i]@)
}

/// Adds `node` to `nodes`.
fn push_node<'a>(nodes: &mut Vec<CDDLType<'a>>, node: CDDLType<'a>)
    ensures
        nodes_view(final(nodes)@) == nodes_view(old(nodes)@).push(node@),
{
    nodes.push(node);
    assert(nodes_view(nodes@) =~= nodes_view(old(nodes)@).push(node@));
}

/// No nodes.
fn no_nodes<'a>() -> (nodes: Vec<CDDLType<'a>>)
    ensures
        nodes_view(nodes@) == Seq::<CDDLTypeView>::empty(),
{
    let nodes = Vec::new();
    assert(nodes_view(nodes@) =~= Seq::<CDDLTypeView>::empty());
    nodes
}

impl CDDL {
    /// The children of the node, in the order in which the grammar writes them.
    pub fn children<'a>(&'a self) -> (nodes: Vec<CDDLType<'a>>)
        ensures
            nodes_view(nodes@) == children_of(CDDLTypeView::CDDL(self@)),
    {
        let ghost all = children_of(CDDLTypeView::CDDL(self@));
        let mut nodes = no_nodes();
        assert(all.take(0) =~= Seq::<CDDLTypeView>::empty());
        let mut i: usize = 0;
        while i < self.rules.len()
            invariant
                i <= self.rules.len(),
                all == children_of(CDDLTypeView::CDDL(self@)),
                nodes_view(nodes@) == all.take(i as int),
            decreases self.rules.len() - i,
        {
            push_node(&mut nodes, CDDLType::Rule(&self.rules[i]));
            i += 1;
            assert(all.take(i as int) =~= all.take(i - 1).push(all[i - 1]));
        }
        assert(all.take(i as int) =~= all);
        nodes
    }
}

impl Rule {
    /// The children of the node, in the order in which the grammar writes them.
    pub fn children<'a>(&'a self) -> (nodes: Vec<CDDLType<'a>>)
        ensures
            nodes_view(nodes@) == children_of(CDDLTypeView::Rule(self@)),
    {
        let mut nodes = no_nodes();
        match self {
            Rule::Type { rule } => push_node(&mut nodes, CDDLType::TypeRule(rule)),
            Rule::Group { rule } => push_node(&mut nodes, CDDLType::GroupRule(rule)),
        }
        assert(nodes_view(nodes@) =~= children_of(CDDLTypeView::Rule(self@)));
        nodes
    }
}

impl TypeRule {
    /// The children of the node, in the order in which the grammar writes them.
    pub fn children<'a>(&'a self) -> (nodes: Vec<CDDLType<'a>>)
        ensures
            nodes_view(nodes@) == children_of(CDDLTypeView::TypeRule(self@)),
    {
        let mut nodes = no_nodes();
        push_node(&mut nodes, CDDLType::Identifier(&self.name));
        if let Some(y) = &self.generic_params {
            push_node(&mut nodes, CDDLType::GenericParams(y));
        }
        push_node(&mut nodes, CDDLType::Type(&self.value));
        assert(nodes_view(nodes@) =~= children_of(CDDLTypeView::TypeRule(self@)));
        nodes
    }
}

impl GroupRule {
    /// The children of the node, in the order in which the grammar writes them.
    pub fn children<'a>(&'a self) -> (nodes: Vec<CDDLType<'a>>)
        ensures
            nodes_view(nodes@) == children_of(CDDLTypeView::GroupRule(self@)),
    {
        let mut nodes = no_nodes();
        push_node(&mut nodes, CDDLType::Identifier(&self.name));
        if let Some(y) = &self.generic_params {
            push_node(&mut nodes, CDDLType::GenericParams(y));
        }
        push_node(&mut nodes, CDDLType::GroupEntry(&self.entry));
        assert(nodes_view(nodes@) =~= children_of(CDDLTypeView::GroupRule(self@)));
        nodes
    }
}

impl GenericParams {
    /// The children of the node, in the order in which the grammar writes them.
    pub fn children<'a>(&'a self) -> (nodes: Vec<CDDLType<'a>>)
        ensures
            nodes_view(nodes@) == children_of(CDDLTypeView::GenericParams(self@)),
    {
        let ghost all = children_of(CDDLTypeView::GenericParams(self@));
        let mut nodes = no_nodes();
        assert(all.take(0) =~= Seq::<CDDLTypeView>::empty());
        let mut i: usize = 0;
        while i < self.params.len()
            invariant
                i <= self.params.len(),
                all == children_of(CDDLTypeView::GenericParams(self@)),
                nodes_view(nodes@) == all.take(i as int),
            decreases self.params.len() - i,
        {
            push_node(&mut nodes, CDDLType::GenericParam(&self.params[i]));
            i += 1;
            assert(all.take(i as int) =~= all.take(i - 1).push(all[i - 1]));
        }
        assert(all.take(i as int) =~= all);
        nodes
    }
}

impl GenericParam {
    /// The children of the node, in the order in which the grammar writes them.
    pub fn children<'a>(&'a self) -> (nodes: Vec<CDDLType<'a>>)
        ensures
            nodes_view(nodes@) == children_of(CDDLTypeView::GenericParam(self@)),
    {
        let mut nodes = no_nodes();
        push_node(&mut nodes, CDDLType::Identifier(&self.param));
        assert(nodes_view(nodes@) =~= children_of(CDDLTypeView::GenericParam(self@)));
        nodes
    }
}

impl GenericArgs {
    /// The children of the node, in the order in which the grammar writes them.
    pub fn children<'a>(&'a self) -> (nodes: Vec<CDDLType<'a>>)
        ensures
            nodes_view(nodes@) == children_of(CDDLTypeView::GenericArgs(self@)),
    {
        let ghost all = children_of(CDDLTypeView::GenericArgs(self@));
        let mut nodes = no_nodes();
        assert(all.take(0) =~= Seq::<CDDLTypeView>::empty());
        let mut i: usize = 0;
        while i < self.args.len()
            invariant
                i <= self.args.len(),
                all == children_of(CDDLTypeView::GenericArgs(self@)),
                nodes_view(nodes@) == all.take(i as int),
            decreases self.args.len() - i,
        {
            push_node(&mut nodes, CDDLType::GenericArg(&self.args[i]));
            i += 1;
            assert(all.take(i as int) =~= all.take(i - 1).push(all[i - 1]));
        }
        assert(all.take(i as int) =~= all);
        nodes
    }
}

impl GenericArg {
    /// The children of the node, in the order in which the grammar writes them.
    pub fn children<'a>(&'a self) -> (nodes: Vec<CDDLType<'a>>)
        ensures
            nodes_view(nodes@) == children_of(CDDLTypeView::GenericArg(self@)),
    {
        let mut nodes = no_nodes();
        push_node(&mut nodes, CDDLType::Type1(&self.arg));
        assert(nodes_view(nodes@) =~= children_of(CDDLTypeView::GenericArg(self@)));
        nodes
    }
}

impl Type {
    /// The children of the node, in the order in which the grammar writes them.
    pub fn children<'a>(&'a self) -> (nodes: Vec<CDDLType<'a>>)
        ensures
            nodes_view(nodes@) == children_of(CDDLTypeView::Type(self@)),
    {
        let ghost all = children_of(CDDLTypeView::Type(self@));
        let mut nodes = no_nodes();
        assert(all.take(0) =~= Seq::<CDDLTypeView>::empty());
        let mut i: usize = 0;
        while i < self.type_choices.len()
            invariant
                i <= self.type_choices.len(),
                all == children_of(CDDLTypeView::Type(self@)),
                nodes_view(nodes@) == all.take(i as int),
            decreases self.type_choices.len() - i,
        {
            push_node(&mut nodes, CDDLType::TypeChoice(&self.type_choices[i]));
            i += 1;
            assert(all.take(i as int) =~= all.take(i - 1).push(all[i - 1]));
        }
        assert(all.take(i as int) =~= all);
        nodes
    }
}

impl TypeChoice {
    /// The children of the node, in the order in which the grammar writes them.
    pub fn children<'a>(&'a self) -> (nodes: Vec<CDDLType<'a>>)
        ensures
            nodes_view(nodes@) == children_of(CDDLTypeView::TypeChoice(self@)),
    {
        let mut nodes = no_nodes();
        push_node(&mut nodes, CDDLType::Type1(&self.type1));
        assert(nodes_view(nodes@) =~= children_of(CDDLTypeView::TypeChoice(self@)));
        nodes
    }
}

impl Type1 {
    /// The children of the node, in the order in which the grammar writes them.
    pub fn children<'a>(&'a self) -> (nodes: Vec<CDDLType<'a>>)
        ensures
            nodes_view(nodes@) == children_of(CDDLTypeView::Type1(self@)),
    {
        let mut nodes = no_nodes();
        if let Some(y) = &self.operator {
            push_node(&mut nodes, CDDLType::Operator(y));
        }
        push_node(&mut nodes, CDDLType::Type2(&self.type2));
        assert(nodes_view(nodes@) =~= children_of(CDDLTypeView::Type1(self@)));
        nodes
    }
}

impl Operator {
    /// The children of the node, in the order in which the grammar writes them.
    pub fn children<'a>(&'a self) -> (nodes: Vec<CDDLType<'a>>)
        ensures
            nodes_view(nodes@) == children_of(CDDLTypeView::Operator(self@)),
    {
        let mut nodes = no_nodes();
        push_node(&mut nodes, CDDLType::Type2(&self.type2));
        assert(nodes_view(nodes@) =~= children_of(CDDLTypeView::Operator(self@)));
        nodes
    }
}

impl Type2 {
    /// The children of the node, in the order in which the grammar writes them. A
    /// literal has one child, its value.
    pub fn children<'a>(&'a self) -> (nodes: Vec<CDDLType<'a>>)
        ensures
            nodes_view(nodes@) == children_of(CDDLTypeView::Type2(self@)),
    {
        let mut nodes = no_nodes();
        if let Some(value) = self.literal() {
            push_node(&mut nodes, CDDLType::Value(value));
            assert(nodes_view(nodes@) =~= children_of(CDDLTypeView::Type2(self@)));
            return nodes;
        }
        match self {
            Type2::Typename { ident, generic_args }
            | Type2::Unwrap { ident, generic_args }
            | Type2::ChoiceFromGroup { ident, generic_args } => {
                push_node(&mut nodes, CDDLType::Identifier(ident));
                if let Some(y) = generic_args {
                    push_node(&mut nodes, CDDLType::GenericArgs(y));
                }
            },
            Type2::ParenthesizedType { pt } => push_node(&mut nodes, CDDLType::Type(pt)),
            Type2::MapType { group } | Type2::Array { group } | Type2::ChoiceFromInlineGroup {
                group,
            } => push_node(&mut nodes, CDDLType::Group(group)),
            Type2::TaggedData { t, .. } => push_node(&mut nodes, CDDLType::Type(t)),
            _ => {},
        }
        assert(nodes_view(nodes@) =~= children_of(CDDLTypeView::Type2(self@)));
        nodes
    }
}

impl Group {
    /// The children of the node, in the order in which the grammar writes them.
    pub fn children<'a>(&'a self) -> (nodes: Vec<CDDLType<'a>>)
        ensures
            nodes_view(nodes@) == children_of(CDDLTypeView::Group(self@)),
    {
        let ghost all = children_of(CDDLTypeView::Group(self@));
        let mut nodes = no_nodes();
        assert(all.take(0) =~= Seq::<CDDLTypeView>::empty());
        let mut i: usize = 0;
        while i < self.group_choices.len()
            invariant
                i <= self.group_choices.len(),
                all == children_of(CDDLTypeView::Group(self@)),
                nodes_view(nodes@) == all.take(i as int),
            decreases self.group_choices.len() - i,
        {
            push_node(&mut nodes, CDDLType::GroupChoice(&self.group_choices[i]));
            i += 1;
            assert(all.take(i as int) =~= all.take(i - 1).push(all[i - 1]));
        }
        assert(all.take(i as int) =~= all);
        nodes
    }
}

impl GroupChoice {
    /// The children of the node, in the order in which the grammar writes them.
    pub fn children<'a>(&'a self) -> (nodes: Vec<CDDLType<'a>>)
        ensures
            nodes_view(nodes@) == children_of(CDDLTypeView::GroupChoice(self@)),
    {
        let ghost all = children_of(CDDLTypeView::GroupChoice(self@));
        let mut nodes = no_nodes();
        assert(all.take(0) =~= Seq::<CDDLTypeView>::empty());
        let mut i: usize = 0;
        while i < self.group_entries.len()
            invariant
                i <= self.group_entries.len(),
                all == children_of(CDDLTypeView::GroupChoice(self@)),
                nodes_view(nodes@) == all.take(i as int),
            decreases self.group_entries.len() - i,
        {
            push_node(&mut nodes, CDDLType::GroupEntry(&self.group_entries[i].0));
            i += 1;
            assert(all.take(i as int) =~= all.take(i - 1).push(all[i - 1]));
        }
        assert(all.take(i as int) =~= all);
        nodes
    }
}

impl GroupEntry {
    /// The children of the node, in the order in which the grammar writes them.
    pub fn children<'a>(&'a self) -> (nodes: Vec<CDDLType<'a>>)
        ensures
            nodes_view(nodes@) == children_of(CDDLTypeView::GroupEntry(self@)),
    {
        let mut nodes = no_nodes();
        match self {
            GroupEntry::ValueMemberKey { ge } => {
                push_node(&mut nodes, CDDLType::ValueMemberKeyEntry(ge));
            },
            GroupEntry::TypeGroupname { ge } => {
                push_node(&mut nodes, CDDLType::TypeGroupnameEntry(ge));
            },
            GroupEntry::InlineGroup { occur, group } => {
                if let Some(y) = occur {
                    push_node(&mut nodes, CDDLType::Occurrence(y));
                }
                push_node(&mut nodes, CDDLType::Group(group));
            },
        }
        assert(nodes_view(nodes@) =~= children_of(CDDLTypeView::GroupEntry(self@)));
        nodes
    }
}

impl ValueMemberKeyEntry {
    /// The children of the node, in the order in which the grammar writes them.
    pub fn children<'a>(&'a self) -> (nodes: Vec<CDDLType<'a>>)
        ensures
            nodes_view(nodes@) == children_of(CDDLTypeView::ValueMemberKeyEntry(self@)),
    {
        let mut nodes = no_nodes();
        if let Some(y) = &self.occur {
            push_node(&mut nodes, CDDLType::Occurrence(y));
        }
        if let Some(y) = &self.member_key {
            push_node(&mut nodes, CDDLType::MemberKey(y));
        }
        push_node(&mut nodes, CDDLType::Type(&self.entry_type));
        assert(nodes_view(nodes@) =~= children_of(CDDLTypeView::ValueMemberKeyEntry(self@)));
        nodes
    }
}

impl TypeGroupnameEntry {
    /// The children of the node, in the order in which the grammar writes them.
    pub fn children<'a>(&'a self) -> (nodes: Vec<CDDLType<'a>>)
        ensures
            nodes_view(nodes@) == children_of(CDDLTypeView::TypeGroupnameEntry(self@)),
    {
        let mut nodes = no_nodes();
        if let Some(y) = &self.occur {
            push_node(&mut nodes, CDDLType::Occurrence(y));
        }
        if let Some(y) = &self.generic_args {
            push_node(&mut nodes, CDDLType::GenericArgs(y));
        }
        push_node(&mut nodes, CDDLType::Identifier(&self.name));
        assert(nodes_view(nodes@) =~= children_of(CDDLTypeView::TypeGroupnameEntry(self@)));
        nodes
    }
}

impl Occurrence {
    /// The children of the node, in the order in which the grammar writes them.
    pub fn children<'a>(&'a self) -> (nodes: Vec<CDDLType<'a>>)
        ensures
            nodes_view(nodes@) == children_of(CDDLTypeView::Occurrence(self@)),
    {
        let mut nodes = no_nodes();
        push_node(&mut nodes, CDDLType::Occur(self.occur));
        assert(nodes_view(nodes@) =~= children_of(CDDLTypeView::Occurrence(self@)));
        nodes
    }
}

impl MemberKey {
    /// The children of the node, in the order in which the grammar writes them.
    pub fn children<'a>(&'a self) -> (nodes: Vec<CDDLType<'a>>)
        ensures
            nodes_view(nodes@) == children_of(CDDLTypeView::MemberKey(self@)),
    {
        let mut nodes = no_nodes();
        match self {
            MemberKey::Type1 { t1, .. } => push_node(&mut nodes, CDDLType::Type1(t1)),
            MemberKey::Bareword { ident } => push_node(&mut nodes, CDDLType::Identifier(ident)),
            MemberKey::Value { value } => push_node(&mut nodes, CDDLType::Value(value.clone())),
            MemberKey::NonMemberKey { non_member_key } => {
                push_node(&mut nodes, CDDLType::NonMemberKey(non_member_key));
            },
        }
        assert(nodes_view(nodes@) =~= children_of(CDDLTypeView::MemberKey(self@)));
        nodes
    }
}

impl NonMemberKey {
    /// The children of the node, in the order in which the grammar writes them.
    pub fn children<'a>(&'a self) -> (nodes: Vec<CDDLType<'a>>)
        ensures
            nodes_view(nodes@) == children_of(CDDLTypeView::NonMemberKey(self@)),
    {
        let mut nodes = no_nodes();
        match self {
            NonMemberKey::Group(g) => push_node(&mut nodes, CDDLType::Group(g)),
            NonMemberKey::Type(t) => push_node(&mut nodes, CDDLType::Type(t)),
        }
        assert(nodes_view(nodes@) =~= children_of(CDDLTypeView::NonMemberKey(self@)));
        nodes
    }
}

impl<'a> CDDLType<'a> {
    /// The children of the node, in the order in which the grammar writes
    /// them. This is all that a traversal needs to know of the kinds of nodes:
    /// the walk of a tree goes from a node to each of its children in turn
    /// ([`lemma_walk_goes_through_children`]).
    pub fn children(&self) -> (nodes: Vec<CDDLType<'a>>)
        ensures
            nodes_view(nodes@) == children_of(self@),
    {
        match self {
            CDDLType::CDDL(x) => {
                let x: &'a CDDL = x;
                x.children()
            },
            CDDLType::Rule(x) => {
                let x: &'a Rule = x;
                x.children()
            },
            CDDLType::TypeRule(x) => {
                let x: &'a TypeRule = x;
                x.children()
            },
            CDDLType::GroupRule(x) => {
                let x: &'a GroupRule = x;
                x.children()
            },
            CDDLType::Group(x) => {
                let x: &'a Group = x;
                x.children()
            },
            CDDLType::GroupChoice(x) => {
                let x: &'a GroupChoice = x;
                x.children()
            },
            CDDLType::GenericParams(x) => {
                let x: &'a GenericParams = x;
                x.children()
            },
            CDDLType::GenericParam(x) => {
                let x: &'a GenericParam = x;
                x.children()
            },
            CDDLType::GenericArgs(x) => {
                let x: &'a GenericArgs = x;
                x.children()
            },
            CDDLType::GenericArg(x) => {
                let x: &'a GenericArg = x;
                x.children()
            },
            CDDLType::GroupEntry(x) => {
                let x: &'a GroupEntry = x;
                x.children()
            },
            CDDLType::Identifier(_) => no_nodes(),
            CDDLType::Type(x) => {
                let x: &'a Type = x;
                x.children()
            },
            CDDLType::TypeChoice(x) => {
                let x: &'a TypeChoice = x;
                x.children()
            },
            CDDLType::Type1(x) => {
                let x: &'a Type1 = x;
                x.children()
            },
            CDDLType::Type2(x) => {
                let x: &'a Type2 = x;
                x.children()
            },
            CDDLType::Operator(x) => {
                let x: &'a Operator = x;
                x.children()
            },
            CDDLType::Occurrence(x) => {
                let x: &'a Occurrence = x;
                x.children()
            },
            CDDLType::Occur(_) => no_nodes(),
            CDDLType::Value(_) => no_nodes(),
            CDDLType::ValueMemberKeyEntry(x) => {
                let x: &'a ValueMemberKeyEntry = x;
                x.children()
            },
            CDDLType::TypeGroupnameEntry(x) => {
                let x: &'a TypeGroupnameEntry = x;
                x.children()
            },
            CDDLType::MemberKey(x) => {
                let x: &'a MemberKey = x;
                x.children()
            },
            CDDLType::NonMemberKey(x) => {
                let x: &'a NonMemberKey = x;
                x.children()
            },
        }
    }
}

} // verus!
