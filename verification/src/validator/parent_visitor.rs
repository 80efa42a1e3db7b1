//! Finding the parent of a node.
//!
//! A syntax tree is owned from the top down: a node holds its children and
//! knows nothing of its parent. [`ParentVisitor`] walks a schema once and
//! records, beside the tree, which node each node was reached from. The record
//! is an arena: a sequence of slots, one for each distinct node, that refer to
//! each other by position.
//!
//! Nodes are told apart by shape and content, not by where they stand. Two
//! subtrees that are equal share one slot. Such a slot keeps the parent that
//! it was first reached from, and it is listed among the children of every
//! node that it was reached from.
use crate::ast::{
    GenericArg, GenericArgs, GenericParam, GenericParams, Group, GroupChoice, GroupEntry,
    GroupRule, Identifier, MemberKey, NonMemberKey, Occur, Occurrence, Operator, Rule, Type,
    Type1, Type2, TypeChoice, TypeGroupnameEntry, TypeRule, ValueMemberKeyEntry, CDDL,
};
use crate::token::{Value, ValueView};
use crate::validator::arena::{
    arena_build, arena_find, arena_intern, arena_link, arena_parent, arena_record_all, arena_wf,
    lemma_linked, lemma_visited, ArenaTree, NodeView,
};
use crate::visitor::{
    cddl_edges, cddl_edges_upto, edge, generic_arg_edges, generic_args_edges,
    generic_args_edges_upto, generic_param_edges, generic_params_edges,
    generic_params_edges_upto, group_choice_edges, group_choice_edges_upto, group_edges,
    group_edges_upto, group_entry_edges, group_rule_edges, literal_of, member_key_edges,
    non_member_key_edges, occurrence_edges, operator_edges, rule_edges, type1_edges,
    type2_edges, type_choice_edges, type_edges, type_edges_upto, type_groupname_entry_edges,
    type_rule_edges, value_member_key_entry_edges, CDDLType, CDDLTypeView, Edge,
};
use vstd::prelude::*;

verus! {

/// What can go wrong while the index is built.
#[derive(Debug, Clone, Copy, PartialEq, Eq, Structural)]
pub enum Error {
    /// A node that has a parent was given another one. The index keeps the
    /// first parent of a node and never reports this.
    Overwrite,
}

impl Error {
    /// The error in words.
    pub fn to_string(&self) -> (s: String)
        ensures
            s@ == "attempt to overwrite existing tree node"@,
    {
        match self {
            Error::Overwrite => String::from_str("attempt to overwrite existing tree node"),
        }
    }
}

/// The index of a schema: for each of its nodes, the node that the walk
/// reached it from.
#[derive(Debug)]
pub struct ParentVisitor<'a> {
    arena_tree: ArenaTree<'a>,
}

impl<'a> ParentVisitor<'a> {
    /// The arena: its slots in order.
    pub closed spec fn view(&self) -> Seq<NodeView> {
        self.arena_tree@
    }

    /// What holds of every index: see [`arena_wf`].
    pub closed spec fn wf(&self) -> bool {
        self.arena_tree.wf()
    }

    /// An index is a well-formed arena.
    pub proof fn lemma_wf(&self)
        requires
            self.wf(),
        ensures
            arena_wf(self@),
    {
        self.arena_tree.lemma_wf();
    }

    /// Walks `cddl` and records the parent and the children of each node.
    pub fn new(cddl: &'a CDDL) -> (r: Result<Self, Error>)
        ensures
            r matches Ok(index) && index.wf() && index@ == arena_build(cddl@),
    {
        let mut p = ParentVisitor { arena_tree: ArenaTree::new() };
        p.visit_cddl(cddl)?;
        Ok(p)
    }

    /// Records that slot `child` was reached from slot `parent`. A child that
    /// has a parent keeps it: the first parent wins, and nothing is
    /// reported. The parent lists the child in any case.
    pub fn insert(&mut self, parent: usize, child: usize) -> (r: Result<(), Error>)
        requires
            old(self).wf(),
            parent < old(self)@.len(),
            child < old(self)@.len(),
        ensures
            r is Ok,
            final(self).wf(),
            final(self)@ == arena_link(old(self)@, parent as int, child as int),
            final(self)@.len() == old(self)@.len(),
    {
        self.arena_tree.link(parent, child);
        Ok(())
    }

    /// How many slots the index has: one for each distinct node.
    pub fn len(&self) -> (n: usize)
        ensures
            n == self@.len(),
    {
        self.arena_tree.len()
    }

    /// The slot of `val`, if the walk met a node equal to it. Nothing is
    /// registered.
    pub fn index_of(&self, val: &CDDLType<'a>) -> (r: Option<usize>)
        ensures
            match r {
                Some(i) => arena_find(self@, val@) == Some(i as int) && i < self@.len(),
                None => arena_find(self@, val@) is None,
            },
    {
        self.arena_tree.find(val)
    }

    /// The node that slot `idx` stands for.
    pub fn value(&self, idx: usize) -> (val: &CDDLType<'a>)
        requires
            idx < self@.len(),
        ensures
            val@ == self@[idx as int].val,
    {
        self.arena_tree.value(idx)
    }

    /// The slot of the parent of slot `idx`.
    pub fn parent_index(&self, idx: usize) -> (r: Option<usize>)
        requires
            self.wf(),
            idx < self@.len(),
        ensures
            match r {
                Some(p) => self@[idx as int].parent == Some(p as int) && p < self@.len(),
                None => self@[idx as int].parent is None,
            },
    {
        self.arena_tree.parent_index(idx)
    }

    /// The slots of the children of slot `idx`, one for each time that the walk
    /// went from the node to a child.
    pub fn children(&self, idx: usize) -> (r: &Vec<usize>)
        requires
            idx < self@.len(),
        ensures
            r@.len() == self@[idx as int].children.len(),
            forall|k: int| 0 <= k < r@.len() ==> r@[k] as int == self@[idx as int].children[k],
    {
        self.arena_tree.children(idx)
    }

    /// Walks a schema: each rule, in order.
    pub fn visit_cddl(&mut self, cddl: &'a CDDL) -> (r: Result<(), Error>)
        requires
            old(self).wf(),
        ensures
            r is Ok,
            final(self).wf(),
            final(self)@ == arena_record_all(
                arena_intern(old(self)@, CDDLTypeView::CDDL(cddl@)).0,
                cddl_edges(cddl@),
            ),
        decreases cddl, 0nat,
    {
        let parent = self.arena_tree.node(CDDLType::CDDL(cddl));
        let ghost root = self@;
        let ghost p = CDDLTypeView::CDDL(cddl@);
        let mut i: usize = 0;
        while i < cddl.rules.len()
            invariant
                i <= cddl.rules.len(),
                self.wf(),
                self@ == arena_record_all(root, cddl_edges_upto(cddl@, i as nat)),
                arena_find(self@, p) == Some(parent as int),
                parent < self@.len(),
                p == CDDLTypeView::CDDL(cddl@),
            decreases cddl.rules.len() - i,
        {
            let item = &cddl.rules[i];
            let ghost mut done = cddl_edges_upto(cddl@, i as nat);
            let ghost before = self@;
            let ghost c = CDDLTypeView::Rule(item@);
            let child = self.arena_tree.node(CDDLType::Rule(item));
            self.insert(parent, child)?;
            proof {
                lemma_linked(root, done, p, parent as int, c, before, self@);
                done = done.push(edge(p, c));
            }
            let ghost before = self@;
            let ghost below = rule_edges(item@);
            self.visit_rule(item)?;
            proof {
                lemma_visited(root, done, p, parent as int, below, before, self@);
                done = done + below;
            }
            assert(done =~= cddl_edges_upto(cddl@, (i + 1) as nat));
            i += 1;
        }
        Ok(())
    }

    /// Walks a rule: its body.
    pub fn visit_rule(&mut self, rule: &'a Rule) -> (r: Result<(), Error>)
        requires
            old(self).wf(),
        ensures
            r is Ok,
            final(self).wf(),
            final(self)@ == arena_record_all(
                arena_intern(old(self)@, CDDLTypeView::Rule(rule@)).0,
                rule_edges(rule@),
            ),
        decreases rule, 0nat,
    {
        let parent = self.arena_tree.node(CDDLType::Rule(rule));
        let ghost root = self@;
        let ghost p = CDDLTypeView::Rule(rule@);
        let ghost mut done: Seq<Edge> = Seq::empty();
        match rule {
            Rule::Group { rule: body } => {
                let ghost before = self@;
                let ghost c = CDDLTypeView::GroupRule(body@);
                let child = self.arena_tree.node(CDDLType::GroupRule(body));
                self.insert(parent, child)?;
                proof {
                    lemma_linked(root, done, p, parent as int, c, before, self@);
                    done = done.push(edge(p, c));
                }
                let ghost before = self@;
                let ghost below = group_rule_edges(body@);
                self.visit_group_rule(body)?;
                proof {
                    lemma_visited(root, done, p, parent as int, below, before, self@);
                    done = done + below;
                }
            },
            Rule::Type { rule: body } => {
                let ghost before = self@;
                let ghost c = CDDLTypeView::TypeRule(body@);
                let child = self.arena_tree.node(CDDLType::TypeRule(body));
                self.insert(parent, child)?;
                proof {
                    lemma_linked(root, done, p, parent as int, c, before, self@);
                    done = done.push(edge(p, c));
                }
                let ghost before = self@;
                let ghost below = type_rule_edges(body@);
                self.visit_type_rule(body)?;
                proof {
                    lemma_visited(root, done, p, parent as int, below, before, self@);
                    done = done + below;
                }
            },
        }
        assert(done =~= rule_edges(rule@));
        Ok(())
    }

    /// Walks a type rule: its name, its parameters, its type.
    pub fn visit_type_rule(&mut self, tr: &'a TypeRule) -> (r: Result<(), Error>)
        requires
            old(self).wf(),
        ensures
            r is Ok,
            final(self).wf(),
            final(self)@ == arena_record_all(
                arena_intern(old(self)@, CDDLTypeView::TypeRule(tr@)).0,
                type_rule_edges(tr@),
            ),
        decreases tr, 0nat,
    {
        let parent = self.arena_tree.node(CDDLType::TypeRule(tr));
        let ghost root = self@;
        let ghost p = CDDLTypeView::TypeRule(tr@);
        let ghost mut done: Seq<Edge> = Seq::empty();
        let ghost before = self@;
        let ghost c = CDDLTypeView::Identifier(tr.name@);
        let child = self.arena_tree.node(CDDLType::Identifier(&tr.name));
        self.insert(parent, child)?;
        proof {
            lemma_linked(root, done, p, parent as int, c, before, self@);
            done = done.push(edge(p, c));
        }
        if let Some(y) = &tr.generic_params {
            let ghost before = self@;
            let ghost c = CDDLTypeView::GenericParams(y@);
            let child = self.arena_tree.node(CDDLType::GenericParams(y));
            self.insert(parent, child)?;
            proof {
                lemma_linked(root, done, p, parent as int, c, before, self@);
                done = done.push(edge(p, c));
            }
            let ghost before = self@;
            let ghost below = generic_params_edges(y@);
            self.visit_generic_params(y)?;
            proof {
                lemma_visited(root, done, p, parent as int, below, before, self@);
                done = done + below;
            }
        }
        let ghost before = self@;
        let ghost c = CDDLTypeView::Type(tr.value@);
        let child = self.arena_tree.node(CDDLType::Type(&tr.value));
        self.insert(parent, child)?;
        proof {
            lemma_linked(root, done, p, parent as int, c, before, self@);
            done = done.push(edge(p, c));
        }
        let ghost before = self@;
        let ghost below = type_edges(tr.value@);
        self.visit_type(&tr.value)?;
        proof {
            lemma_visited(root, done, p, parent as int, below, before, self@);
            done = done + below;
        }
        assert(done =~= type_rule_edges(tr@));
        Ok(())
    }

    /// Walks a group rule: its name, its parameters, its entry.
    pub fn visit_group_rule(&mut self, gr: &'a GroupRule) -> (r: Result<(), Error>)
        requires
            old(self).wf(),
        ensures
            r is Ok,
            final(self).wf(),
            final(self)@ == arena_record_all(
                arena_intern(old(self)@, CDDLTypeView::GroupRule(gr@)).0,
                group_rule_edges(gr@),
            ),
        decreases gr, 0nat,
    {
        let parent = self.arena_tree.node(CDDLType::GroupRule(gr));
        let ghost root = self@;
        let ghost p = CDDLTypeView::GroupRule(gr@);
        let ghost mut done: Seq<Edge> = Seq::empty();
        let ghost before = self@;
        let ghost c = CDDLTypeView::Identifier(gr.name@);
        let child = self.arena_tree.node(CDDLType::Identifier(&gr.name));
        self.insert(parent, child)?;
        proof {
            lemma_linked(root, done, p, parent as int, c, before, self@);
            done = done.push(edge(p, c));
        }
        if let Some(y) = &gr.generic_params {
            let ghost before = self@;
            let ghost c = CDDLTypeView::GenericParams(y@);
            let child = self.arena_tree.node(CDDLType::GenericParams(y));
            self.insert(parent, child)?;
            proof {
                lemma_linked(root, done, p, parent as int, c, before, self@);
                done = done.push(edge(p, c));
            }
            let ghost before = self@;
            let ghost below = generic_params_edges(y@);
            self.visit_generic_params(y)?;
            proof {
                lemma_visited(root, done, p, parent as int, below, before, self@);
                done = done + below;
            }
        }
        let ghost before = self@;
        let ghost c = CDDLTypeView::GroupEntry(gr.entry@);
        let child = self.arena_tree.node(CDDLType::GroupEntry(&gr.entry));
        self.insert(parent, child)?;
        proof {
            lemma_linked(root, done, p, parent as int, c, before, self@);
            done = done.push(edge(p, c));
        }
        let ghost before = self@;
        let ghost below = group_entry_edges(gr.entry@);
        self.visit_group_entry(&gr.entry)?;
        proof {
            lemma_visited(root, done, p, parent as int, below, before, self@);
            done = done + below;
        }
        assert(done =~= group_rule_edges(gr@));
        Ok(())
    }

    /// Walks a type: each choice, in order.
    pub fn visit_type(&mut self, t: &'a Type) -> (r: Result<(), Error>)
        requires
            old(self).wf(),
        ensures
            r is Ok,
            final(self).wf(),
            final(self)@ == arena_record_all(
                arena_intern(old(self)@, CDDLTypeView::Type(t@)).0,
                type_edges(t@),
            ),
        decreases t, 0nat,
    {
        let parent = self.arena_tree.node(CDDLType::Type(t));
        let ghost root = self@;
        let ghost p = CDDLTypeView::Type(t@);
        let mut i: usize = 0;
        while i < t.type_choices.len()
            invariant
                i <= t.type_choices.len(),
                self.wf(),
                self@ == arena_record_all(root, type_edges_upto(t@, i as nat)),
                arena_find(self@, p) == Some(parent as int),
                parent < self@.len(),
                p == CDDLTypeView::Type(t@),
            decreases t.type_choices.len() - i,
        {
            let item = &t.type_choices[i];
            let ghost mut done = type_edges_upto(t@, i as nat);
            let ghost before = self@;
            let ghost c = CDDLTypeView::TypeChoice(item@);
            let child = self.arena_tree.node(CDDLType::TypeChoice(item));
            self.insert(parent, child)?;
            proof {
                lemma_linked(root, done, p, parent as int, c, before, self@);
                done = done.push(edge(p, c));
            }
            let ghost before = self@;
            let ghost below = type_choice_edges(item@);
            self.visit_type_choice(item)?;
            proof {
                lemma_visited(root, done, p, parent as int, below, before, self@);
                done = done + below;
            }
            assert(done =~= type_edges_upto(t@, (i + 1) as nat));
            i += 1;
        }
        Ok(())
    }

    /// Walks a type choice: its `Type1`.
    pub fn visit_type_choice(&mut self, tc: &'a TypeChoice) -> (r: Result<(), Error>)
        requires
            old(self).wf(),
        ensures
            r is Ok,
            final(self).wf(),
            final(self)@ == arena_record_all(
                arena_intern(old(self)@, CDDLTypeView::TypeChoice(tc@)).0,
                type_choice_edges(tc@),
            ),
        decreases tc, 0nat,
    {
        let parent = self.arena_tree.node(CDDLType::TypeChoice(tc));
        let ghost root = self@;
        let ghost p = CDDLTypeView::TypeChoice(tc@);
        let ghost mut done: Seq<Edge> = Seq::empty();
        let ghost before = self@;
        let ghost c = CDDLTypeView::Type1(tc.type1@);
        let child = self.arena_tree.node(CDDLType::Type1(&tc.type1));
        self.insert(parent, child)?;
        proof {
            lemma_linked(root, done, p, parent as int, c, before, self@);
            done = done.push(edge(p, c));
        }
        let ghost before = self@;
        let ghost below = type1_edges(tc.type1@);
        self.visit_type1(&tc.type1)?;
        proof {
            lemma_visited(root, done, p, parent as int, below, before, self@);
            done = done + below;
        }
        assert(done =~= type_choice_edges(tc@));
        Ok(())
    }

    /// Walks a `Type1`: its operator, then its basic type.
    pub fn visit_type1(&mut self, t1: &'a Type1) -> (r: Result<(), Error>)
        requires
            old(self).wf(),
        ensures
            r is Ok,
            final(self).wf(),
            final(self)@ == arena_record_all(
                arena_intern(old(self)@, CDDLTypeView::Type1(t1@)).0,
                type1_edges(t1@),
            ),
        decreases t1, 0nat,
    {
        let parent = self.arena_tree.node(CDDLType::Type1(t1));
        let ghost root = self@;
        let ghost p = CDDLTypeView::Type1(t1@);
        let ghost mut done: Seq<Edge> = Seq::empty();
        if let Some(y) = &t1.operator {
            let ghost before = self@;
            let ghost c = CDDLTypeView::Operator(y@);
            let child = self.arena_tree.node(CDDLType::Operator(y));
            self.insert(parent, child)?;
            proof {
                lemma_linked(root, done, p, parent as int, c, before, self@);
                done = done.push(edge(p, c));
            }
            let ghost before = self@;
            let ghost below = operator_edges(y@);
            self.visit_operator(y)?;
            proof {
                lemma_visited(root, done, p, parent as int, below, before, self@);
                done = done + below;
            }
        }
        let ghost before = self@;
        let ghost c = CDDLTypeView::Type2(t1.type2@);
        let child = self.arena_tree.node(CDDLType::Type2(&t1.type2));
        self.insert(parent, child)?;
        proof {
            lemma_linked(root, done, p, parent as int, c, before, self@);
            done = done.push(edge(p, c));
        }
        let ghost before = self@;
        let ghost below = type2_edges(t1.type2@);
        self.visit_type2(&t1.type2)?;
        proof {
            lemma_visited(root, done, p, parent as int, below, before, self@);
            done = done + below;
        }
        assert(done =~= type1_edges(t1@));
        Ok(())
    }

    /// Walks an operator: its operand.
    pub fn visit_operator(&mut self, o: &'a Operator) -> (r: Result<(), Error>)
        requires
            old(self).wf(),
        ensures
            r is Ok,
            final(self).wf(),
            final(self)@ == arena_record_all(
                arena_intern(old(self)@, CDDLTypeView::Operator(o@)).0,
                operator_edges(o@),
            ),
        decreases o, 0nat,
    {
        let parent = self.arena_tree.node(CDDLType::Operator(o));
        let ghost root = self@;
        let ghost p = CDDLTypeView::Operator(o@);
        let ghost mut done: Seq<Edge> = Seq::empty();
        let ghost before = self@;
        let ghost c = CDDLTypeView::Type2(o.type2@);
        let child = self.arena_tree.node(CDDLType::Type2(&o.type2));
        self.insert(parent, child)?;
        proof {
            lemma_linked(root, done, p, parent as int, c, before, self@);
            done = done.push(edge(p, c));
        }
        let ghost before = self@;
        let ghost below = type2_edges(o.type2@);
        self.visit_type2(&o.type2)?;
        proof {
            lemma_visited(root, done, p, parent as int, below, before, self@);
            done = done + below;
        }
        assert(done =~= operator_edges(o@));
        Ok(())
    }

    /// Walks a basic type. A literal has one child, its value.
    pub fn visit_type2(&mut self, t2: &'a Type2) -> (r: Result<(), Error>)
        requires
            old(self).wf(),
        ensures
            r is Ok,
            final(self).wf(),
            final(self)@ == arena_record_all(
                arena_intern(old(self)@, CDDLTypeView::Type2(t2@)).0,
                type2_edges(t2@),
            ),
        decreases t2, 0nat,
    {
        let parent = self.arena_tree.node(CDDLType::Type2(t2));
        let ghost root = self@;
        let ghost p = CDDLTypeView::Type2(t2@);
        let ghost mut done: Seq<Edge> = Seq::empty();
        if let Some(value) = t2.literal() {
            let ghost before = self@;
            let ghost c = CDDLTypeView::Value(literal_of(t2@)->0);
            let child = self.arena_tree.node(CDDLType::Value(value));
            self.insert(parent, child)?;
            proof {
                lemma_linked(root, done, p, parent as int, c, before, self@);
                done = done.push(edge(p, c));
            }
            assert(done =~= type2_edges(t2@));
            return Ok(());
        }
        match t2 {
            Type2::Typename { ident, generic_args } => {
                let ghost before = self@;
                let ghost c = CDDLTypeView::Identifier(ident@);
                let child = self.arena_tree.node(CDDLType::Identifier(ident));
                self.insert(parent, child)?;
                proof {
                    lemma_linked(root, done, p, parent as int, c, before, self@);
                    done = done.push(edge(p, c));
                }
                if let Some(y) = generic_args {
                    let ghost before = self@;
                    let ghost c = CDDLTypeView::GenericArgs(y@);
                    let child = self.arena_tree.node(CDDLType::GenericArgs(y));
                    self.insert(parent, child)?;
                    proof {
                        lemma_linked(root, done, p, parent as int, c, before, self@);
                        done = done.push(edge(p, c));
                    }
                    let ghost before = self@;
                    let ghost below = generic_args_edges(y@);
                    self.visit_generic_args(y)?;
                    proof {
                        lemma_visited(root, done, p, parent as int, below, before, self@);
                        done = done + below;
                    }
                }
            },
            Type2::ParenthesizedType { pt } => {
                let ghost before = self@;
                let ghost c = CDDLTypeView::Type(pt@);
                let child = self.arena_tree.node(CDDLType::Type(pt));
                self.insert(parent, child)?;
                proof {
                    lemma_linked(root, done, p, parent as int, c, before, self@);
                    done = done.push(edge(p, c));
                }
                let ghost before = self@;
                let ghost below = type_edges(pt@);
                self.visit_type(pt)?;
                proof {
                    lemma_visited(root, done, p, parent as int, below, before, self@);
                    done = done + below;
                }
            },
            Type2::MapType { group } => {
                let ghost before = self@;
                let ghost c = CDDLTypeView::Group(group@);
                let child = self.arena_tree.node(CDDLType::Group(group));
                self.insert(parent, child)?;
                proof {
                    lemma_linked(root, done, p, parent as int, c, before, self@);
                    done = done.push(edge(p, c));
                }
                let ghost before = self@;
                let ghost below = group_edges(group@);
                self.visit_group(group)?;
                proof {
                    lemma_visited(root, done, p, parent as int, below, before, self@);
                    done = done + below;
                }
            },
            Type2::Array { group } => {
                let ghost before = self@;
                let ghost c = CDDLTypeView::Group(group@);
                let child = self.arena_tree.node(CDDLType::Group(group));
                self.insert(parent, child)?;
                proof {
                    lemma_linked(root, done, p, parent as int, c, before, self@);
                    done = done.push(edge(p, c));
                }
                let ghost before = self@;
                let ghost below = group_edges(group@);
                self.visit_group(group)?;
                proof {
                    lemma_visited(root, done, p, parent as int, below, before, self@);
                    done = done + below;
                }
            },
            Type2::Unwrap { ident, generic_args } => {
                let ghost before = self@;
                let ghost c = CDDLTypeView::Identifier(ident@);
                let child = self.arena_tree.node(CDDLType::Identifier(ident));
                self.insert(parent, child)?;
                proof {
                    lemma_linked(root, done, p, parent as int, c, before, self@);
                    done = done.push(edge(p, c));
                }
                if let Some(y) = generic_args {
                    let ghost before = self@;
                    let ghost c = CDDLTypeView::GenericArgs(y@);
                    let child = self.arena_tree.node(CDDLType::GenericArgs(y));
                    self.insert(parent, child)?;
                    proof {
                        lemma_linked(root, done, p, parent as int, c, before, self@);
                        done = done.push(edge(p, c));
                    }
                    let ghost before = self@;
                    let ghost below = generic_args_edges(y@);
                    self.visit_generic_args(y)?;
                    proof {
                        lemma_visited(root, done, p, parent as int, below, before, self@);
                        done = done + below;
                    }
                }
            },
            Type2::ChoiceFromInlineGroup { group } => {
                let ghost before = self@;
                let ghost c = CDDLTypeView::Group(group@);
                let child = self.arena_tree.node(CDDLType::Group(group));
                self.insert(parent, child)?;
                proof {
                    lemma_linked(root, done, p, parent as int, c, before, self@);
                    done = done.push(edge(p, c));
                }
                let ghost before = self@;
                let ghost below = group_edges(group@);
                self.visit_group(group)?;
                proof {
                    lemma_visited(root, done, p, parent as int, below, before, self@);
                    done = done + below;
                }
            },
            Type2::ChoiceFromGroup { ident, generic_args } => {
                let ghost before = self@;
                let ghost c = CDDLTypeView::Identifier(ident@);
                let child = self.arena_tree.node(CDDLType::Identifier(ident));
                self.insert(parent, child)?;
                proof {
                    lemma_linked(root, done, p, parent as int, c, before, self@);
                    done = done.push(edge(p, c));
                }
                if let Some(y) = generic_args {
                    let ghost before = self@;
                    let ghost c = CDDLTypeView::GenericArgs(y@);
                    let child = self.arena_tree.node(CDDLType::GenericArgs(y));
                    self.insert(parent, child)?;
                    proof {
                        lemma_linked(root, done, p, parent as int, c, before, self@);
                        done = done.push(edge(p, c));
                    }
                    let ghost before = self@;
                    let ghost below = generic_args_edges(y@);
                    self.visit_generic_args(y)?;
                    proof {
                        lemma_visited(root, done, p, parent as int, below, before, self@);
                        done = done + below;
                    }
                }
            },
            Type2::TaggedData { t, .. } => {
                let ghost before = self@;
                let ghost c = CDDLTypeView::Type(t@);
                let child = self.arena_tree.node(CDDLType::Type(t));
                self.insert(parent, child)?;
                proof {
                    lemma_linked(root, done, p, parent as int, c, before, self@);
                    done = done.push(edge(p, c));
                }
                let ghost before = self@;
                let ghost below = type_edges(t@);
                self.visit_type(t)?;
                proof {
                    lemma_visited(root, done, p, parent as int, below, before, self@);
                    done = done + below;
                }
            },
            _ => {},
        }
        assert(done =~= type2_edges(t2@));
        Ok(())
    }

    /// Walks a group: each choice, in order.
    pub fn visit_group(&mut self, g: &'a Group) -> (r: Result<(), Error>)
        requires
            old(self).wf(),
        ensures
            r is Ok,
            final(self).wf(),
            final(self)@ == arena_record_all(
                arena_intern(old(self)@, CDDLTypeView::Group(g@)).0,
                group_edges(g@),
            ),
        decreases g, 0nat,
    {
        let parent = self.arena_tree.node(CDDLType::Group(g));
        let ghost root = self@;
        let ghost p = CDDLTypeView::Group(g@);
        let mut i: usize = 0;
        while i < g.group_choices.len()
            invariant
                i <= g.group_choices.len(),
                self.wf(),
                self@ == arena_record_all(root, group_edges_upto(g@, i as nat)),
                arena_find(self@, p) == Some(parent as int),
                parent < self@.len(),
                p == CDDLTypeView::Group(g@),
            decreases g.group_choices.len() - i,
        {
            let item = &g.group_choices[i];
            let ghost mut done = group_edges_upto(g@, i as nat);
            let ghost before = self@;
            let ghost c = CDDLTypeView::GroupChoice(item@);
            let child = self.arena_tree.node(CDDLType::GroupChoice(item));
            self.insert(parent, child)?;
            proof {
                lemma_linked(root, done, p, parent as int, c, before, self@);
                done = done.push(edge(p, c));
            }
            let ghost before = self@;
            let ghost below = group_choice_edges(item@);
            self.visit_group_choice(item)?;
            proof {
                lemma_visited(root, done, p, parent as int, below, before, self@);
                done = done + below;
            }
            assert(done =~= group_edges_upto(g@, (i + 1) as nat));
            i += 1;
        }
        Ok(())
    }

    /// Walks a group choice: each entry, in order.
    pub fn visit_group_choice(&mut self, gc: &'a GroupChoice) -> (r: Result<(), Error>)
        requires
            old(self).wf(),
        ensures
            r is Ok,
            final(self).wf(),
            final(self)@ == arena_record_all(
                arena_intern(old(self)@, CDDLTypeView::GroupChoice(gc@)).0,
                group_choice_edges(gc@),
            ),
        decreases gc, 0nat,
    {
        let parent = self.arena_tree.node(CDDLType::GroupChoice(gc));
        let ghost root = self@;
        let ghost p = CDDLTypeView::GroupChoice(gc@);
        let mut i: usize = 0;
        while i < gc.group_entries.len()
            invariant
                i <= gc.group_entries.len(),
                self.wf(),
                self@ == arena_record_all(root, group_choice_edges_upto(gc@, i as nat)),
                arena_find(self@, p) == Some(parent as int),
                parent < self@.len(),
                p == CDDLTypeView::GroupChoice(gc@),
            decreases gc.group_entries.len() - i,
        {
            let item = &gc.group_entries[i].0;
            let ghost mut done = group_choice_edges_upto(gc@, i as nat);
            let ghost before = self@;
            let ghost c = CDDLTypeView::GroupEntry(item@);
            let child = self.arena_tree.node(CDDLType::GroupEntry(item));
            self.insert(parent, child)?;
            proof {
                lemma_linked(root, done, p, parent as int, c, before, self@);
                done = done.push(edge(p, c));
            }
            let ghost before = self@;
            let ghost below = group_entry_edges(item@);
            self.visit_group_entry(item)?;
            proof {
                lemma_visited(root, done, p, parent as int, below, before, self@);
                done = done + below;
            }
            assert(done =~= group_choice_edges_upto(gc@, (i + 1) as nat));
            i += 1;
        }
        Ok(())
    }

    /// Walks a group entry.
    pub fn visit_group_entry(&mut self, entry: &'a GroupEntry) -> (r: Result<(), Error>)
        requires
            old(self).wf(),
        ensures
            r is Ok,
            final(self).wf(),
            final(self)@ == arena_record_all(
                arena_intern(old(self)@, CDDLTypeView::GroupEntry(entry@)).0,
                group_entry_edges(entry@),
            ),
        decreases entry, 1nat,
    {
        let parent = self.arena_tree.node(CDDLType::GroupEntry(entry));
        let ghost root = self@;
        let ghost p = CDDLTypeView::GroupEntry(entry@);
        let ghost mut done: Seq<Edge> = Seq::empty();
        match entry {
            GroupEntry::ValueMemberKey { ge } => {
                let ghost before = self@;
                let ghost c = CDDLTypeView::ValueMemberKeyEntry(ge@);
                let child = self.arena_tree.node(CDDLType::ValueMemberKeyEntry(ge));
                self.insert(parent, child)?;
                proof {
                    lemma_linked(root, done, p, parent as int, c, before, self@);
                    done = done.push(edge(p, c));
                }
                let ghost before = self@;
                let ghost below = value_member_key_entry_edges(ge@);
                self.visit_value_member_key_entry(ge)?;
                proof {
                    lemma_visited(root, done, p, parent as int, below, before, self@);
                    done = done + below;
                }
            },
            GroupEntry::TypeGroupname { ge } => {
                let ghost before = self@;
                let ghost c = CDDLTypeView::TypeGroupnameEntry(ge@);
                let child = self.arena_tree.node(CDDLType::TypeGroupnameEntry(ge));
                self.insert(parent, child)?;
                proof {
                    lemma_linked(root, done, p, parent as int, c, before, self@);
                    done = done.push(edge(p, c));
                }
                let ghost before = self@;
                let ghost below = type_groupname_entry_edges(ge@);
                self.visit_type_groupname_entry(ge)?;
                proof {
                    lemma_visited(root, done, p, parent as int, below, before, self@);
                    done = done + below;
                }
            },
            GroupEntry::InlineGroup { .. } => {
                self.visit_inline_group_entry(entry)?;
                proof {
                    done = group_entry_edges(entry@);
                }
            },
        }
        assert(done =~= group_entry_edges(entry@));
        Ok(())
    }

    /// Walks an entry with a key: its occurrence, its key, its type.
    pub fn visit_value_member_key_entry(
        &mut self,
        entry: &'a ValueMemberKeyEntry,
    ) -> (r: Result<(), Error>)
        requires
            old(self).wf(),
        ensures
            r is Ok,
            final(self).wf(),
            final(self)@ == arena_record_all(
                arena_intern(old(self)@, CDDLTypeView::ValueMemberKeyEntry(entry@)).0,
                value_member_key_entry_edges(entry@),
            ),
        decreases entry, 0nat,
    {
        let parent = self.arena_tree.node(CDDLType::ValueMemberKeyEntry(entry));
        let ghost root = self@;
        let ghost p = CDDLTypeView::ValueMemberKeyEntry(entry@);
        let ghost mut done: Seq<Edge> = Seq::empty();
        if let Some(y) = &entry.occur {
            let ghost before = self@;
            let ghost c = CDDLTypeView::Occurrence(y@);
            let child = self.arena_tree.node(CDDLType::Occurrence(y));
            self.insert(parent, child)?;
            proof {
                lemma_linked(root, done, p, parent as int, c, before, self@);
                done = done.push(edge(p, c));
            }
            let ghost before = self@;
            let ghost below = occurrence_edges(y@);
            self.visit_occurrence(y)?;
            proof {
                lemma_visited(root, done, p, parent as int, below, before, self@);
                done = done + below;
            }
        }
        if let Some(y) = &entry.member_key {
            let ghost before = self@;
            let ghost c = CDDLTypeView::MemberKey(y@);
            let child = self.arena_tree.node(CDDLType::MemberKey(y));
            self.insert(parent, child)?;
            proof {
                lemma_linked(root, done, p, parent as int, c, before, self@);
                done = done.push(edge(p, c));
            }
            let ghost before = self@;
            let ghost below = member_key_edges(y@);
            self.visit_memberkey(y)?;
            proof {
                lemma_visited(root, done, p, parent as int, below, before, self@);
                done = done + below;
            }
        }
        let ghost before = self@;
        let ghost c = CDDLTypeView::Type(entry.entry_type@);
        let child = self.arena_tree.node(CDDLType::Type(&entry.entry_type));
        self.insert(parent, child)?;
        proof {
            lemma_linked(root, done, p, parent as int, c, before, self@);
            done = done.push(edge(p, c));
        }
        let ghost before = self@;
        let ghost below = type_edges(entry.entry_type@);
        self.visit_type(&entry.entry_type)?;
        proof {
            lemma_visited(root, done, p, parent as int, below, before, self@);
            done = done + below;
        }
        assert(done =~= value_member_key_entry_edges(entry@));
        Ok(())
    }

    /// Walks an entry that is a name: its occurrence, its arguments, its name.
    pub fn visit_type_groupname_entry(
        &mut self,
        entry: &'a TypeGroupnameEntry,
    ) -> (r: Result<(), Error>)
        requires
            old(self).wf(),
        ensures
            r is Ok,
            final(self).wf(),
            final(self)@ == arena_record_all(
                arena_intern(old(self)@, CDDLTypeView::TypeGroupnameEntry(entry@)).0,
                type_groupname_entry_edges(entry@),
            ),
        decreases entry, 0nat,
    {
        let parent = self.arena_tree.node(CDDLType::TypeGroupnameEntry(entry));
        let ghost root = self@;
        let ghost p = CDDLTypeView::TypeGroupnameEntry(entry@);
        let ghost mut done: Seq<Edge> = Seq::empty();
        if let Some(y) = &entry.occur {
            let ghost before = self@;
            let ghost c = CDDLTypeView::Occurrence(y@);
            let child = self.arena_tree.node(CDDLType::Occurrence(y));
            self.insert(parent, child)?;
            proof {
                lemma_linked(root, done, p, parent as int, c, before, self@);
                done = done.push(edge(p, c));
            }
            let ghost before = self@;
            let ghost below = occurrence_edges(y@);
            self.visit_occurrence(y)?;
            proof {
                lemma_visited(root, done, p, parent as int, below, before, self@);
                done = done + below;
            }
        }
        if let Some(y) = &entry.generic_args {
            let ghost before = self@;
            let ghost c = CDDLTypeView::GenericArgs(y@);
            let child = self.arena_tree.node(CDDLType::GenericArgs(y));
            self.insert(parent, child)?;
            proof {
                lemma_linked(root, done, p, parent as int, c, before, self@);
                done = done.push(edge(p, c));
            }
            let ghost before = self@;
            let ghost below = generic_args_edges(y@);
            self.visit_generic_args(y)?;
            proof {
                lemma_visited(root, done, p, parent as int, below, before, self@);
                done = done + below;
            }
        }
        let ghost before = self@;
        let ghost c = CDDLTypeView::Identifier(entry.name@);
        let child = self.arena_tree.node(CDDLType::Identifier(&entry.name));
        self.insert(parent, child)?;
        proof {
            lemma_linked(root, done, p, parent as int, c, before, self@);
            done = done.push(edge(p, c));
        }
        assert(done =~= type_groupname_entry_edges(entry@));
        Ok(())
    }

    /// Walks a group entry that is a group in parentheses: its occurrence, then
    /// the group.
    pub fn visit_inline_group_entry(&mut self, entry: &'a GroupEntry) -> (r: Result<(), Error>)
        requires
            old(self).wf(),
            entry is InlineGroup,
        ensures
            r is Ok,
            final(self).wf(),
            final(self)@ == arena_record_all(
                arena_intern(old(self)@, CDDLTypeView::GroupEntry(entry@)).0,
                group_entry_edges(entry@),
            ),
        decreases entry, 0nat,
    {
        let parent = self.arena_tree.node(CDDLType::GroupEntry(entry));
        let ghost root = self@;
        let ghost p = CDDLTypeView::GroupEntry(entry@);
        let ghost mut done: Seq<Edge> = Seq::empty();
        if let GroupEntry::InlineGroup { occur, group } = entry {
            if let Some(y) = occur {
                let ghost before = self@;
                let ghost c = CDDLTypeView::Occurrence(y@);
                let child = self.arena_tree.node(CDDLType::Occurrence(y));
                self.insert(parent, child)?;
                proof {
                    lemma_linked(root, done, p, parent as int, c, before, self@);
                    done = done.push(edge(p, c));
                }
                let ghost before = self@;
                let ghost below = occurrence_edges(y@);
                self.visit_occurrence(y)?;
                proof {
                    lemma_visited(root, done, p, parent as int, below, before, self@);
                    done = done + below;
                }
            }
            let ghost before = self@;
            let ghost c = CDDLTypeView::Group(group@);
            let child = self.arena_tree.node(CDDLType::Group(group));
            self.insert(parent, child)?;
            proof {
                lemma_linked(root, done, p, parent as int, c, before, self@);
                done = done.push(edge(p, c));
            }
            let ghost before = self@;
            let ghost below = group_edges(group@);
            self.visit_group(group)?;
            proof {
                lemma_visited(root, done, p, parent as int, below, before, self@);
                done = done + below;
            }
        }
        assert(done =~= group_entry_edges(entry@));
        Ok(())
    }

    /// Walks an occurrence indicator: what it says.
    pub fn visit_occurrence(&mut self, o: &'a Occurrence) -> (r: Result<(), Error>)
        requires
            old(self).wf(),
        ensures
            r is Ok,
            final(self).wf(),
            final(self)@ == arena_record_all(
                arena_intern(old(self)@, CDDLTypeView::Occurrence(o@)).0,
                occurrence_edges(o@),
            ),
        decreases o, 0nat,
    {
        let parent = self.arena_tree.node(CDDLType::Occurrence(o));
        let ghost root = self@;
        let ghost p = CDDLTypeView::Occurrence(o@);
        let ghost mut done: Seq<Edge> = Seq::empty();
        let ghost before = self@;
        let ghost c = CDDLTypeView::Occur(o.occur);
        let child = self.arena_tree.node(CDDLType::Occur(o.occur));
        self.insert(parent, child)?;
        proof {
            lemma_linked(root, done, p, parent as int, c, before, self@);
            done = done.push(edge(p, c));
        }
        assert(done =~= occurrence_edges(o@));
        Ok(())
    }

    /// Walks a key.
    pub fn visit_memberkey(&mut self, mk: &'a MemberKey) -> (r: Result<(), Error>)
        requires
            old(self).wf(),
        ensures
            r is Ok,
            final(self).wf(),
            final(self)@ == arena_record_all(
                arena_intern(old(self)@, CDDLTypeView::MemberKey(mk@)).0,
                member_key_edges(mk@),
            ),
        decreases mk, 0nat,
    {
        let parent = self.arena_tree.node(CDDLType::MemberKey(mk));
        let ghost root = self@;
        let ghost p = CDDLTypeView::MemberKey(mk@);
        let ghost mut done: Seq<Edge> = Seq::empty();
        match mk {
            MemberKey::Type1 { t1, .. } => {
                let ghost before = self@;
                let ghost c = CDDLTypeView::Type1(t1@);
                let child = self.arena_tree.node(CDDLType::Type1(t1));
                self.insert(parent, child)?;
                proof {
                    lemma_linked(root, done, p, parent as int, c, before, self@);
                    done = done.push(edge(p, c));
                }
                let ghost before = self@;
                let ghost below = type1_edges(t1@);
                self.visit_type1(t1)?;
                proof {
                    lemma_visited(root, done, p, parent as int, below, before, self@);
                    done = done + below;
                }
            },
            MemberKey::Bareword { ident } => {
                let ghost before = self@;
                let ghost c = CDDLTypeView::Identifier(ident@);
                let child = self.arena_tree.node(CDDLType::Identifier(ident));
                self.insert(parent, child)?;
                proof {
                    lemma_linked(root, done, p, parent as int, c, before, self@);
                    done = done.push(edge(p, c));
                }
            },
            MemberKey::Value { value } => {
                let ghost before = self@;
                let ghost c = CDDLTypeView::Value(value@);
                let child = self.arena_tree.node(CDDLType::Value(value.clone()));
                self.insert(parent, child)?;
                proof {
                    lemma_linked(root, done, p, parent as int, c, before, self@);
                    done = done.push(edge(p, c));
                }
            },
            MemberKey::NonMemberKey { non_member_key } => {
                let ghost before = self@;
                let ghost c = CDDLTypeView::NonMemberKey(non_member_key@);
                let child = self.arena_tree.node(CDDLType::NonMemberKey(non_member_key));
                self.insert(parent, child)?;
                proof {
                    lemma_linked(root, done, p, parent as int, c, before, self@);
                    done = done.push(edge(p, c));
                }
                let ghost before = self@;
                let ghost below = non_member_key_edges(non_member_key@);
                self.visit_nonmemberkey(non_member_key)?;
                proof {
                    lemma_visited(root, done, p, parent as int, below, before, self@);
                    done = done + below;
                }
            },
        }
        assert(done =~= member_key_edges(mk@));
        Ok(())
    }

    /// Walks an argument list: each argument, in order.
    pub fn visit_generic_args(&mut self, args: &'a GenericArgs) -> (r: Result<(), Error>)
        requires
            old(self).wf(),
        ensures
            r is Ok,
            final(self).wf(),
            final(self)@ == arena_record_all(
                arena_intern(old(self)@, CDDLTypeView::GenericArgs(args@)).0,
                generic_args_edges(args@),
            ),
        decreases args, 0nat,
    {
        let parent = self.arena_tree.node(CDDLType::GenericArgs(args));
        let ghost root = self@;
        let ghost p = CDDLTypeView::GenericArgs(args@);
        let mut i: usize = 0;
        while i < args.args.len()
            invariant
                i <= args.args.len(),
                self.wf(),
                self@ == arena_record_all(root, generic_args_edges_upto(args@, i as nat)),
                arena_find(self@, p) == Some(parent as int),
                parent < self@.len(),
                p == CDDLTypeView::GenericArgs(args@),
            decreases args.args.len() - i,
        {
            let item = &args.args[i];
            let ghost mut done = generic_args_edges_upto(args@, i as nat);
            let ghost before = self@;
            let ghost c = CDDLTypeView::GenericArg(item@);
            let child = self.arena_tree.node(CDDLType::GenericArg(item));
            self.insert(parent, child)?;
            proof {
                lemma_linked(root, done, p, parent as int, c, before, self@);
                done = done.push(edge(p, c));
            }
            let ghost before = self@;
            let ghost below = generic_arg_edges(item@);
            self.visit_generic_arg(item)?;
            proof {
                lemma_visited(root, done, p, parent as int, below, before, self@);
                done = done + below;
            }
            assert(done =~= generic_args_edges_upto(args@, (i + 1) as nat));
            i += 1;
        }
        Ok(())
    }

    /// Walks an argument: its type.
    pub fn visit_generic_arg(&mut self, arg: &'a GenericArg) -> (r: Result<(), Error>)
        requires
            old(self).wf(),
        ensures
            r is Ok,
            final(self).wf(),
            final(self)@ == arena_record_all(
                arena_intern(old(self)@, CDDLTypeView::GenericArg(arg@)).0,
                generic_arg_edges(arg@),
            ),
        decreases arg, 0nat,
    {
        let parent = self.arena_tree.node(CDDLType::GenericArg(arg));
        let ghost root = self@;
        let ghost p = CDDLTypeView::GenericArg(arg@);
        let ghost mut done: Seq<Edge> = Seq::empty();
        let ghost before = self@;
        let ghost c = CDDLTypeView::Type1(arg.arg@);
        let child = self.arena_tree.node(CDDLType::Type1(&arg.arg));
        self.insert(parent, child)?;
        proof {
            lemma_linked(root, done, p, parent as int, c, before, self@);
            done = done.push(edge(p, c));
        }
        let ghost before = self@;
        let ghost below = type1_edges(arg.arg@);
        self.visit_type1(&arg.arg)?;
        proof {
            lemma_visited(root, done, p, parent as int, below, before, self@);
            done = done + below;
        }
        assert(done =~= generic_arg_edges(arg@));
        Ok(())
    }

    /// Walks a parameter list: each parameter, in order.
    pub fn visit_generic_params(&mut self, params: &'a GenericParams) -> (r: Result<(), Error>)
        requires
            old(self).wf(),
        ensures
            r is Ok,
            final(self).wf(),
            final(self)@ == arena_record_all(
                arena_intern(old(self)@, CDDLTypeView::GenericParams(params@)).0,
                generic_params_edges(params@),
            ),
        decreases params, 0nat,
    {
        let parent = self.arena_tree.node(CDDLType::GenericParams(params));
        let ghost root = self@;
        let ghost p = CDDLTypeView::GenericParams(params@);
        let mut i: usize = 0;
        while i < params.params.len()
            invariant
                i <= params.params.len(),
                self.wf(),
                self@ == arena_record_all(root, generic_params_edges_upto(params@, i as nat)),
                arena_find(self@, p) == Some(parent as int),
                parent < self@.len(),
                p == CDDLTypeView::GenericParams(params@),
            decreases params.params.len() - i,
        {
            let item = &params.params[i];
            let ghost mut done = generic_params_edges_upto(params@, i as nat);
            let ghost before = self@;
            let ghost c = CDDLTypeView::GenericParam(item@);
            let child = self.arena_tree.node(CDDLType::GenericParam(item));
            self.insert(parent, child)?;
            proof {
                lemma_linked(root, done, p, parent as int, c, before, self@);
                done = done.push(edge(p, c));
            }
            let ghost before = self@;
            let ghost below = generic_param_edges(item@);
            self.visit_generic_param(item)?;
            proof {
                lemma_visited(root, done, p, parent as int, below, before, self@);
                done = done + below;
            }
            assert(done =~= generic_params_edges_upto(params@, (i + 1) as nat));
            i += 1;
        }
        Ok(())
    }

    /// Walks a parameter: its name.
    pub fn visit_generic_param(&mut self, param: &'a GenericParam) -> (r: Result<(), Error>)
        requires
            old(self).wf(),
        ensures
            r is Ok,
            final(self).wf(),
            final(self)@ == arena_record_all(
                arena_intern(old(self)@, CDDLTypeView::GenericParam(param@)).0,
                generic_param_edges(param@),
            ),
        decreases param, 0nat,
    {
        let parent = self.arena_tree.node(CDDLType::GenericParam(param));
        let ghost root = self@;
        let ghost p = CDDLTypeView::GenericParam(param@);
        let ghost mut done: Seq<Edge> = Seq::empty();
        let ghost before = self@;
        let ghost c = CDDLTypeView::Identifier(param.param@);
        let child = self.arena_tree.node(CDDLType::Identifier(&param.param));
        self.insert(parent, child)?;
        proof {
            lemma_linked(root, done, p, parent as int, c, before, self@);
            done = done.push(edge(p, c));
        }
        assert(done =~= generic_param_edges(param@));
        Ok(())
    }

    /// Walks a type or group in key position.
    pub fn visit_nonmemberkey(&mut self, nmk: &'a NonMemberKey) -> (r: Result<(), Error>)
        requires
            old(self).wf(),
        ensures
            r is Ok,
            final(self).wf(),
            final(self)@ == arena_record_all(
                arena_intern(old(self)@, CDDLTypeView::NonMemberKey(nmk@)).0,
                non_member_key_edges(nmk@),
            ),
        decreases nmk, 0nat,
    {
        let parent = self.arena_tree.node(CDDLType::NonMemberKey(nmk));
        let ghost root = self@;
        let ghost p = CDDLTypeView::NonMemberKey(nmk@);
        let ghost mut done: Seq<Edge> = Seq::empty();
        match nmk {
            NonMemberKey::Group(group) => {
                let ghost before = self@;
                let ghost c = CDDLTypeView::Group(group@);
                let child = self.arena_tree.node(CDDLType::Group(group));
                self.insert(parent, child)?;
                proof {
                    lemma_linked(root, done, p, parent as int, c, before, self@);
                    done = done.push(edge(p, c));
                }
                let ghost before = self@;
                let ghost below = group_edges(group@);
                self.visit_group(group)?;
                proof {
                    lemma_visited(root, done, p, parent as int, below, before, self@);
                    done = done + below;
                }
            },
            NonMemberKey::Type(t) => {
                let ghost before = self@;
                let ghost c = CDDLTypeView::Type(t@);
                let child = self.arena_tree.node(CDDLType::Type(t));
                self.insert(parent, child)?;
                proof {
                    lemma_linked(root, done, p, parent as int, c, before, self@);
                    done = done.push(edge(p, c));
                }
                let ghost before = self@;
                let ghost below = type_edges(t@);
                self.visit_type(t)?;
                proof {
                    lemma_visited(root, done, p, parent as int, below, before, self@);
                    done = done + below;
                }
            },
        }
        assert(done =~= non_member_key_edges(nmk@));
        Ok(())
    }
}

impl<'a> CDDLType<'a> {
    /// The node that the walk first reached this node from: none for a node
    /// that the walk did not meet, and for the schema itself. The index is
    /// searched for a node equal to this one; nothing is registered.
    pub fn parent<'b>(&self, visitor: &'b ParentVisitor<'a>) -> (r: Option<&'b CDDLType<'a>>)
        requires
            visitor.wf(),
        ensures
            match arena_parent(visitor@, self@) {
                Some(p) => r matches Some(found) && found@ == p,
                None => r is None,
            },
    {
        match visitor.index_of(self) {
            Some(i) => match visitor.parent_index(i) {
                Some(p) => Some(visitor.value(p)),
                None => None,
            },
            None => None,
        }
    }
}

/// A node of which the index can tell the parent, as a node of type `T`.
///
/// A kind of node has one implementation for each kind of node that can hold
/// it. Each returns the recorded parent of the node if that parent is a `T`,
/// and nothing otherwise.
pub trait Parent<'a, T> {
    /// The recorded parent of this node, if the node has one and it is of
    /// the kind of `T`.
    spec fn recorded(&self, visitor: &ParentVisitor<'a>) -> Option<CDDLTypeView>;

    /// A `T` as a node.
    spec fn node_of(parent: &T) -> CDDLTypeView;

    /// The parent of this node, if the index has recorded one and it is a
    /// `T`.
    fn parent(&'a self, parent_visitor: &'a ParentVisitor<'a>) -> (r: Option<&'a T>)
        requires
            parent_visitor.wf(),
        ensures
            match self.recorded(parent_visitor) {
                Some(p) => r matches Some(found) && Self::node_of(found) == p,
                None => r is None,
            },
    ;
}

impl<'a> Parent<'a, ()> for CDDL {
    /// A schema is the root of its tree: it has no parent.
    open spec fn recorded(&self, visitor: &ParentVisitor<'a>) -> Option<CDDLTypeView> {
        None
    }

    open spec fn node_of(parent: &()) -> CDDLTypeView {
        arbitrary()
    }

    fn parent(&'a self, _parent_visitor: &'a ParentVisitor<'a>) -> (r: Option<&'a ()>) {
        None
    }
}

impl<'a> Parent<'a, CDDL> for Rule {
    open spec fn recorded(&self, visitor: &ParentVisitor<'a>) -> Option<CDDLTypeView> {
        match arena_parent(visitor@, CDDLTypeView::Rule(self@)) {
            Some(CDDLTypeView::CDDL(p)) => Some(CDDLTypeView::CDDL(p)),
            _ => None,
        }
    }

    open spec fn node_of(parent: &CDDL) -> CDDLTypeView {
        CDDLTypeView::CDDL(parent@)
    }

    fn parent(&'a self, parent_visitor: &'a ParentVisitor<'a>) -> (r: Option<&'a CDDL>) {
        let node = CDDLType::Rule(self);
        if let Some(CDDLType::CDDL(found)) = node.parent(parent_visitor) {
            return Some(found);
        }
        None
    }
}

impl<'a> Parent<'a, Rule> for TypeRule {
    open spec fn recorded(&self, visitor: &ParentVisitor<'a>) -> Option<CDDLTypeView> {
        match arena_parent(visitor@, CDDLTypeView::TypeRule(self@)) {
            Some(CDDLTypeView::Rule(p)) => Some(CDDLTypeView::Rule(p)),
            _ => None,
        }
    }

    open spec fn node_of(parent: &Rule) -> CDDLTypeView {
        CDDLTypeView::Rule(parent@)
    }

    fn parent(&'a self, parent_visitor: &'a ParentVisitor<'a>) -> (r: Option<&'a Rule>) {
        let node = CDDLType::TypeRule(self);
        if let Some(CDDLType::Rule(found)) = node.parent(parent_visitor) {
            return Some(found);
        }
        None
    }
}

impl<'a> Parent<'a, Rule> for GroupRule {
    open spec fn recorded(&self, visitor: &ParentVisitor<'a>) -> Option<CDDLTypeView> {
        match arena_parent(visitor@, CDDLTypeView::GroupRule(self@)) {
            Some(CDDLTypeView::Rule(p)) => Some(CDDLTypeView::Rule(p)),
            _ => None,
        }
    }

    open spec fn node_of(parent: &Rule) -> CDDLTypeView {
        CDDLTypeView::Rule(parent@)
    }

    fn parent(&'a self, parent_visitor: &'a ParentVisitor<'a>) -> (r: Option<&'a Rule>) {
        let node = CDDLType::GroupRule(self);
        if let Some(CDDLType::Rule(found)) = node.parent(parent_visitor) {
            return Some(found);
        }
        None
    }
}

impl<'a> Parent<'a, TypeRule> for Type {
    open spec fn recorded(&self, visitor: &ParentVisitor<'a>) -> Option<CDDLTypeView> {
        match arena_parent(visitor@, CDDLTypeView::Type(self@)) {
            Some(CDDLTypeView::TypeRule(p)) => Some(CDDLTypeView::TypeRule(p)),
            _ => None,
        }
    }

    open spec fn node_of(parent: &TypeRule) -> CDDLTypeView {
        CDDLTypeView::TypeRule(parent@)
    }

    fn parent(&'a self, parent_visitor: &'a ParentVisitor<'a>) -> (r: Option<&'a TypeRule>) {
        let node = CDDLType::Type(self);
        if let Some(CDDLType::TypeRule(found)) = node.parent(parent_visitor) {
            return Some(found);
        }
        None
    }
}

impl<'a> Parent<'a, Type2> for Type {
    open spec fn recorded(&self, visitor: &ParentVisitor<'a>) -> Option<CDDLTypeView> {
        match arena_parent(visitor@, CDDLTypeView::Type(self@)) {
            Some(CDDLTypeView::Type2(p)) => Some(CDDLTypeView::Type2(p)),
            _ => None,
        }
    }

    open spec fn node_of(parent: &Type2) -> CDDLTypeView {
        CDDLTypeView::Type2(parent@)
    }

    fn parent(&'a self, parent_visitor: &'a ParentVisitor<'a>) -> (r: Option<&'a Type2>) {
        let node = CDDLType::Type(self);
        if let Some(CDDLType::Type2(found)) = node.parent(parent_visitor) {
            return Some(found);
        }
        None
    }
}

impl<'a> Parent<'a, ValueMemberKeyEntry> for Type {
    open spec fn recorded(&self, visitor: &ParentVisitor<'a>) -> Option<CDDLTypeView> {
        match arena_parent(visitor@, CDDLTypeView::Type(self@)) {
            Some(CDDLTypeView::ValueMemberKeyEntry(p)) => {
                Some(CDDLTypeView::ValueMemberKeyEntry(p))
            },
            _ => None,
        }
    }

    open spec fn node_of(parent: &ValueMemberKeyEntry) -> CDDLTypeView {
        CDDLTypeView::ValueMemberKeyEntry(parent@)
    }

    fn parent(
        &'a self,
        parent_visitor: &'a ParentVisitor<'a>,
    ) -> (r: Option<&'a ValueMemberKeyEntry>) {
        let node = CDDLType::Type(self);
        if let Some(CDDLType::ValueMemberKeyEntry(found)) = node.parent(parent_visitor) {
            return Some(found);
        }
        None
    }
}

impl<'a> Parent<'a, NonMemberKey> for Type {
    open spec fn recorded(&self, visitor: &ParentVisitor<'a>) -> Option<CDDLTypeView> {
        match arena_parent(visitor@, CDDLTypeView::Type(self@)) {
            Some(CDDLTypeView::NonMemberKey(p)) => Some(CDDLTypeView::NonMemberKey(p)),
            _ => None,
        }
    }

    open spec fn node_of(parent: &NonMemberKey) -> CDDLTypeView {
        CDDLTypeView::NonMemberKey(parent@)
    }

    fn parent(&'a self, parent_visitor: &'a ParentVisitor<'a>) -> (r: Option<&'a NonMemberKey>) {
        let node = CDDLType::Type(self);
        if let Some(CDDLType::NonMemberKey(found)) = node.parent(parent_visitor) {
            return Some(found);
        }
        None
    }
}

impl<'a> Parent<'a, Type> for TypeChoice {
    open spec fn recorded(&self, visitor: &ParentVisitor<'a>) -> Option<CDDLTypeView> {
        match arena_parent(visitor@, CDDLTypeView::TypeChoice(self@)) {
            Some(CDDLTypeView::Type(p)) => Some(CDDLTypeView::Type(p)),
            _ => None,
        }
    }

    open spec fn node_of(parent: &Type) -> CDDLTypeView {
        CDDLTypeView::Type(parent@)
    }

    fn parent(&'a self, parent_visitor: &'a ParentVisitor<'a>) -> (r: Option<&'a Type>) {
        let node = CDDLType::TypeChoice(self);
        if let Some(CDDLType::Type(found)) = node.parent(parent_visitor) {
            return Some(found);
        }
        None
    }
}

impl<'a> Parent<'a, TypeChoice> for Type1 {
    open spec fn recorded(&self, visitor: &ParentVisitor<'a>) -> Option<CDDLTypeView> {
        match arena_parent(visitor@, CDDLTypeView::Type1(self@)) {
            Some(CDDLTypeView::TypeChoice(p)) => Some(CDDLTypeView::TypeChoice(p)),
            _ => None,
        }
    }

    open spec fn node_of(parent: &TypeChoice) -> CDDLTypeView {
        CDDLTypeView::TypeChoice(parent@)
    }

    fn parent(&'a self, parent_visitor: &'a ParentVisitor<'a>) -> (r: Option<&'a TypeChoice>) {
        let node = CDDLType::Type1(self);
        if let Some(CDDLType::TypeChoice(found)) = node.parent(parent_visitor) {
            return Some(found);
        }
        None
    }
}

impl<'a> Parent<'a, GenericArg> for Type1 {
    open spec fn recorded(&self, visitor: &ParentVisitor<'a>) -> Option<CDDLTypeView> {
        match arena_parent(visitor@, CDDLTypeView::Type1(self@)) {
            Some(CDDLTypeView::GenericArg(p)) => Some(CDDLTypeView::GenericArg(p)),
            _ => None,
        }
    }

    open spec fn node_of(parent: &GenericArg) -> CDDLTypeView {
        CDDLTypeView::GenericArg(parent@)
    }

    fn parent(&'a self, parent_visitor: &'a ParentVisitor<'a>) -> (r: Option<&'a GenericArg>) {
        let node = CDDLType::Type1(self);
        if let Some(CDDLType::GenericArg(found)) = node.parent(parent_visitor) {
            return Some(found);
        }
        None
    }
}

impl<'a> Parent<'a, MemberKey> for Type1 {
    open spec fn recorded(&self, visitor: &ParentVisitor<'a>) -> Option<CDDLTypeView> {
        match arena_parent(visitor@, CDDLTypeView::Type1(self@)) {
            Some(CDDLTypeView::MemberKey(p)) => Some(CDDLTypeView::MemberKey(p)),
            _ => None,
        }
    }

    open spec fn node_of(parent: &MemberKey) -> CDDLTypeView {
        CDDLTypeView::MemberKey(parent@)
    }

    fn parent(&'a self, parent_visitor: &'a ParentVisitor<'a>) -> (r: Option<&'a MemberKey>) {
        let node = CDDLType::Type1(self);
        if let Some(CDDLType::MemberKey(found)) = node.parent(parent_visitor) {
            return Some(found);
        }
        None
    }
}

impl<'a> Parent<'a, Type1> for Operator {
    open spec fn recorded(&self, visitor: &ParentVisitor<'a>) -> Option<CDDLTypeView> {
        match arena_parent(visitor@, CDDLTypeView::Operator(self@)) {
            Some(CDDLTypeView::Type1(p)) => Some(CDDLTypeView::Type1(p)),
            _ => None,
        }
    }

    open spec fn node_of(parent: &Type1) -> CDDLTypeView {
        CDDLTypeView::Type1(parent@)
    }

    fn parent(&'a self, parent_visitor: &'a ParentVisitor<'a>) -> (r: Option<&'a Type1>) {
        let node = CDDLType::Operator(self);
        if let Some(CDDLType::Type1(found)) = node.parent(parent_visitor) {
            return Some(found);
        }
        None
    }
}

impl<'a> Parent<'a, Type1> for Type2 {
    open spec fn recorded(&self, visitor: &ParentVisitor<'a>) -> Option<CDDLTypeView> {
        match arena_parent(visitor@, CDDLTypeView::Type2(self@)) {
            Some(CDDLTypeView::Type1(p)) => Some(CDDLTypeView::Type1(p)),
            _ => None,
        }
    }

    open spec fn node_of(parent: &Type1) -> CDDLTypeView {
        CDDLTypeView::Type1(parent@)
    }

    fn parent(&'a self, parent_visitor: &'a ParentVisitor<'a>) -> (r: Option<&'a Type1>) {
        let node = CDDLType::Type2(self);
        if let Some(CDDLType::Type1(found)) = node.parent(parent_visitor) {
            return Some(found);
        }
        None
    }
}

impl<'a> Parent<'a, Operator> for Type2 {
    open spec fn recorded(&self, visitor: &ParentVisitor<'a>) -> Option<CDDLTypeView> {
        match arena_parent(visitor@, CDDLTypeView::Type2(self@)) {
            Some(CDDLTypeView::Operator(p)) => Some(CDDLTypeView::Operator(p)),
            _ => None,
        }
    }

    open spec fn node_of(parent: &Operator) -> CDDLTypeView {
        CDDLTypeView::Operator(parent@)
    }

    fn parent(&'a self, parent_visitor: &'a ParentVisitor<'a>) -> (r: Option<&'a Operator>) {
        let node = CDDLType::Type2(self);
        if let Some(CDDLType::Operator(found)) = node.parent(parent_visitor) {
            return Some(found);
        }
        None
    }
}

impl<'a> Parent<'a, Type2> for Value {
    open spec fn recorded(&self, visitor: &ParentVisitor<'a>) -> Option<CDDLTypeView> {
        match arena_parent(visitor@, CDDLTypeView::Value(self@)) {
            Some(CDDLTypeView::Type2(p)) => Some(CDDLTypeView::Type2(p)),
            _ => None,
        }
    }

    open spec fn node_of(parent: &Type2) -> CDDLTypeView {
        CDDLTypeView::Type2(parent@)
    }

    fn parent(&'a self, parent_visitor: &'a ParentVisitor<'a>) -> (r: Option<&'a Type2>) {
        let node = CDDLType::Value(self.clone());
        if let Some(CDDLType::Type2(found)) = node.parent(parent_visitor) {
            return Some(found);
        }
        None
    }
}

impl<'a> Parent<'a, MemberKey> for Value {
    open spec fn recorded(&self, visitor: &ParentVisitor<'a>) -> Option<CDDLTypeView> {
        match arena_parent(visitor@, CDDLTypeView::Value(self@)) {
            Some(CDDLTypeView::MemberKey(p)) => Some(CDDLTypeView::MemberKey(p)),
            _ => None,
        }
    }

    open spec fn node_of(parent: &MemberKey) -> CDDLTypeView {
        CDDLTypeView::MemberKey(parent@)
    }

    fn parent(&'a self, parent_visitor: &'a ParentVisitor<'a>) -> (r: Option<&'a MemberKey>) {
        let node = CDDLType::Value(self.clone());
        if let Some(CDDLType::MemberKey(found)) = node.parent(parent_visitor) {
            return Some(found);
        }
        None
    }
}

impl<'a> Parent<'a, Type2> for String {
    open spec fn recorded(&self, visitor: &ParentVisitor<'a>) -> Option<CDDLTypeView> {
        match arena_parent(visitor@, CDDLTypeView::Value(ValueView::TEXT(self@))) {
            Some(CDDLTypeView::Type2(p)) => Some(CDDLTypeView::Type2(p)),
            _ => None,
        }
    }

    open spec fn node_of(parent: &Type2) -> CDDLTypeView {
        CDDLTypeView::Type2(parent@)
    }

    fn parent(&'a self, parent_visitor: &'a ParentVisitor<'a>) -> (r: Option<&'a Type2>) {
        let node = CDDLType::Value(Value::TEXT(self.clone()));
        if let Some(CDDLType::Type2(found)) = node.parent(parent_visitor) {
            return Some(found);
        }
        None
    }
}

impl<'a> Parent<'a, TypeRule> for Identifier {
    open spec fn recorded(&self, visitor: &ParentVisitor<'a>) -> Option<CDDLTypeView> {
        match arena_parent(visitor@, CDDLTypeView::Identifier(self@)) {
            Some(CDDLTypeView::TypeRule(p)) => Some(CDDLTypeView::TypeRule(p)),
            _ => None,
        }
    }

    open spec fn node_of(parent: &TypeRule) -> CDDLTypeView {
        CDDLTypeView::TypeRule(parent@)
    }

    fn parent(&'a self, parent_visitor: &'a ParentVisitor<'a>) -> (r: Option<&'a TypeRule>) {
        let node = CDDLType::Identifier(self);
        if let Some(CDDLType::TypeRule(found)) = node.parent(parent_visitor) {
            return Some(found);
        }
        None
    }
}

impl<'a> Parent<'a, GroupRule> for Identifier {
    open spec fn recorded(&self, visitor: &ParentVisitor<'a>) -> Option<CDDLTypeView> {
        match arena_parent(visitor@, CDDLTypeView::Identifier(self@)) {
            Some(CDDLTypeView::GroupRule(p)) => Some(CDDLTypeView::GroupRule(p)),
            _ => None,
        }
    }

    open spec fn node_of(parent: &GroupRule) -> CDDLTypeView {
        CDDLTypeView::GroupRule(parent@)
    }

    fn parent(&'a self, parent_visitor: &'a ParentVisitor<'a>) -> (r: Option<&'a GroupRule>) {
        let node = CDDLType::Identifier(self);
        if let Some(CDDLType::GroupRule(found)) = node.parent(parent_visitor) {
            return Some(found);
        }
        None
    }
}

impl<'a> Parent<'a, GenericParam> for Identifier {
    open spec fn recorded(&self, visitor: &ParentVisitor<'a>) -> Option<CDDLTypeView> {
        match arena_parent(visitor@, CDDLTypeView::Identifier(self@)) {
            Some(CDDLTypeView::GenericParam(p)) => Some(CDDLTypeView::GenericParam(p)),
            _ => None,
        }
    }

    open spec fn node_of(parent: &GenericParam) -> CDDLTypeView {
        CDDLTypeView::GenericParam(parent@)
    }

    fn parent(&'a self, parent_visitor: &'a ParentVisitor<'a>) -> (r: Option<&'a GenericParam>) {
        let node = CDDLType::Identifier(self);
        if let Some(CDDLType::GenericParam(found)) = node.parent(parent_visitor) {
            return Some(found);
        }
        None
    }
}

impl<'a> Parent<'a, Type2> for Identifier {
    open spec fn recorded(&self, visitor: &ParentVisitor<'a>) -> Option<CDDLTypeView> {
        match arena_parent(visitor@, CDDLTypeView::Identifier(self@)) {
            Some(CDDLTypeView::Type2(p)) => Some(CDDLTypeView::Type2(p)),
            _ => None,
        }
    }

    open spec fn node_of(parent: &Type2) -> CDDLTypeView {
        CDDLTypeView::Type2(parent@)
    }

    fn parent(&'a self, parent_visitor: &'a ParentVisitor<'a>) -> (r: Option<&'a Type2>) {
        let node = CDDLType::Identifier(self);
        if let Some(CDDLType::Type2(found)) = node.parent(parent_visitor) {
            return Some(found);
        }
        None
    }
}

impl<'a> Parent<'a, TypeGroupnameEntry> for Identifier {
    open spec fn recorded(&self, visitor: &ParentVisitor<'a>) -> Option<CDDLTypeView> {
        match arena_parent(visitor@, CDDLTypeView::Identifier(self@)) {
            Some(CDDLTypeView::TypeGroupnameEntry(p)) => Some(CDDLTypeView::TypeGroupnameEntry(p)),
            _ => None,
        }
    }

    open spec fn node_of(parent: &TypeGroupnameEntry) -> CDDLTypeView {
        CDDLTypeView::TypeGroupnameEntry(parent@)
    }

    fn parent(
        &'a self,
        parent_visitor: &'a ParentVisitor<'a>,
    ) -> (r: Option<&'a TypeGroupnameEntry>) {
        let node = CDDLType::Identifier(self);
        if let Some(CDDLType::TypeGroupnameEntry(found)) = node.parent(parent_visitor) {
            return Some(found);
        }
        None
    }
}

impl<'a> Parent<'a, MemberKey> for Identifier {
    open spec fn recorded(&self, visitor: &ParentVisitor<'a>) -> Option<CDDLTypeView> {
        match arena_parent(visitor@, CDDLTypeView::Identifier(self@)) {
            Some(CDDLTypeView::MemberKey(p)) => Some(CDDLTypeView::MemberKey(p)),
            _ => None,
        }
    }

    open spec fn node_of(parent: &MemberKey) -> CDDLTypeView {
        CDDLTypeView::MemberKey(parent@)
    }

    fn parent(&'a self, parent_visitor: &'a ParentVisitor<'a>) -> (r: Option<&'a MemberKey>) {
        let node = CDDLType::Identifier(self);
        if let Some(CDDLType::MemberKey(found)) = node.parent(parent_visitor) {
            return Some(found);
        }
        None
    }
}

impl<'a> Parent<'a, TypeRule> for GenericParams {
    open spec fn recorded(&self, visitor: &ParentVisitor<'a>) -> Option<CDDLTypeView> {
        match arena_parent(visitor@, CDDLTypeView::GenericParams(self@)) {
            Some(CDDLTypeView::TypeRule(p)) => Some(CDDLTypeView::TypeRule(p)),
            _ => None,
        }
    }

    open spec fn node_of(parent: &TypeRule) -> CDDLTypeView {
        CDDLTypeView::TypeRule(parent@)
    }

    fn parent(&'a self, parent_visitor: &'a ParentVisitor<'a>) -> (r: Option<&'a TypeRule>) {
        let node = CDDLType::GenericParams(self);
        if let Some(CDDLType::TypeRule(found)) = node.parent(parent_visitor) {
            return Some(found);
        }
        None
    }
}

impl<'a> Parent<'a, GroupRule> for GenericParams {
    open spec fn recorded(&self, visitor: &ParentVisitor<'a>) -> Option<CDDLTypeView> {
        match arena_parent(visitor@, CDDLTypeView::GenericParams(self@)) {
            Some(CDDLTypeView::GroupRule(p)) => Some(CDDLTypeView::GroupRule(p)),
            _ => None,
        }
    }

    open spec fn node_of(parent: &GroupRule) -> CDDLTypeView {
        CDDLTypeView::GroupRule(parent@)
    }

    fn parent(&'a self, parent_visitor: &'a ParentVisitor<'a>) -> (r: Option<&'a GroupRule>) {
        let node = CDDLType::GenericParams(self);
        if let Some(CDDLType::GroupRule(found)) = node.parent(parent_visitor) {
            return Some(found);
        }
        None
    }
}

impl<'a> Parent<'a, GenericParams> for GenericParam {
    open spec fn recorded(&self, visitor: &ParentVisitor<'a>) -> Option<CDDLTypeView> {
        match arena_parent(visitor@, CDDLTypeView::GenericParam(self@)) {
            Some(CDDLTypeView::GenericParams(p)) => Some(CDDLTypeView::GenericParams(p)),
            _ => None,
        }
    }

    open spec fn node_of(parent: &GenericParams) -> CDDLTypeView {
        CDDLTypeView::GenericParams(parent@)
    }

    fn parent(&'a self, parent_visitor: &'a ParentVisitor<'a>) -> (r: Option<&'a GenericParams>) {
        let node = CDDLType::GenericParam(self);
        if let Some(CDDLType::GenericParams(found)) = node.parent(parent_visitor) {
            return Some(found);
        }
        None
    }
}

impl<'a> Parent<'a, Type2> for GenericArgs {
    open spec fn recorded(&self, visitor: &ParentVisitor<'a>) -> Option<CDDLTypeView> {
        match arena_parent(visitor@, CDDLTypeView::GenericArgs(self@)) {
            Some(CDDLTypeView::Type2(p)) => Some(CDDLTypeView::Type2(p)),
            _ => None,
        }
    }

    open spec fn node_of(parent: &Type2) -> CDDLTypeView {
        CDDLTypeView::Type2(parent@)
    }

    fn parent(&'a self, parent_visitor: &'a ParentVisitor<'a>) -> (r: Option<&'a Type2>) {
        let node = CDDLType::GenericArgs(self);
        if let Some(CDDLType::Type2(found)) = node.parent(parent_visitor) {
            return Some(found);
        }
        None
    }
}

impl<'a> Parent<'a, TypeGroupnameEntry> for GenericArgs {
    open spec fn recorded(&self, visitor: &ParentVisitor<'a>) -> Option<CDDLTypeView> {
        match arena_parent(visitor@, CDDLTypeView::GenericArgs(self@)) {
            Some(CDDLTypeView::TypeGroupnameEntry(p)) => Some(CDDLTypeView::TypeGroupnameEntry(p)),
            _ => None,
        }
    }

    open spec fn node_of(parent: &TypeGroupnameEntry) -> CDDLTypeView {
        CDDLTypeView::TypeGroupnameEntry(parent@)
    }

    fn parent(
        &'a self,
        parent_visitor: &'a ParentVisitor<'a>,
    ) -> (r: Option<&'a TypeGroupnameEntry>) {
        let node = CDDLType::GenericArgs(self);
        if let Some(CDDLType::TypeGroupnameEntry(found)) = node.parent(parent_visitor) {
            return Some(found);
        }
        None
    }
}

impl<'a> Parent<'a, GenericArgs> for GenericArg {
    open spec fn recorded(&self, visitor: &ParentVisitor<'a>) -> Option<CDDLTypeView> {
        match arena_parent(visitor@, CDDLTypeView::GenericArg(self@)) {
            Some(CDDLTypeView::GenericArgs(p)) => Some(CDDLTypeView::GenericArgs(p)),
            _ => None,
        }
    }

    open spec fn node_of(parent: &GenericArgs) -> CDDLTypeView {
        CDDLTypeView::GenericArgs(parent@)
    }

    fn parent(&'a self, parent_visitor: &'a ParentVisitor<'a>) -> (r: Option<&'a GenericArgs>) {
        let node = CDDLType::GenericArg(self);
        if let Some(CDDLType::GenericArgs(found)) = node.parent(parent_visitor) {
            return Some(found);
        }
        None
    }
}

impl<'a> Parent<'a, Type2> for Group {
    open spec fn recorded(&self, visitor: &ParentVisitor<'a>) -> Option<CDDLTypeView> {
        match arena_parent(visitor@, CDDLTypeView::Group(self@)) {
            Some(CDDLTypeView::Type2(p)) => Some(CDDLTypeView::Type2(p)),
            _ => None,
        }
    }

    open spec fn node_of(parent: &Type2) -> CDDLTypeView {
        CDDLTypeView::Type2(parent@)
    }

    fn parent(&'a self, parent_visitor: &'a ParentVisitor<'a>) -> (r: Option<&'a Type2>) {
        let node = CDDLType::Group(self);
        if let Some(CDDLType::Type2(found)) = node.parent(parent_visitor) {
            return Some(found);
        }
        None
    }
}

impl<'a> Parent<'a, GroupEntry> for Group {
    open spec fn recorded(&self, visitor: &ParentVisitor<'a>) -> Option<CDDLTypeView> {
        match arena_parent(visitor@, CDDLTypeView::Group(self@)) {
            Some(CDDLTypeView::GroupEntry(p)) => Some(CDDLTypeView::GroupEntry(p)),
            _ => None,
        }
    }

    open spec fn node_of(parent: &GroupEntry) -> CDDLTypeView {
        CDDLTypeView::GroupEntry(parent@)
    }

    fn parent(&'a self, parent_visitor: &'a ParentVisitor<'a>) -> (r: Option<&'a GroupEntry>) {
        let node = CDDLType::Group(self);
        if let Some(CDDLType::GroupEntry(found)) = node.parent(parent_visitor) {
            return Some(found);
        }
        None
    }
}

impl<'a> Parent<'a, NonMemberKey> for Group {
    open spec fn recorded(&self, visitor: &ParentVisitor<'a>) -> Option<CDDLTypeView> {
        match arena_parent(visitor@, CDDLTypeView::Group(self@)) {
            Some(CDDLTypeView::NonMemberKey(p)) => Some(CDDLTypeView::NonMemberKey(p)),
            _ => None,
        }
    }

    open spec fn node_of(parent: &NonMemberKey) -> CDDLTypeView {
        CDDLTypeView::NonMemberKey(parent@)
    }

    fn parent(&'a self, parent_visitor: &'a ParentVisitor<'a>) -> (r: Option<&'a NonMemberKey>) {
        let node = CDDLType::Group(self);
        if let Some(CDDLType::NonMemberKey(found)) = node.parent(parent_visitor) {
            return Some(found);
        }
        None
    }
}

impl<'a> Parent<'a, Group> for GroupChoice {
    open spec fn recorded(&self, visitor: &ParentVisitor<'a>) -> Option<CDDLTypeView> {
        match arena_parent(visitor@, CDDLTypeView::GroupChoice(self@)) {
            Some(CDDLTypeView::Group(p)) => Some(CDDLTypeView::Group(p)),
            _ => None,
        }
    }

    open spec fn node_of(parent: &Group) -> CDDLTypeView {
        CDDLTypeView::Group(parent@)
    }

    fn parent(&'a self, parent_visitor: &'a ParentVisitor<'a>) -> (r: Option<&'a Group>) {
        let node = CDDLType::GroupChoice(self);
        if let Some(CDDLType::Group(found)) = node.parent(parent_visitor) {
            return Some(found);
        }
        None
    }
}

impl<'a> Parent<'a, GroupRule> for GroupEntry {
    open spec fn recorded(&self, visitor: &ParentVisitor<'a>) -> Option<CDDLTypeView> {
        match arena_parent(visitor@, CDDLTypeView::GroupEntry(self@)) {
            Some(CDDLTypeView::GroupRule(p)) => Some(CDDLTypeView::GroupRule(p)),
            _ => None,
        }
    }

    open spec fn node_of(parent: &GroupRule) -> CDDLTypeView {
        CDDLTypeView::GroupRule(parent@)
    }

    fn parent(&'a self, parent_visitor: &'a ParentVisitor<'a>) -> (r: Option<&'a GroupRule>) {
        let node = CDDLType::GroupEntry(self);
        if let Some(CDDLType::GroupRule(found)) = node.parent(parent_visitor) {
            return Some(found);
        }
        None
    }
}

impl<'a> Parent<'a, GroupChoice> for GroupEntry {
    open spec fn recorded(&self, visitor: &ParentVisitor<'a>) -> Option<CDDLTypeView> {
        match arena_parent(visitor@, CDDLTypeView::GroupEntry(self@)) {
            Some(CDDLTypeView::GroupChoice(p)) => Some(CDDLTypeView::GroupChoice(p)),
            _ => None,
        }
    }

    open spec fn node_of(parent: &GroupChoice) -> CDDLTypeView {
        CDDLTypeView::GroupChoice(parent@)
    }

    fn parent(&'a self, parent_visitor: &'a ParentVisitor<'a>) -> (r: Option<&'a GroupChoice>) {
        let node = CDDLType::GroupEntry(self);
        if let Some(CDDLType::GroupChoice(found)) = node.parent(parent_visitor) {
            return Some(found);
        }
        None
    }
}

impl<'a> Parent<'a, GroupEntry> for ValueMemberKeyEntry {
    open spec fn recorded(&self, visitor: &ParentVisitor<'a>) -> Option<CDDLTypeView> {
        match arena_parent(visitor@, CDDLTypeView::ValueMemberKeyEntry(self@)) {
            Some(CDDLTypeView::GroupEntry(p)) => Some(CDDLTypeView::GroupEntry(p)),
            _ => None,
        }
    }

    open spec fn node_of(parent: &GroupEntry) -> CDDLTypeView {
        CDDLTypeView::GroupEntry(parent@)
    }

    fn parent(&'a self, parent_visitor: &'a ParentVisitor<'a>) -> (r: Option<&'a GroupEntry>) {
        let node = CDDLType::ValueMemberKeyEntry(self);
        if let Some(CDDLType::GroupEntry(found)) = node.parent(parent_visitor) {
            return Some(found);
        }
        None
    }
}

impl<'a> Parent<'a, GroupEntry> for TypeGroupnameEntry {
    open spec fn recorded(&self, visitor: &ParentVisitor<'a>) -> Option<CDDLTypeView> {
        match arena_parent(visitor@, CDDLTypeView::TypeGroupnameEntry(self@)) {
            Some(CDDLTypeView::GroupEntry(p)) => Some(CDDLTypeView::GroupEntry(p)),
            _ => None,
        }
    }

    open spec fn node_of(parent: &GroupEntry) -> CDDLTypeView {
        CDDLTypeView::GroupEntry(parent@)
    }

    fn parent(&'a self, parent_visitor: &'a ParentVisitor<'a>) -> (r: Option<&'a GroupEntry>) {
        let node = CDDLType::TypeGroupnameEntry(self);
        if let Some(CDDLType::GroupEntry(found)) = node.parent(parent_visitor) {
            return Some(found);
        }
        None
    }
}

impl<'a> Parent<'a, GroupEntry> for Occurrence {
    open spec fn recorded(&self, visitor: &ParentVisitor<'a>) -> Option<CDDLTypeView> {
        match arena_parent(visitor@, CDDLTypeView::Occurrence(self@)) {
            Some(CDDLTypeView::GroupEntry(p)) => Some(CDDLTypeView::GroupEntry(p)),
            _ => None,
        }
    }

    open spec fn node_of(parent: &GroupEntry) -> CDDLTypeView {
        CDDLTypeView::GroupEntry(parent@)
    }

    fn parent(&'a self, parent_visitor: &'a ParentVisitor<'a>) -> (r: Option<&'a GroupEntry>) {
        let node = CDDLType::Occurrence(self);
        if let Some(CDDLType::GroupEntry(found)) = node.parent(parent_visitor) {
            return Some(found);
        }
        None
    }
}

impl<'a> Parent<'a, ValueMemberKeyEntry> for Occurrence {
    open spec fn recorded(&self, visitor: &ParentVisitor<'a>) -> Option<CDDLTypeView> {
        match arena_parent(visitor@, CDDLTypeView::Occurrence(self@)) {
            Some(CDDLTypeView::ValueMemberKeyEntry(p)) => {
                Some(CDDLTypeView::ValueMemberKeyEntry(p))
            },
            _ => None,
        }
    }

    open spec fn node_of(parent: &ValueMemberKeyEntry) -> CDDLTypeView {
        CDDLTypeView::ValueMemberKeyEntry(parent@)
    }

    fn parent(
        &'a self,
        parent_visitor: &'a ParentVisitor<'a>,
    ) -> (r: Option<&'a ValueMemberKeyEntry>) {
        let node = CDDLType::Occurrence(self);
        if let Some(CDDLType::ValueMemberKeyEntry(found)) = node.parent(parent_visitor) {
            return Some(found);
        }
        None
    }
}

impl<'a> Parent<'a, TypeGroupnameEntry> for Occurrence {
    open spec fn recorded(&self, visitor: &ParentVisitor<'a>) -> Option<CDDLTypeView> {
        match arena_parent(visitor@, CDDLTypeView::Occurrence(self@)) {
            Some(CDDLTypeView::TypeGroupnameEntry(p)) => Some(CDDLTypeView::TypeGroupnameEntry(p)),
            _ => None,
        }
    }

    open spec fn node_of(parent: &TypeGroupnameEntry) -> CDDLTypeView {
        CDDLTypeView::TypeGroupnameEntry(parent@)
    }

    fn parent(
        &'a self,
        parent_visitor: &'a ParentVisitor<'a>,
    ) -> (r: Option<&'a TypeGroupnameEntry>) {
        let node = CDDLType::Occurrence(self);
        if let Some(CDDLType::TypeGroupnameEntry(found)) = node.parent(parent_visitor) {
            return Some(found);
        }
        None
    }
}

impl<'a> Parent<'a, Occurrence> for Occur {
    open spec fn recorded(&self, visitor: &ParentVisitor<'a>) -> Option<CDDLTypeView> {
        match arena_parent(visitor@, CDDLTypeView::Occur(*self)) {
            Some(CDDLTypeView::Occurrence(p)) => Some(CDDLTypeView::Occurrence(p)),
            _ => None,
        }
    }

    open spec fn node_of(parent: &Occurrence) -> CDDLTypeView {
        CDDLTypeView::Occurrence(parent@)
    }

    fn parent(&'a self, parent_visitor: &'a ParentVisitor<'a>) -> (r: Option<&'a Occurrence>) {
        let node = CDDLType::Occur(*self);
        if let Some(CDDLType::Occurrence(found)) = node.parent(parent_visitor) {
            return Some(found);
        }
        None
    }
}

impl<'a> Parent<'a, ValueMemberKeyEntry> for MemberKey {
    open spec fn recorded(&self, visitor: &ParentVisitor<'a>) -> Option<CDDLTypeView> {
        match arena_parent(visitor@, CDDLTypeView::MemberKey(self@)) {
            Some(CDDLTypeView::ValueMemberKeyEntry(p)) => {
                Some(CDDLTypeView::ValueMemberKeyEntry(p))
            },
            _ => None,
        }
    }

    open spec fn node_of(parent: &ValueMemberKeyEntry) -> CDDLTypeView {
        CDDLTypeView::ValueMemberKeyEntry(parent@)
    }

    fn parent(
        &'a self,
        parent_visitor: &'a ParentVisitor<'a>,
    ) -> (r: Option<&'a ValueMemberKeyEntry>) {
        let node = CDDLType::MemberKey(self);
        if let Some(CDDLType::ValueMemberKeyEntry(found)) = node.parent(parent_visitor) {
            return Some(found);
        }
        None
    }
}

impl<'a> Parent<'a, MemberKey> for NonMemberKey {
    open spec fn recorded(&self, visitor: &ParentVisitor<'a>) -> Option<CDDLTypeView> {
        match arena_parent(visitor@, CDDLTypeView::NonMemberKey(self@)) {
            Some(CDDLTypeView::MemberKey(p)) => Some(CDDLTypeView::MemberKey(p)),
            _ => None,
        }
    }

    open spec fn node_of(parent: &MemberKey) -> CDDLTypeView {
        CDDLTypeView::MemberKey(parent@)
    }

    fn parent(&'a self, parent_visitor: &'a ParentVisitor<'a>) -> (r: Option<&'a MemberKey>) {
        let node = CDDLType::NonMemberKey(self);
        if let Some(CDDLType::MemberKey(found)) = node.parent(parent_visitor) {
            return Some(found);
        }
        None
    }
}

/// Building is a function of the schema: two indexes built from equal schemas
/// have the same slots, with the same values, parents and children.
pub proof fn lemma_build_is_deterministic(
    first: ParentVisitor,
    second: ParentVisitor,
    a: CDDL,
    b: CDDL,
)
    requires
        a@ == b@,
        first@ == arena_build(a@),
        second@ == arena_build(b@),
    ensures
        first@ == second@,
{
}

} // verus!
