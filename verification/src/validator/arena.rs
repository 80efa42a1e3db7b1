//! The arena of the parent index.
//!
//! An arena is a sequence of slots. A slot stands for one node of a syntax
//! tree and holds the position of the slot of its parent and the positions of
//! the slots of its children. Nodes are told apart by shape and content: a
//! node is registered once, however often the tree holds a node equal to it.
use crate::ast::CDDLView;
use crate::visitor::kinds::{
    lemma_cddl_edges_well_kinded, may_hold, rooted_at, well_kinded, Kind,
};
use crate::visitor::{cddl_edges, cddl_edges_upto, edge, CDDLType, CDDLTypeView, Edge};
use vstd::prelude::*;

verus! {

/// The mathematical value of a slot of the arena.
pub ghost struct NodeView {
    /// The node that the slot stands for.
    pub val: CDDLTypeView,
    /// The slot of the node that this one was first reached from.
    pub parent: Option<int>,
    /// The slots of the children, one for each time that a child was reached
    /// from this node.
    pub children: Seq<int>,
}

/// The slot that holds `val`, searching from slot `from` on.
#[verifier::opaque]
pub open spec fn arena_find_from(arena: Seq<NodeView>, val: CDDLTypeView, from: int) -> Option<int>
    decreases arena.len() - from,
{
    if from < 0 || from >= arena.len() {
        None
    } else if arena[from].val == val {
        Some(from)
    } else {
        arena_find_from(arena, val, from + 1)
    }
}

/// The first slot that holds `val`.
pub open spec fn arena_find(arena: Seq<NodeView>, val: CDDLTypeView) -> Option<int> {
    arena_find_from(arena, val, 0)
}

/// Registers `val`: the arena afterwards, and the slot of `val` in it. A value
/// that has a slot keeps it; another gets a new slot at the end, without parent
/// or children.
pub open spec fn arena_intern(arena: Seq<NodeView>, val: CDDLTypeView) -> (Seq<NodeView>, int) {
    match arena_find(arena, val) {
        Some(i) => (arena, i),
        None => (
            arena.push(NodeView { val, parent: None, children: Seq::empty() }),
            arena.len() as int,
        ),
    }
}

/// Records that slot `child` was reached from slot `parent`. The child keeps
/// the parent that it has, if it has one; the parent lists the child once
/// more.
#[verifier::opaque]
pub open spec fn arena_link(arena: Seq<NodeView>, parent: int, child: int) -> Seq<NodeView> {
    let adopted = if arena[child].parent is None {
        arena.update(child, NodeView { parent: Some(parent), ..arena[child] })
    } else {
        arena
    };
    adopted.update(
        parent,
        NodeView { children: adopted[parent].children.push(child), ..adopted[parent] },
    )
}

/// Records one step of the walk: registers both nodes and links them.
pub open spec fn arena_record(arena: Seq<NodeView>, e: Edge) -> Seq<NodeView> {
    let (with_parent, parent) = arena_intern(arena, e.parent);
    let (with_child, child) = arena_intern(with_parent, e.child);
    arena_link(with_child, parent, child)
}

/// Records the steps of a walk, in order.
pub open spec fn arena_record_all(arena: Seq<NodeView>, edges: Seq<Edge>) -> Seq<NodeView>
    decreases edges.len(),
{
    if edges.len() == 0 {
        arena
    } else {
        arena_record(arena_record_all(arena, edges.drop_last()), edges.last())
    }
}

/// The index of a schema: the schema itself in slot 0, then every step of its
/// walk recorded in order.
pub open spec fn arena_build(cddl: CDDLView) -> Seq<NodeView> {
    arena_record_all(arena_intern(Seq::empty(), CDDLTypeView::CDDL(cddl)).0, cddl_edges(cddl))
}

/// The recorded parent of `val`: none if `val` has no slot or its slot has no
/// parent.
pub open spec fn arena_parent(arena: Seq<NodeView>, val: CDDLTypeView) -> Option<CDDLTypeView> {
    match arena_find(arena, val) {
        Some(i) => match arena[i].parent {
            Some(p) => Some(arena[p].val),
            None => None,
        },
        None => None,
    }
}

/// Slots refer to slots of the arena: the parent and the children of each
/// slot are positions in it.
#[verifier::opaque]
pub open spec fn arena_links_in_range(arena: Seq<NodeView>) -> bool {
    &&& forall|i: int|
        0 <= i < arena.len() ==> (#[trigger] arena[i].parent matches Some(p) ==> 0 <= p
            < arena.len())
    &&& forall|i: int, k: int|
        0 <= i < arena.len() && 0 <= k < arena[i].children.len() ==> 0
            <= #[trigger] arena[i].children[k] < arena.len()
}

/// No two slots hold the same value.
#[verifier::opaque]
pub open spec fn arena_distinct(arena: Seq<NodeView>) -> bool {
    forall|i: int, j: int|
        0 <= i < j < arena.len() ==> (#[trigger] arena[i]).val != (#[trigger] arena[j]).val
}

/// What holds of every arena that the index builds: slots refer to slots of
/// the arena, and no two slots hold the same value.
pub open spec fn arena_wf(arena: Seq<NodeView>) -> bool {
    arena_links_in_range(arena) && arena_distinct(arena)
}

/// `after` holds every slot of `before`, in place and with its value; parents
/// and children may have been added.
#[verifier::opaque]
pub open spec fn arena_extends(before: Seq<NodeView>, after: Seq<NodeView>) -> bool {
    &&& before.len() <= after.len()
    &&& forall|i: int| 0 <= i < before.len() ==> (#[trigger] after[i]).val == before[i].val
}

/// A search that starts at `from` finds the first slot from there on that
/// holds `val`, and none if there is none.
pub proof fn lemma_find_from(arena: Seq<NodeView>, val: CDDLTypeView, from: int)
    requires
        0 <= from,
    ensures
        match arena_find_from(arena, val, from) {
            Some(i) => {
                &&& from <= i < arena.len()
                &&& arena[i].val == val
                &&& forall|j: int| from <= j < i ==> arena[j].val != val
            },
            None => forall|j: int| from <= j < arena.len() ==> arena[j].val != val,
        },
    decreases arena.len() - from,
{
    reveal(arena_find_from);
    if from < arena.len() && arena[from].val != val {
        lemma_find_from(arena, val, from + 1);
    }
}

/// Deduplication: in an arena without repeated values, a value is found in the
/// one slot that holds it.
pub proof fn lemma_find_unique(arena: Seq<NodeView>, val: CDDLTypeView, i: int)
    requires
        arena_wf(arena),
        0 <= i < arena.len(),
        arena[i].val == val,
    ensures
        arena_find(arena, val) == Some(i),
{
    reveal(arena_distinct);
    lemma_find_from(arena, val, 0);
}

/// Registering a value twice registers it once: the second time finds the
/// slot of the first time and changes nothing.
pub proof fn lemma_intern_twice(arena: Seq<NodeView>, val: CDDLTypeView)
    ensures
        arena_intern(arena_intern(arena, val).0, val) == arena_intern(arena, val),
{
    lemma_intern_extends(arena, val);
}

/// Two names that were written at different places are different nodes,
/// whatever their text: they never share a slot.
pub proof fn lemma_names_differ_by_place(
    a: crate::ast::IdentifierView,
    b: crate::ast::IdentifierView,
)
    requires
        a.position != b.position,
    ensures
        CDDLTypeView::Identifier(a) != CDDLTypeView::Identifier(b),
{
}

/// A slot is found where it was, whatever was added to the arena since.
pub proof fn lemma_find_extends(before: Seq<NodeView>, after: Seq<NodeView>, val: CDDLTypeView)
    requires
        arena_extends(before, after),
        arena_find(before, val) is Some,
    ensures
        arena_find(after, val) == arena_find(before, val),
{
    reveal(arena_extends);
    lemma_find_from(before, val, 0);
    lemma_find_from(after, val, 0);
    let i = arena_find(before, val)->0;
    assert(after[i].val == val);
}

/// Recording steps adds to an arena and moves nothing.
pub proof fn lemma_record_all_extends(arena: Seq<NodeView>, edges: Seq<Edge>)
    ensures
        arena_extends(arena, arena_record_all(arena, edges)),
    decreases edges.len(),
{
    reveal(arena_extends);
    if edges.len() > 0 {
        let before = arena_record_all(arena, edges.drop_last());
        lemma_record_all_extends(arena, edges.drop_last());
        lemma_record_extends(before, edges.last());
    }
}

/// Recording one step adds to an arena and moves nothing.
pub proof fn lemma_record_extends(arena: Seq<NodeView>, e: Edge)
    ensures
        arena_extends(arena, arena_record(arena, e)),
{
    let (with_parent, parent) = arena_intern(arena, e.parent);
    let (with_child, child) = arena_intern(with_parent, e.child);
    lemma_intern_extends(arena, e.parent);
    lemma_intern_extends(with_parent, e.child);
    assert(with_parent.len() <= with_child.len()) by {
        reveal(arena_extends);
    }
    lemma_link_extends(with_child, parent, child);
    reveal(arena_extends);
}

/// Registering a node adds to an arena and moves nothing; the node is found
/// afterwards, in the slot that was returned.
pub proof fn lemma_intern_extends(arena: Seq<NodeView>, val: CDDLTypeView)
    ensures
        arena_extends(arena, arena_intern(arena, val).0),
        arena_find(arena_intern(arena, val).0, val) == Some(arena_intern(arena, val).1),
        0 <= arena_intern(arena, val).1 < arena_intern(arena, val).0.len(),
{
    reveal(arena_extends);
    lemma_find_from(arena, val, 0);
    lemma_find_from(arena_intern(arena, val).0, val, 0);
    if arena_find(arena, val) is None {
        assert(arena_intern(arena, val).0[arena.len() as int].val == val);
    }
}

/// Linking two slots changes no value and adds no slot.
pub proof fn lemma_link_extends(arena: Seq<NodeView>, parent: int, child: int)
    requires
        0 <= parent < arena.len(),
        0 <= child < arena.len(),
    ensures
        arena_extends(arena, arena_link(arena, parent, child)),
        arena_link(arena, parent, child).len() == arena.len(),
{
    reveal(arena_extends);
    reveal(arena_link);
}

/// First parent wins: a slot that has a parent keeps it when it is linked
/// below another slot, and a slot that has none gets the one it is linked
/// below. Either way the parent lists the child once more, and nothing else
/// changes.
pub proof fn lemma_link_first_parent_wins(arena: Seq<NodeView>, parent: int, child: int)
    requires
        0 <= parent < arena.len(),
        0 <= child < arena.len(),
    ensures
        arena_link(arena, parent, child)[child].parent == (if arena[child].parent is Some {
            arena[child].parent
        } else {
            Some(parent)
        }),
        arena_link(arena, parent, child)[parent].children == arena[parent].children.push(child),
        forall|i: int|
            0 <= i < arena.len() && i != parent ==> (#[trigger] arena_link(
                arena,
                parent,
                child,
            )[i]).children == arena[i].children,
        forall|i: int|
            0 <= i < arena.len() && i != child ==> (#[trigger] arena_link(
                arena,
                parent,
                child,
            )[i]).parent == arena[i].parent,
{
    reveal(arena_link);
}

/// Recording two walks one after the other is recording their steps in one
/// sequence.
pub proof fn lemma_record_all_concat(arena: Seq<NodeView>, first: Seq<Edge>, second: Seq<Edge>)
    ensures
        arena_record_all(arena, first + second) == arena_record_all(
            arena_record_all(arena, first),
            second,
        ),
    decreases second.len(),
{
    if second.len() == 0 {
        assert(first + second =~= first);
    } else {
        assert((first + second).drop_last() =~= first + second.drop_last());
        lemma_record_all_concat(arena, first, second.drop_last());
    }
}

/// Each slot that has a parent is of a kind that the parent can hold.
pub open spec fn arena_parents_hold(arena: Seq<NodeView>) -> bool {
    forall|i: int|
        0 <= i < arena.len() ==> ((#[trigger] arena[i]).parent matches Some(p) ==> 0 <= p
            < arena.len() && may_hold(arena[p].val.kind(), arena[i].val.kind()))
}

/// Registering a node keeps the values of an arena distinct.
pub proof fn lemma_intern_distinct(arena: Seq<NodeView>, val: CDDLTypeView)
    requires
        arena_distinct(arena),
    ensures
        arena_distinct(arena_intern(arena, val).0),
{
    reveal(arena_distinct);
    lemma_find_from(arena, val, 0);
    let after = arena_intern(arena, val).0;
    if arena_find(arena, val) is None {
        assert forall|i: int, j: int| 0 <= i < j < after.len() implies (#[trigger] after[i]).val
            != (#[trigger] after[j]).val by {
            if j < arena.len() {
                assert(arena[i].val != arena[j].val);
            } else {
                assert(after[i] == arena[i]);
            }
        }
    }
}

/// Registering a node keeps the links of an arena in range.
pub proof fn lemma_intern_links(arena: Seq<NodeView>, val: CDDLTypeView)
    requires
        arena_links_in_range(arena),
    ensures
        arena_links_in_range(arena_intern(arena, val).0),
{
    reveal(arena_links_in_range);
    let after = arena_intern(arena, val).0;
    if arena_find(arena, val) is None {
        assert forall|i: int| 0 <= i < after.len() implies (#[trigger] after[i].parent
            matches Some(p) ==> 0 <= p < after.len()) by {
            if i < arena.len() {
                assert(after[i] == arena[i]);
            }
        }
        assert forall|i: int, k: int|
            0 <= i < after.len() && 0 <= k < after[i].children.len() implies 0
            <= #[trigger] after[i].children[k] < after.len() by {
            if i < arena.len() {
                assert(after[i] == arena[i]);
                assert(0 <= arena[i].children[k] < arena.len());
            }
        }
    }
}

/// Registering a node gives no slot a parent.
pub proof fn lemma_intern_parents_hold(arena: Seq<NodeView>, val: CDDLTypeView)
    requires
        arena_parents_hold(arena),
    ensures
        arena_parents_hold(arena_intern(arena, val).0),
{
    let after = arena_intern(arena, val).0;
    if arena_find(arena, val) is None {
        assert forall|i: int| 0 <= i < after.len() implies ((#[trigger] after[i]).parent
            matches Some(p) ==> 0 <= p < after.len() && may_hold(
            after[p].val.kind(),
            after[i].val.kind(),
        )) by {
            if i < arena.len() {
                assert(after[i] == arena[i]);
                if let Some(p) = arena[i].parent {
                    assert(after[p] == arena[p]);
                }
            }
        }
    }
}

/// Registering a node keeps an arena well formed, and gives no slot a
/// parent.
pub proof fn lemma_intern_wf(arena: Seq<NodeView>, val: CDDLTypeView)
    requires
        arena_wf(arena),
    ensures
        arena_wf(arena_intern(arena, val).0),
        arena_parents_hold(arena) ==> arena_parents_hold(arena_intern(arena, val).0),
{
    lemma_intern_distinct(arena, val);
    lemma_intern_links(arena, val);
    if arena_parents_hold(arena) {
        lemma_intern_parents_hold(arena, val);
    }
}

/// Linking two slots keeps the values of an arena distinct.
pub proof fn lemma_link_distinct(arena: Seq<NodeView>, parent: int, child: int)
    requires
        arena_distinct(arena),
        0 <= parent < arena.len(),
        0 <= child < arena.len(),
    ensures
        arena_distinct(arena_link(arena, parent, child)),
{
    reveal(arena_distinct);
    reveal(arena_link);
    let after = arena_link(arena, parent, child);
    assert forall|i: int, j: int| 0 <= i < j < after.len() implies (#[trigger] after[i]).val != (
    #[trigger] after[j]).val by {
        assert(after[i].val == arena[i].val);
        assert(after[j].val == arena[j].val);
    }
}

/// Linking two slots keeps the links of an arena in range.
pub proof fn lemma_link_links(arena: Seq<NodeView>, parent: int, child: int)
    requires
        arena_links_in_range(arena),
        0 <= parent < arena.len(),
        0 <= child < arena.len(),
    ensures
        arena_links_in_range(arena_link(arena, parent, child)),
{
    reveal(arena_links_in_range);
    lemma_link_first_parent_wins(arena, parent, child);
    lemma_link_extends(arena, parent, child);
    let after = arena_link(arena, parent, child);
    assert forall|i: int| 0 <= i < after.len() implies (#[trigger] after[i].parent matches Some(
        p,
    ) ==> 0 <= p < after.len()) by {
        if i != child {
            assert(after[i].parent == arena[i].parent);
        }
    }
    assert forall|i: int, k: int|
        0 <= i < after.len() && 0 <= k < after[i].children.len() implies 0
        <= #[trigger] after[i].children[k] < after.len() by {
        if i != parent {
            assert(after[i].children == arena[i].children);
            assert(0 <= arena[i].children[k] < arena.len());
        } else if k < arena[parent].children.len() {
            assert(after[i].children[k] == arena[i].children[k]);
            assert(0 <= arena[i].children[k] < arena.len());
        }
    }
}

/// Linking a child below a parent that can hold it keeps each parent of a
/// kind that can hold its child.
pub proof fn lemma_link_parents_hold(arena: Seq<NodeView>, parent: int, child: int)
    requires
        arena_parents_hold(arena),
        0 <= parent < arena.len(),
        0 <= child < arena.len(),
        may_hold(arena[parent].val.kind(), arena[child].val.kind()),
    ensures
        arena_parents_hold(arena_link(arena, parent, child)),
{
    lemma_link_first_parent_wins(arena, parent, child);
    lemma_link_extends(arena, parent, child);
    let after = arena_link(arena, parent, child);
    assert forall|i: int| 0 <= i < after.len() implies ((#[trigger] after[i]).parent
        matches Some(p) ==> 0 <= p < after.len() && may_hold(
        after[p].val.kind(),
        after[i].val.kind(),
    )) by {
        reveal(arena_extends);
        assert(after[i].val == arena[i].val);
        if i != child {
            assert(after[i].parent == arena[i].parent);
        }
        if let Some(p) = after[i].parent {
            if i == child && arena[child].parent is None {
                assert(p == parent);
            } else {
                assert(arena[i].parent == Some(p));
            }
            assert(after[p].val == arena[p].val);
        }
    }
}

/// Linking two slots keeps an arena well formed. Where the parent can hold
/// the child, each slot that has a parent is still of a kind that its parent
/// can hold.
pub proof fn lemma_link_wf(arena: Seq<NodeView>, parent: int, child: int)
    requires
        arena_wf(arena),
        0 <= parent < arena.len(),
        0 <= child < arena.len(),
    ensures
        arena_wf(arena_link(arena, parent, child)),
        arena_parents_hold(arena) && may_hold(arena[parent].val.kind(), arena[child].val.kind())
            ==> arena_parents_hold(arena_link(arena, parent, child)),
{
    lemma_link_distinct(arena, parent, child);
    lemma_link_links(arena, parent, child);
    if arena_parents_hold(arena) && may_hold(arena[parent].val.kind(), arena[child].val.kind()) {
        lemma_link_parents_hold(arena, parent, child);
    }
}

/// Recording a step from a node to a node that it can hold keeps an arena
/// well formed, with each parent of a kind that can hold its child.
pub proof fn lemma_record_wf(arena: Seq<NodeView>, e: Edge)
    requires
        arena_wf(arena),
        arena_parents_hold(arena),
        may_hold(e.parent.kind(), e.child.kind()),
    ensures
        arena_wf(arena_record(arena, e)),
        arena_parents_hold(arena_record(arena, e)),
{
    let (with_parent, parent) = arena_intern(arena, e.parent);
    let (with_child, child) = arena_intern(with_parent, e.child);
    lemma_intern_wf(arena, e.parent);
    lemma_intern_wf(with_parent, e.child);
    lemma_intern_extends(arena, e.parent);
    lemma_intern_extends(with_parent, e.child);
    lemma_find_extends(with_parent, with_child, e.parent);
    lemma_find_from(with_child, e.parent, 0);
    lemma_find_from(with_child, e.child, 0);
    lemma_link_wf(with_child, parent, child);
}

/// Recording a walk that goes from each node to nodes that it can hold keeps
/// an arena well formed, with each parent of a kind that can hold its child.
pub proof fn lemma_record_all_wf(arena: Seq<NodeView>, edges: Seq<Edge>)
    requires
        arena_wf(arena),
        arena_parents_hold(arena),
        well_kinded(edges),
    ensures
        arena_wf(arena_record_all(arena, edges)),
        arena_parents_hold(arena_record_all(arena, edges)),
    decreases edges.len(),
{
    if edges.len() > 0 {
        assert forall|k: int| 0 <= k < edges.drop_last().len() implies may_hold(
            (#[trigger] edges.drop_last()[k]).parent.kind(),
            edges.drop_last()[k].child.kind(),
        ) by {
            assert(edges.drop_last()[k] == edges[k]);
        }
        lemma_record_all_wf(arena, edges.drop_last());
        assert(may_hold(edges[edges.len() - 1].parent.kind(), edges[edges.len() - 1].child.kind()));
        lemma_record_wf(arena_record_all(arena, edges.drop_last()), edges.last());
    }
}

/// The pairs of parent and child in the index of a schema are pairs of the
/// containment relation of the grammar: each node that has a parent is of a
/// kind that its parent can hold. The index is well formed.
pub proof fn lemma_build_parents_hold(cddl: CDDLView)
    ensures
        arena_wf(arena_build(cddl)),
        arena_parents_hold(arena_build(cddl)),
{
    let root = arena_intern(Seq::empty(), CDDLTypeView::CDDL(cddl)).0;
    assert(arena_wf(Seq::<NodeView>::empty())) by {
        reveal(arena_links_in_range);
        reveal(arena_distinct);
    }
    lemma_intern_wf(Seq::empty(), CDDLTypeView::CDDL(cddl));
    lemma_cddl_edges_well_kinded(cddl);
    lemma_record_all_wf(root, cddl_edges(cddl));
}

/// What was recorded stays: `after` holds every slot of `before` in place, a
/// slot that had a parent has the same parent, and a slot lists the children
/// that it listed, in front of any others.
pub open spec fn arena_keeps(before: Seq<NodeView>, after: Seq<NodeView>) -> bool {
    &&& before.len() <= after.len()
    &&& forall|i: int|
        0 <= i < before.len() ==> {
            &&& (#[trigger] after[i]).val == before[i].val
            &&& before[i].parent is Some ==> after[i].parent == before[i].parent
            &&& before[i].children.is_prefix_of(after[i].children)
        }
}

/// Recording a step keeps what was recorded.
pub proof fn lemma_record_keeps(arena: Seq<NodeView>, e: Edge)
    ensures
        arena_keeps(arena, arena_record(arena, e)),
{
    let (with_parent, parent) = arena_intern(arena, e.parent);
    let (with_child, child) = arena_intern(with_parent, e.child);
    let after = arena_record(arena, e);
    lemma_intern_extends(arena, e.parent);
    lemma_intern_extends(with_parent, e.child);
    assert(0 <= parent < with_child.len() && arena.len() <= with_child.len()) by {
        reveal(arena_extends);
    }
    lemma_link_first_parent_wins(with_child, parent, child);
    lemma_link_extends(with_child, parent, child);
    assert forall|i: int| 0 <= i < arena.len() implies {
        &&& (#[trigger] after[i]).val == arena[i].val
        &&& arena[i].parent is Some ==> after[i].parent == arena[i].parent
        &&& arena[i].children.is_prefix_of(after[i].children)
    } by {
        assert(with_parent[i] == arena[i]);
        assert(with_child[i] == arena[i]);
        reveal(arena_extends);
        if i == parent {
            assert(after[i].children == arena[i].children.push(child));
        } else {
            assert(after[i].children == arena[i].children);
        }
    }
}

/// First parent wins, whatever is recorded later: recording a walk keeps what
/// was recorded before it.
pub proof fn lemma_record_all_keeps(arena: Seq<NodeView>, edges: Seq<Edge>)
    ensures
        arena_keeps(arena, arena_record_all(arena, edges)),
    decreases edges.len(),
{
    if edges.len() > 0 {
        let before = arena_record_all(arena, edges.drop_last());
        let after = arena_record_all(arena, edges);
        lemma_record_all_keeps(arena, edges.drop_last());
        lemma_record_keeps(before, edges.last());
        assert forall|i: int| 0 <= i < arena.len() implies {
            &&& (#[trigger] after[i]).val == arena[i].val
            &&& arena[i].parent is Some ==> after[i].parent == arena[i].parent
            &&& arena[i].children.is_prefix_of(after[i].children)
        } by {
            assert(before[i].val == arena[i].val);
            assert(after[i].val == before[i].val);
            assert(arena[i].children.is_prefix_of(before[i].children));
            assert(before[i].children.is_prefix_of(after[i].children));
        }
    } else {
        assert forall|i: int| 0 <= i < arena.len() implies arena[i].children.is_prefix_of(
            #[trigger] arena[i].children,
        ) by {}
    }
}

/// Whether the step `e` is on record: both nodes have slots, the child has a
/// parent, and the parent lists the child.
pub open spec fn arena_holds_step(arena: Seq<NodeView>, e: Edge) -> bool {
    &&& arena_find(arena, e.parent) matches Some(p)
    &&& arena_find(arena, e.child) matches Some(c)
    &&& 0 <= p < arena.len()
    &&& 0 <= c < arena.len()
    &&& arena[c].parent is Some
    &&& arena[p].children.contains(c)
}

/// A step that is on record stays on record.
pub proof fn lemma_step_stays(before: Seq<NodeView>, after: Seq<NodeView>, e: Edge)
    requires
        arena_keeps(before, after),
        arena_holds_step(before, e),
    ensures
        arena_holds_step(after, e),
{
    assert(arena_extends(before, after)) by {
        reveal(arena_extends);
    }
    lemma_find_extends(before, after, e.parent);
    lemma_find_extends(before, after, e.child);
    let p = arena_find(before, e.parent)->0;
    let c = arena_find(before, e.child)->0;
    assert(after[c].val == before[c].val);
    assert(after[p].val == before[p].val);
    let k = choose|k: int| 0 <= k < before[p].children.len() && before[p].children[k] == c;
    assert(after[p].children[k] == c);
}

/// Recording a step puts it on record.
pub proof fn lemma_record_holds_step(arena: Seq<NodeView>, e: Edge)
    ensures
        arena_holds_step(arena_record(arena, e), e),
{
    let (with_parent, parent) = arena_intern(arena, e.parent);
    let (with_child, child) = arena_intern(with_parent, e.child);
    let after = arena_record(arena, e);
    lemma_intern_extends(arena, e.parent);
    lemma_intern_extends(with_parent, e.child);
    lemma_find_extends(with_parent, with_child, e.parent);
    assert(0 <= parent < with_child.len()) by {
        reveal(arena_extends);
    }
    lemma_link_first_parent_wins(with_child, parent, child);
    lemma_link_extends(with_child, parent, child);
    lemma_find_extends(with_child, after, e.parent);
    lemma_find_extends(with_child, after, e.child);
    assert(after[parent].children[with_child[parent].children.len() as int] == child);
}

/// Every step of a walk is on record once the walk is recorded: the child of
/// each step has a slot with a parent, and the slot of the parent of the step
/// lists it.
pub proof fn lemma_record_all_holds_steps(arena: Seq<NodeView>, edges: Seq<Edge>, k: int)
    requires
        0 <= k < edges.len(),
    ensures
        arena_holds_step(arena_record_all(arena, edges), edges[k]),
    decreases edges.len(),
{
    let before = arena_record_all(arena, edges.drop_last());
    if k == edges.len() - 1 {
        lemma_record_holds_step(before, edges.last());
    } else {
        lemma_record_all_holds_steps(arena, edges.drop_last(), k);
        lemma_record_keeps(before, edges.last());
        lemma_step_stays(before, arena_record_all(arena, edges), edges[k]);
    }
}

/// Every step of the walk of a schema is on record in its index.
pub proof fn lemma_build_holds_steps(cddl: CDDLView, k: int)
    requires
        0 <= k < cddl_edges(cddl).len(),
    ensures
        arena_holds_step(arena_build(cddl), cddl_edges(cddl)[k]),
{
    lemma_record_all_holds_steps(
        arena_intern(Seq::empty(), CDDLTypeView::CDDL(cddl)).0,
        cddl_edges(cddl),
        k,
    );
}

/// Every slot that holds a schema holds `root`.
pub open spec fn arena_rooted_at(arena: Seq<NodeView>, root: CDDLTypeView) -> bool {
    forall|i: int|
        0 <= i < arena.len() ==> ((#[trigger] arena[i]).val.kind() == Kind::CDDL ==> arena[i].val
            == root)
}

/// Recording a step from a node to a node that it can hold brings no other
/// schema into an arena than the one that the step may start at.
pub proof fn lemma_record_rooted(arena: Seq<NodeView>, e: Edge, root: CDDLTypeView)
    requires
        arena_rooted_at(arena, root),
        may_hold(e.parent.kind(), e.child.kind()),
        e.parent.kind() == Kind::CDDL ==> e.parent == root,
    ensures
        arena_rooted_at(arena_record(arena, e), root),
{
    let (with_parent, parent) = arena_intern(arena, e.parent);
    let (with_child, child) = arena_intern(with_parent, e.child);
    let after = arena_record(arena, e);
    lemma_intern_extends(arena, e.parent);
    lemma_intern_extends(with_parent, e.child);
    assert(0 <= parent < with_child.len()) by {
        reveal(arena_extends);
    }
    lemma_link_extends(with_child, parent, child);
    assert forall|i: int|
        0 <= i < after.len() && (#[trigger] after[i]).val.kind() == Kind::CDDL implies after[i].val
        == root by {
        reveal(arena_extends);
        assert(after[i].val == with_child[i].val);
        if i < arena.len() {
            assert(with_parent[i] == arena[i]);
            assert(with_child[i] == with_parent[i]);
        } else if i < with_parent.len() {
            assert(with_child[i] == with_parent[i]);
            assert(with_parent[i].val == e.parent);
        } else {
            assert(with_child[i].val == e.child);
        }
    }
}

/// Recording a walk below `root` brings no other schema into an arena.
pub proof fn lemma_record_all_rooted(arena: Seq<NodeView>, edges: Seq<Edge>, root: CDDLTypeView)
    requires
        arena_rooted_at(arena, root),
        well_kinded(edges),
        rooted_at(edges, root),
    ensures
        arena_rooted_at(arena_record_all(arena, edges), root),
    decreases edges.len(),
{
    if edges.len() > 0 {
        let front = edges.drop_last();
        assert(well_kinded(front) && rooted_at(front, root)) by {
            assert forall|k: int| 0 <= k < front.len() implies front[k] == edges[k] by {}
        }
        lemma_record_all_rooted(arena, front, root);
        let last = edges[edges.len() - 1];
        assert(may_hold(last.parent.kind(), last.child.kind()));
        lemma_record_rooted(arena_record_all(arena, front), edges.last(), root);
    }
}

/// The place of the step from a schema to its rule `i` among the steps that
/// the walk has recorded once it is done with the first `n` rules.
pub proof fn lemma_rule_step(x: CDDLView, n: nat, i: int) -> (k: int)
    requires
        0 <= i < n <= x.rules.len(),
    ensures
        0 <= k < cddl_edges_upto(x, n).len(),
        cddl_edges_upto(x, n)[k] == edge(CDDLTypeView::CDDL(x), CDDLTypeView::Rule(x.rules[i])),
    decreases n,
{
    let front = cddl_edges_upto(x, (n - 1) as nat);
    if i == n - 1 {
        front.len() as int
    } else {
        lemma_rule_step(x, (n - 1) as nat, i)
    }
}

/// The parent of a rule is the schema: in the index of a schema, each of its
/// rules has the schema as its parent.
pub proof fn lemma_rule_parent_is_the_schema(cddl: CDDLView, i: int)
    requires
        0 <= i < cddl.rules.len(),
    ensures
        arena_parent(arena_build(cddl), CDDLTypeView::Rule(cddl.rules[i])) == Some(
            CDDLTypeView::CDDL(cddl),
        ),
{
    let root = CDDLTypeView::CDDL(cddl);
    let start = arena_intern(Seq::empty(), root).0;
    let index = arena_build(cddl);
    let k = lemma_rule_step(cddl, cddl.rules.len(), i);
    lemma_build_holds_steps(cddl, k);
    lemma_build_parents_hold(cddl);
    lemma_cddl_edges_well_kinded(cddl);
    assert(arena_rooted_at(start, root));
    lemma_record_all_rooted(start, cddl_edges(cddl), root);
    let c = arena_find(index, CDDLTypeView::Rule(cddl.rules[i]))->0;
    let p = index[c].parent->0;
    assert(may_hold(index[p].val.kind(), index[c].val.kind()));
    lemma_find_from(index, CDDLTypeView::Rule(cddl.rules[i]), 0);
}

/// The step of a walk that links a child below its parent: after `done` was
/// recorded from `root`, registering `c` and linking it below the slot of `p`
/// records the step from `p` to `c`.
pub proof fn lemma_linked(
    root: Seq<NodeView>,
    done: Seq<Edge>,
    p: CDDLTypeView,
    parent: int,
    c: CDDLTypeView,
    before: Seq<NodeView>,
    now: Seq<NodeView>,
)
    requires
        before == arena_record_all(root, done),
        arena_find(before, p) == Some(parent),
        now == arena_link(arena_intern(before, c).0, parent, arena_intern(before, c).1),
    ensures
        now == arena_record_all(root, done.push(edge(p, c))),
        arena_find(now, p) == Some(parent),
        arena_find(now, c) is Some,
        0 <= parent < now.len(),
{
    let e = edge(p, c);
    assert(done.push(e).drop_last() =~= done);
    assert(now == arena_record(before, e));
    lemma_record_extends(before, e);
    lemma_find_extends(before, now, p);
    lemma_find_from(now, p, 0);
    let (with_child, child) = arena_intern(before, c);
    lemma_intern_extends(before, c);
    lemma_find_from(before, p, 0);
    assert(0 <= parent < with_child.len()) by {
        reveal(arena_extends);
    }
    lemma_link_extends(with_child, parent, child);
    lemma_find_extends(with_child, now, c);
}

/// The step of a walk that goes down into a child: after `done` was recorded
/// from `root`, recording the steps below the child adds them to `done`.
pub proof fn lemma_visited(
    root: Seq<NodeView>,
    done: Seq<Edge>,
    p: CDDLTypeView,
    parent: int,
    below: Seq<Edge>,
    before: Seq<NodeView>,
    now: Seq<NodeView>,
)
    requires
        before == arena_record_all(root, done),
        arena_find(before, p) == Some(parent),
        now == arena_record_all(before, below),
    ensures
        now == arena_record_all(root, done + below),
        arena_find(now, p) == Some(parent),
        0 <= parent < now.len(),
{
    lemma_record_all_concat(root, done, below);
    lemma_record_all_extends(before, below);
    lemma_find_extends(before, now, p);
    lemma_find_from(now, p, 0);
}

/// One slot of the arena.
#[derive(Debug)]
pub struct Node<'a> {
    idx: usize,
    val: CDDLType<'a>,
    parent: Option<usize>,
    children: Vec<usize>,
}

impl<'a> Node<'a> {
    pub closed spec fn view(&self) -> NodeView {
        NodeView {
            val: self.val@,
            parent: match self.parent {
                Some(p) => Some(p as int),
                None => None,
            },
            children: Seq::new(self.children.len() as nat, |k: int| self.children[k] as int),
        }
    }

    /// A slot for `val` at position `idx`, without parent or children.
    pub fn new(idx: usize, val: CDDLType<'a>) -> (node: Self)
        ensures
            node@ == (NodeView { val: val@, parent: None, children: Seq::empty() }),
            node.position() == idx,
    {
        let node = Self { idx, val, parent: None, children: vec![] };
        assert(node@.children =~= Seq::empty());
        node
    }

    /// The position that the slot was made for.
    pub closed spec fn position(&self) -> int {
        self.idx as int
    }
}

/// The arena: the slots, in the order in which their nodes were first met.
#[derive(Debug)]
pub struct ArenaTree<'a> {
    arena: Vec<Node<'a>>,
}

impl<'a> ArenaTree<'a> {
    pub closed spec fn view(&self) -> Seq<NodeView> {
        Seq::new(self.arena.len() as nat, |i: int| self.arena[i]@)
    }

    /// The arena is well formed (see [`arena_wf`]), and each slot knows its
    /// own position.
    pub closed spec fn wf(&self) -> bool {
        &&& arena_wf(self@)
        &&& forall|i: int| 0 <= i < self.arena.len() ==> (#[trigger] self.arena[i]).idx == i
    }

    /// A well-formed arena has a well-formed value.
    pub proof fn lemma_wf(&self)
        requires
            self.wf(),
        ensures
            arena_wf(self@),
    {
    }

    /// An arena without slots.
    pub fn new() -> (tree: Self)
        ensures
            tree.wf(),
            tree@ == Seq::<NodeView>::empty(),
    {
        let tree = ArenaTree { arena: Vec::new() };
        proof {
            reveal(arena_links_in_range);
            reveal(arena_distinct);
            assert(tree@ =~= Seq::empty());
        }
        tree
    }

    /// How many slots there are.
    pub fn len(&self) -> (n: usize)
        ensures
            n == self@.len(),
    {
        self.arena.len()
    }

    /// The slot that holds a node equal to `val`, if there is one. Nothing is
    /// registered.
    pub fn find(&self, val: &CDDLType<'a>) -> (r: Option<usize>)
        ensures
            match r {
                Some(i) => arena_find(self@, val@) == Some(i as int) && i < self@.len(),
                None => arena_find(self@, val@) is None,
            },
    {
        let mut i: usize = 0;
        while i < self.arena.len()
            invariant
                i <= self.arena.len(),
                arena_find(self@, val@) == arena_find_from(self@, val@, i as int),
            decreases self.arena.len() - i,
        {
            reveal(arena_find_from);
            if self.arena[i].val.equals(val) {
                return Some(i);
            }
            i += 1;
        }
        proof {
            reveal(arena_find_from);
        }
        None
    }

    /// Registers `val` and returns its slot: the slot that holds an equal
    /// node, or else a new slot at the end.
    pub fn node(&mut self, val: CDDLType<'a>) -> (idx: usize)
        requires
            old(self).wf(),
        ensures
            final(self).wf(),
            (final(self)@, idx as int) == arena_intern(old(self)@, val@),
            arena_find(final(self)@, val@) == Some(idx as int),
            old(self)@.len() <= final(self)@.len(),
            idx < final(self)@.len(),
    {
        proof {
            lemma_find_from(self@, val@, 0);
            lemma_intern_extends(self@, val@);
        }
        match self.find(&val) {
            Some(i) => self.arena[i].idx,
            None => {
                let idx = self.arena.len();
                let ghost before = self@;
                let ghost slot = NodeView { val: val@, parent: None, children: Seq::empty() };
                self.arena.push(Node::new(idx, val));
                proof {
                    assert(self@ =~= before.push(slot));
                    lemma_intern_wf(before, val@);
                }
                idx
            },
        }
    }

    /// Records that slot `child` was reached from slot `parent`: see
    /// [`arena_link`].
    pub fn link(&mut self, parent: usize, child: usize)
        requires
            old(self).wf(),
            parent < old(self)@.len(),
            child < old(self)@.len(),
        ensures
            final(self).wf(),
            final(self)@ == arena_link(old(self)@, parent as int, child as int),
            final(self)@.len() == old(self)@.len(),
    {
        let ghost before = self@;
        proof {
            reveal(arena_link);
            lemma_link_wf(before, parent as int, child as int);
        }
        match self.arena[child].parent {
            Some(_) => {},
            None => {
                self.arena[child].parent = Some(parent);
            },
        }
        let ghost adopted = self@;
        proof {
            assert(adopted =~= if before[child as int].parent is None {
                before.update(
                    child as int,
                    NodeView { parent: Some(parent as int), ..before[child as int] },
                )
            } else {
                before
            });
        }
        self.arena[parent].children.push(child);
        proof {
            assert(self@[parent as int].children =~= adopted[parent as int].children.push(
                child as int,
            ));
            assert(self@ =~= arena_link(before, parent as int, child as int));
        }
    }

    /// The node that slot `idx` stands for.
    pub fn value(&self, idx: usize) -> (val: &CDDLType<'a>)
        requires
            idx < self@.len(),
        ensures
            val@ == self@[idx as int].val,
    {
        &self.arena[idx].val
    }

    /// The slot of the parent of slot `idx`.
    pub fn parent_index(&self, idx: usize) -> (r: Option<usize>)
        requires
            self.wf(),
            idx < self@.len(),
        ensures
            match r {
                Some(p) => self@[idx as int].parent == Some(p as int) && p < self@.len(),
                None => self@[idx as int].parent is None,
            },
    {
        proof {
            reveal(arena_links_in_range);
        }
        self.arena[idx].parent
    }

    /// The slots of the children of slot `idx`.
    pub fn children(&self, idx: usize) -> (r: &Vec<usize>)
        requires
            idx < self@.len(),
        ensures
            r@.len() == self@[idx as int].children.len(),
            forall|k: int| 0 <= k < r@.len() ==> r@[k] as int == self@[idx as int].children[k],
    {
        &self.arena[idx].children
    }
}

} // verus!
