//! The selection rules: what a click selects, given the modifier keys, the
//! previous selection and the order in which the frame declared its nodes.

use vstd::prelude::*;
use super::types::{KeyModifiers, TreeConfig, TreeNodeId, clone_id, node_id_model, same_id};

verus! {

/// The nodes from `from` to `to` in frame order, both included, whichever of
/// the two comes first; a node that the frame declared more than once counts
/// where it was declared first. Where the frame declared one of them not at
/// all, `to` alone.
pub open spec fn range_between<T>(order: Seq<T>, from: T, to: T) -> Seq<T> {
    match (order.index_of_first(from), order.index_of_first(to)) {
        (Some(f), Some(t)) => if f <= t {
            order.subrange(f, t + 1)
        } else {
            order.subrange(t, f + 1)
        },
        _ => seq![to],
    }
}

/// The selection with `id` taken out where it first stands, or added at the
/// end where it is not selected.
pub open spec fn toggled<T>(selected: Seq<T>, id: T) -> Seq<T> {
    match selected.index_of_first(id) {
        Some(i) => selected.remove(i),
        None => selected.push(id),
    }
}

/// The selection after a single click on `id`.
///
/// Without multi-selection, `id` alone. With it: under the range binding,
/// the range from the pivot (the first selected node) to `id`, or `id` alone
/// where nothing is selected; under the toggle binding, the selection with
/// `id` toggled; under any other keys, `id` alone.
pub open spec fn selection_after_click<T>(
    config: TreeConfig,
    modifiers: KeyModifiers,
    order: Seq<T>,
    selected: Seq<T>,
    id: T,
) -> Seq<T> {
    if !config.allow_multi_select {
        seq![id]
    } else if modifiers.spec_matches_exact(config.range_select_modifier) {
        if selected.len() > 0 {
            range_between(order, selected[0], id)
        } else {
            seq![id]
        }
    } else if modifiers.spec_matches_exact(config.toggle_select_modifier) {
        toggled(selected, id)
    } else {
        seq![id]
    }
}

/// Where `id` first stands in `list`.
pub fn position<NodeId: TreeNodeId>(list: &[NodeId], id: &NodeId) -> (r: Option<usize>)
    requires
        node_id_model::<NodeId>(),
    ensures
        match r {
            Some(i) => i < list@.len() && list@.index_of_first(*id) == Some(i as int),
            None => list@.index_of_first(*id) is None,
        },
{
    let mut i: usize = 0;
    while i < list.len()
        invariant
            node_id_model::<NodeId>(),
            i <= list.len(),
            forall|j: int| 0 <= j < i ==> list@[j] != *id,
        decreases list.len() - i,
    {
        if same_id(&list[i], id) {
            proof {
                list@.index_of_first_ensures(*id);
            }
            return Some(i);
        }
        i += 1;
    }
    proof {
        list@.index_of_first_ensures(*id);
    }
    None
}

/// Whether two lists hold the same identities in the same order.
pub fn same_list<NodeId: TreeNodeId>(a: &[NodeId], b: &[NodeId]) -> (r: bool)
    requires
        node_id_model::<NodeId>(),
    ensures
        r == (a@ == b@),
{
    if a.len() != b.len() {
        return false;
    }
    let mut i: usize = 0;
    while i < a.len()
        invariant
            node_id_model::<NodeId>(),
            a.len() == b.len(),
            i <= a.len(),
            forall|j: int| 0 <= j < i ==> a@[j] == b@[j],
        decreases a.len() - i,
    {
        if !same_id(&a[i], &b[i]) {
            return false;
        }
        i += 1;
    }
    assert(a@ =~= b@);
    true
}

/// A copy of `list` from index `start` up to, not including, index `end`.
pub(crate) fn copy_of<NodeId: TreeNodeId>(list: &[NodeId], start: usize, end: usize) -> (r: Vec<NodeId>)
    requires
        node_id_model::<NodeId>(),
        start <= end <= list@.len(),
    ensures
        r@ == list@.subrange(start as int, end as int),
{
    let mut r: Vec<NodeId> = Vec::new();
    let mut i: usize = start;
    while i < end
        invariant
            node_id_model::<NodeId>(),
            start <= i <= end <= list@.len(),
            r@ =~= list@.subrange(start as int, i as int),
        decreases end - i,
    {
        r.push(clone_id(&list[i]));
        i += 1;
    }
    r
}

/// The range from `from` to `to` in the frame order `order`.
pub fn collect_range<NodeId: TreeNodeId>(order: &[NodeId], from: &NodeId, to: &NodeId) -> (r: Vec<
    NodeId,
>)
    requires
        node_id_model::<NodeId>(),
    ensures
        r@ == range_between(order@, *from, *to),
{
    match (position(order, from), position(order, to)) {
        (Some(f), Some(t)) => {
            assert(order@.len() == order.len());
            if f <= t {
                copy_of(order, f, t + 1)
            } else {
                copy_of(order, t, f + 1)
            }
        },
        _ => {
            let mut r: Vec<NodeId> = Vec::new();
            r.push(clone_id(to));
            r
        },
    }
}

/// The selection with `id` toggled.
pub fn toggle_in<NodeId: TreeNodeId>(selected: &[NodeId], id: NodeId) -> (r: Vec<NodeId>)
    requires
        node_id_model::<NodeId>(),
    ensures
        r@ == toggled(selected@, id),
{
    let mut r = copy_of(selected, 0, selected.len());
    match position(selected, &id) {
        Some(i) => {
            r.remove(i);
        },
        None => {
            r.push(id);
        },
    }
    r
}

/// The selection after a single click on `id`.
pub fn select_on_click<NodeId: TreeNodeId>(
    config: &TreeConfig,
    modifiers: KeyModifiers,
    order: &[NodeId],
    selected: &[NodeId],
    id: NodeId,
) -> (r: Vec<NodeId>)
    requires
        node_id_model::<NodeId>(),
    ensures
        r@ == selection_after_click(*config, modifiers, order@, selected@, id),
{
    if config.allow_multi_select {
        if modifiers.matches_exact(config.range_select_modifier) {
            if selected.len() > 0 {
                return collect_range(order, &selected[0], &id);
            }
        } else if modifiers.matches_exact(config.toggle_select_modifier) {
            return toggle_in(selected, id);
        }
    }
    let mut r: Vec<NodeId> = Vec::new();
    r.push(id);
    r
}

} // verus!
