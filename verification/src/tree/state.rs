//! The interaction state of one tree: what is selected, expanded and checked,
//! and which directories the user has opened or closed by hand.

use std::collections::HashSet;
use vstd::prelude::*;
use super::types::{TreeNodeId, clone_id, node_id_model, same_id};

verus! {

/// The state of a tree as a mathematical value.
#[verifier::ext_equal]
#[verifier::reject_recursive_types(NodeId)]
pub struct StateModel<NodeId> {
    /// Selected nodes in the order in which they were selected; the first is
    /// the pivot of a range selection.
    pub selected: Seq<NodeId>,
    /// Directories that are open.
    pub expanded: Set<NodeId>,
    /// Nodes whose checkbox is set.
    pub checked: Set<NodeId>,
    /// Directories that were opened or closed explicitly at least once.
    pub interacted: Set<NodeId>,
}

impl<NodeId> StateModel<NodeId> {
    /// Nothing selected, expanded, checked or touched.
    pub open spec fn empty() -> Self {
        StateModel {
            selected: Seq::empty(),
            expanded: Set::empty(),
            checked: Set::empty(),
            interacted: Set::empty(),
        }
    }

    /// The state with the selection replaced by `list`.
    pub open spec fn set_selected(self, list: Seq<NodeId>) -> Self {
        StateModel { selected: list, ..self }
    }

    /// The state with `id` open and marked as touched.
    pub open spec fn expand(self, id: NodeId) -> Self {
        StateModel {
            expanded: self.expanded.insert(id),
            interacted: self.interacted.insert(id),
            ..self
        }
    }

    /// The state with `id` closed and marked as touched.
    pub open spec fn collapse(self, id: NodeId) -> Self {
        StateModel {
            expanded: self.expanded.remove(id),
            interacted: self.interacted.insert(id),
            ..self
        }
    }

    /// The state with `id` open or closed as `open` says, and marked as
    /// touched.
    pub open spec fn set_expanded(self, id: NodeId, open: bool) -> Self {
        if open {
            self.expand(id)
        } else {
            self.collapse(id)
        }
    }

    /// The state with every node of `path` open and marked as touched.
    pub open spec fn expand_path(self, path: Seq<NodeId>) -> Self {
        StateModel {
            expanded: self.expanded.union(path.to_set()),
            interacted: self.interacted.union(path.to_set()),
            ..self
        }
    }

    /// The nodes that differ between what is open and `desired`: those that
    /// `sync_expanded` has to close or to open.
    pub open spec fn out_of_sync(self, desired: Set<NodeId>) -> Set<NodeId> {
        self.expanded.difference(desired).union(desired.difference(self.expanded))
    }

    /// The state with exactly `desired` open, and every node that had to be
    /// closed or opened for it marked as touched.
    pub open spec fn sync_expanded(self, desired: Set<NodeId>) -> Self {
        StateModel {
            expanded: desired,
            interacted: self.interacted.union(self.out_of_sync(desired)),
            ..self
        }
    }

    /// The state with the checkbox of `id` set to `checked`.
    pub open spec fn set_checked(self, id: NodeId, checked: bool) -> Self {
        StateModel {
            checked: if checked {
                self.checked.insert(id)
            } else {
                self.checked.remove(id)
            },
            ..self
        }
    }

    /// Whether directory `id` is shown open: as the user left it once it was
    /// touched, else as `default_open` says.
    pub open spec fn effective_expansion(self, id: NodeId, default_open: bool) -> bool {
        if self.interacted.contains(id) {
            self.expanded.contains(id)
        } else {
            default_open
        }
    }
}

/// Interaction state of one tree, kept across frames.
///
/// Nothing here is checked against the tree that is declared in a frame:
/// identities of nodes that are no longer declared stay until they are
/// removed by the caller.
#[derive(Debug)]
pub struct TreeState<NodeId: TreeNodeId> {
    selected: Vec<NodeId>,
    expanded: HashSet<NodeId>,
    checked: HashSet<NodeId>,
    interacted: HashSet<NodeId>,
}

impl<NodeId: TreeNodeId> View for TreeState<NodeId> {
    type V = StateModel<NodeId>;

    closed spec fn view(&self) -> StateModel<NodeId> {
        StateModel {
            selected: self.selected@,
            expanded: self.expanded@,
            checked: self.checked@,
            interacted: self.interacted@,
        }
    }
}

/// Calls `HashSet::clone`, which builds a set of clones of the elements. Where
/// a clone of an identity is the identity, that is the same set.
#[verifier::external_body]
fn clone_set<NodeId: TreeNodeId>(set: &HashSet<NodeId>) -> (r: HashSet<NodeId>)
    ensures
        node_id_model::<NodeId>() ==> r@ == set@,
{
    set.clone()
}

/// The elements of `set`, each once, in the order in which the set hands them
/// out.
fn elements<NodeId: TreeNodeId>(set: &HashSet<NodeId>) -> (list: Vec<NodeId>)
    requires
        node_id_model::<NodeId>(),
    ensures
        list@.to_set() == set@,
        list@.no_duplicates(),
{
    let mut list: Vec<NodeId> = Vec::new();
    for id in it: set.iter()
        invariant
            node_id_model::<NodeId>(),
            it.seq().unref().to_set() == set@,
            it.seq().unref().no_duplicates(),
            list@ =~= it.seq().take(it.index()).unref(),
            it.index() == it.seq().len() ==> list@ =~= it.seq().unref(),
    {
        list.push(clone_id(id));
    }
    list
}

impl<NodeId: TreeNodeId> Clone for TreeState<NodeId> {
    fn clone(&self) -> (r: Self)
        ensures
            node_id_model::<NodeId>() ==> r@ == self@,
    {
        let selected = self.selected.clone();
        assert(node_id_model::<NodeId>() ==> selected@ =~= self.selected@);
        TreeState {
            selected,
            expanded: clone_set(&self.expanded),
            checked: clone_set(&self.checked),
            interacted: clone_set(&self.interacted),
        }
    }
}

impl<NodeId: TreeNodeId> Default for TreeState<NodeId> {
    fn default() -> (r: Self)
        ensures
            r@ == StateModel::<NodeId>::empty(),
    {
        TreeState {
            selected: Vec::new(),
            expanded: HashSet::new(),
            checked: HashSet::new(),
            interacted: HashSet::new(),
        }
    }
}

impl<NodeId: TreeNodeId> TreeState<NodeId> {
    /// The selected nodes, in selection order.
    pub fn selected(&self) -> (r: &[NodeId])
        ensures
            r@ == self@.selected,
    {
        self.selected.as_slice()
    }

    /// The open directories.
    pub fn expanded(&self) -> (r: &HashSet<NodeId>)
        ensures
            r@ == self@.expanded,
    {
        &self.expanded
    }

    /// The nodes whose checkbox is set.
    pub fn checked(&self) -> (r: &HashSet<NodeId>)
        ensures
            r@ == self@.checked,
    {
        &self.checked
    }

    /// Whether `id` is selected.
    pub fn is_selected(&self, id: &NodeId) -> (r: bool)
        requires
            node_id_model::<NodeId>(),
        ensures
            r == self@.selected.contains(*id),
    {
        let mut i: usize = 0;
        while i < self.selected.len()
            invariant
                node_id_model::<NodeId>(),
                i <= self.selected.len(),
                forall|j: int| 0 <= j < i ==> self.selected@[j] != *id,
            decreases self.selected.len() - i,
        {
            if same_id(&self.selected[i], id) {
                return true;
            }
            i += 1;
        }
        false
    }

    /// Replaces the selection. The list is taken as it is: its nodes need not
    /// be declared in any frame.
    pub fn set_selected(&mut self, selected: Vec<NodeId>)
        ensures
            final(self)@ == old(self)@.set_selected(selected@),
    {
        self.selected = selected;
    }

    /// Whether directory `id` is open.
    pub fn is_expanded(&self, id: &NodeId) -> (r: bool)
        requires
            node_id_model::<NodeId>(),
        ensures
            r == self@.expanded.contains(*id),
    {
        self.expanded.contains(id)
    }

    /// Opens directory `id` and marks it as touched.
    pub fn expand(&mut self, id: NodeId)
        requires
            node_id_model::<NodeId>(),
        ensures
            final(self)@ == old(self)@.expand(id),
    {
        self.expanded.insert(clone_id(&id));
        self.interacted.insert(id);
    }

    /// Closes directory `id` and marks it as touched.
    pub fn collapse(&mut self, id: &NodeId)
        requires
            node_id_model::<NodeId>(),
        ensures
            final(self)@ == old(self)@.collapse(*id),
    {
        self.expanded.remove(id);
        self.interacted.insert(clone_id(id));
    }

    /// Opens every directory of `path`, marking each as touched: the way to
    /// reveal a node by opening its ancestors.
    pub fn expand_path(&mut self, path: Vec<NodeId>)
        requires
            node_id_model::<NodeId>(),
        ensures
            final(self)@ == old(self)@.expand_path(path@),
    {
        let mut i: usize = 0;
        while i < path.len()
            invariant
                node_id_model::<NodeId>(),
                i <= path.len(),
                self@ =~= old(self)@.expand_path(path@.take(i as int)),
            decreases path.len() - i,
        {
            proof {
                let done = path@.take(i as int);
                assert(path@.take(i + 1) == done.push(path@[i as int]));
                done.lemma_push_to_set_commute(path@[i as int]);
            }
            self.expand(clone_id(&path[i]));
            i += 1;
        }
        assert(path@.take(path.len() as int) == path@);
    }

    /// Makes `desired` the open directories: closes every open directory that
    /// is not in `desired`, opens every directory of `desired` that is not
    /// open, and marks each of those as touched. A directory that is open
    /// already and stays so is left as it is.
    pub fn sync_expanded(&mut self, desired: &HashSet<NodeId>)
        requires
            node_id_model::<NodeId>(),
        ensures
            final(self)@ == old(self)@.sync_expanded(desired@),
    {
        let current = elements(&self.expanded);
        let mut i: usize = 0;
        while i < current.len()
            invariant
                node_id_model::<NodeId>(),
                i <= current.len(),
                current@.to_set() == old(self)@.expanded,
                self@.selected == old(self)@.selected,
                self@.checked == old(self)@.checked,
                self@.expanded =~= old(self)@.expanded.difference(
                    current@.take(i as int).to_set().difference(desired@),
                ),
                self@.interacted =~= old(self)@.interacted.union(
                    current@.take(i as int).to_set().difference(desired@),
                ),
            decreases current.len() - i,
        {
            proof {
                let done = current@.take(i as int);
                assert(current@.take(i + 1) == done.push(current@[i as int]));
                done.lemma_push_to_set_commute(current@[i as int]);
            }
            if !desired.contains(&current[i]) {
                self.collapse(&current[i]);
            }
            i += 1;
        }
        assert(current@.take(current.len() as int) == current@);
        let ghost closed = self@;
        let wanted = elements(desired);
        let mut i: usize = 0;
        while i < wanted.len()
            invariant
                node_id_model::<NodeId>(),
                i <= wanted.len(),
                wanted@.to_set() == desired@,
                closed.expanded =~= old(self)@.expanded.intersect(desired@),
                closed.interacted =~= old(self)@.interacted.union(
                    old(self)@.expanded.difference(desired@),
                ),
                self@.selected == old(self)@.selected,
                self@.checked == old(self)@.checked,
                self@.expanded =~= closed.expanded.union(wanted@.take(i as int).to_set()),
                self@.interacted =~= closed.interacted.union(
                    wanted@.take(i as int).to_set().difference(closed.expanded),
                ),
            decreases wanted.len() - i,
        {
            proof {
                let done = wanted@.take(i as int);
                assert(wanted@.take(i + 1) == done.push(wanted@[i as int]));
                done.lemma_push_to_set_commute(wanted@[i as int]);
            }
            if !self.expanded.contains(&wanted[i]) {
                self.expand(clone_id(&wanted[i]));
            }
            i += 1;
        }
        assert(wanted@.take(wanted.len() as int) == wanted@);
    }

    /// Whether directory `id` was ever opened or closed explicitly.
    pub fn is_interacted(&self, id: &NodeId) -> (r: bool)
        requires
            node_id_model::<NodeId>(),
        ensures
            r == self@.interacted.contains(*id),
    {
        self.interacted.contains(id)
    }

    /// Whether the checkbox of `id` is set.
    pub fn is_checked(&self, id: &NodeId) -> (r: bool)
        requires
            node_id_model::<NodeId>(),
        ensures
            r == self@.checked.contains(*id),
    {
        self.checked.contains(id)
    }

    /// Sets or clears the checkbox of `id`.
    pub fn set_checked(&mut self, id: NodeId, checked: bool)
        requires
            node_id_model::<NodeId>(),
        ensures
            final(self)@ == old(self)@.set_checked(id, checked),
    {
        if checked {
            self.checked.insert(id);
        } else {
            self.checked.remove(&id);
        }
    }
}

} // verus!
