//! The builder: the cursor that takes the rows of one frame in the order in
//! which they are declared, resolves what the user did to each against the
//! tree's state, and collects the resulting actions.
//!
//! Rendering is the host's part. For each row the host renders it, gathers
//! what happened to it into a [`RowResponse`], and hands that to the
//! builder; the builder never draws and never waits.

use vstd::prelude::*;
use super::host::child_id;
use super::selection::{copy_of, same_list, select_on_click, selection_after_click};
use super::state::{StateModel, TreeState};
use super::types::{
    ActionModel, KeyModifiers, NodeOptions, TreeAction, TreeConfig, TreeNodeId, actions_model,
    clone_id, node_id_model,
};

verus! {

/// Whether a row is a leaf or a directory.
#[derive(Clone, Copy, Debug, PartialEq, Eq, Structural)]
pub enum RowKind {
    Leaf,
    Dir,
}

/// What happened to one row while the host rendered it.
#[derive(Clone, Copy, Debug)]
pub struct RowResponse {
    /// The row was clicked with the primary button.
    pub clicked: bool,
    /// The row was double-clicked with the primary button.
    pub double_clicked: bool,
    /// The row was clicked with the secondary button, with the pointer at the
    /// given position.
    pub secondary_clicked: Option<egui::Pos2>,
    /// The modifier keys held during the frame.
    pub modifiers: KeyModifiers,
    /// The row's checkbox was switched to the given value. Read only for rows
    /// that have a checkbox.
    pub checkbox_changed: Option<bool>,
}

impl RowResponse {
    /// The response of a row that nothing happened to.
    pub open spec fn spec_idle() -> RowResponse {
        RowResponse {
            clicked: false,
            double_clicked: false,
            secondary_clicked: None,
            modifiers: KeyModifiers::spec_none(),
            checkbox_changed: None,
        }
    }

    /// The response of a row that nothing happened to.
    #[verifier::when_used_as_spec(spec_idle)]
    pub fn idle() -> (r: RowResponse)
        ensures
            r == Self::spec_idle(),
    {
        RowResponse {
            clicked: false,
            double_clicked: false,
            secondary_clicked: None,
            modifiers: KeyModifiers::none(),
            checkbox_changed: None,
        }
    }
}

/// What happened to a directory row while the host rendered it and its body.
#[derive(Clone, Copy, Debug)]
pub struct DirResponse {
    /// What happened to the row itself, not to its body.
    pub row: RowResponse,
    /// Whether the directory ended the frame more open than closed.
    pub open: bool,
}

/// One frame in progress, as a mathematical value.
#[verifier::ext_equal]
#[verifier::reject_recursive_types(NodeId)]
pub struct FrameModel<NodeId> {
    /// Identity of the tree towards the host.
    pub tree_id: egui::Id,
    /// The policy of this call.
    pub config: TreeConfig,
    /// The tree's state.
    pub state: StateModel<NodeId>,
    /// The actions reported so far, oldest first.
    pub actions: Seq<ActionModel<NodeId>>,
    /// The nodes declared so far, in declaration order: parents before their
    /// children, siblings as declared.
    pub order: Seq<NodeId>,
}

impl<NodeId> FrameModel<NodeId> {
    /// A frame before its first row.
    pub open spec fn start(tree_id: egui::Id, config: TreeConfig, state: StateModel<NodeId>) -> Self {
        FrameModel { tree_id, config, state, actions: Seq::empty(), order: Seq::empty() }
    }

    /// The frame with `id` declared as its next node.
    pub open spec fn declare(self, id: NodeId) -> Self {
        FrameModel { order: self.order.push(id), ..self }
    }

    /// The frame with one more action reported.
    pub open spec fn emit(self, action: ActionModel<NodeId>) -> Self {
        FrameModel { actions: self.actions.push(action), ..self }
    }

    /// The frame after the checkbox of `id` reported `change`: a new value is
    /// stored and reported, no value changes nothing.
    pub open spec fn check(self, id: NodeId, change: Option<bool>) -> Self {
        match change {
            Some(checked) => FrameModel {
                state: self.state.set_checked(id, checked),
                ..self
            }.emit(ActionModel::CheckedChanged { id, checked }),
            None => self,
        }
    }

    /// The frame after directory `id`, shown as `was_open`, ended up `open`:
    /// a difference is a toggle by the user, which is stored, marks the
    /// directory as touched, and is reported.
    pub open spec fn toggle(self, id: NodeId, was_open: bool, open: bool) -> Self {
        if open != was_open {
            FrameModel { state: self.state.set_expanded(id, open), ..self }.emit(
                ActionModel::Toggled { id, expanded: open },
            )
        } else {
            self
        }
    }

    /// The frame after a single click on `id`: the selection rules give the
    /// new selection, which is stored and reported only where it differs from
    /// the selection before.
    pub open spec fn click(self, modifiers: KeyModifiers, id: NodeId) -> Self {
        let next = selection_after_click(
            self.config,
            modifiers,
            self.order,
            self.state.selected,
            id,
        );
        if next == self.state.selected {
            self
        } else {
            FrameModel { state: self.state.set_selected(next), ..self }.emit(
                ActionModel::SelectionChanged(next),
            )
        }
    }

    /// The frame after the primary button's part of a row response: a
    /// double-click activates a leaf and does nothing on a directory, a
    /// single click selects.
    pub open spec fn primary(self, id: NodeId, row: RowResponse, kind: RowKind) -> Self {
        if row.double_clicked {
            if kind == RowKind::Leaf {
                self.emit(ActionModel::Activated(id))
            } else {
                self
            }
        } else if row.clicked {
            self.click(row.modifiers, id)
        } else {
            self
        }
    }

    /// The frame after a row response: the primary button's part, then a
    /// context-menu request where the secondary button was clicked.
    pub open spec fn row_response(self, id: NodeId, row: RowResponse, kind: RowKind) -> Self {
        let after = self.primary(id, row, kind);
        match row.secondary_clicked {
            Some(position) => after.emit(ActionModel::ContextMenuRequested { id, position }),
            None => after,
        }
    }

    /// The frame after the checkbox part of a row: read only where the row
    /// has a checkbox.
    pub open spec fn checkbox(self, id: NodeId, opts: NodeOptions, row: RowResponse) -> Self {
        if opts.checkbox {
            self.check(id, row.checkbox_changed)
        } else {
            self
        }
    }

    /// The frame after a leaf row: the node is declared, then its checkbox
    /// and its response are resolved.
    pub open spec fn leaf(self, id: NodeId, opts: NodeOptions, row: RowResponse) -> Self {
        self.declare(id).checkbox(id, opts, row).row_response(id, row, RowKind::Leaf)
    }

    /// Whether directory `id` is to be shown open in this frame: as the user
    /// left it once it was touched, else open where the node's or the tree's
    /// default says so.
    pub open spec fn shown_open(self, id: NodeId, opts: NodeOptions) -> bool {
        self.state.effective_expansion(id, opts.default_open || self.config.default_expanded)
    }

    /// The frame after a directory row and its body: its checkbox, then a
    /// toggle by the user, then the row's own response.
    pub open spec fn dir(
        self,
        id: NodeId,
        opts: NodeOptions,
        was_open: bool,
        response: DirResponse,
    ) -> Self {
        self.checkbox(id, opts, response.row).toggle(id, was_open, response.open).row_response(
            id,
            response.row,
            RowKind::Dir,
        )
    }
}

/// The cursor over one frame of a tree.
///
/// One builder serves the whole frame: the rows of a directory's body go to
/// the same builder as the directory itself, between [`TreeBuilder::begin_dir`]
/// and [`TreeBuilder::dir`].
pub struct TreeBuilder<NodeId: TreeNodeId> {
    tree_id: egui::Id,
    config: TreeConfig,
    state: TreeState<NodeId>,
    actions: Vec<TreeAction<NodeId>>,
    all_nodes: Vec<NodeId>,
}

impl<NodeId: TreeNodeId> View for TreeBuilder<NodeId> {
    type V = FrameModel<NodeId>;

    closed spec fn view(&self) -> FrameModel<NodeId> {
        FrameModel {
            tree_id: self.tree_id,
            config: self.config,
            state: self.state@,
            actions: actions_model(self.actions@),
            order: self.all_nodes@,
        }
    }
}

impl<NodeId: TreeNodeId> TreeBuilder<NodeId> {
    /// A builder at the start of a frame, over the state as the last frame
    /// left it.
    pub fn new(tree_id: egui::Id, config: TreeConfig, state: TreeState<NodeId>) -> (r: Self)
        ensures
            r@ == FrameModel::start(tree_id, config, state@),
    {
        let r = TreeBuilder { tree_id, config, state, actions: Vec::new(), all_nodes: Vec::new() };
        r
    }

    /// The tree's state as the rows taken so far have left it.
    pub fn state(&self) -> (r: &TreeState<NodeId>)
        ensures
            r@ == self@.state,
    {
        &self.state
    }

    /// The policy of this call.
    pub fn config(&self) -> (r: &TreeConfig)
        ensures
            *r == self@.config,
    {
        &self.config
    }

    /// Identity of the tree towards the host.
    pub fn tree_id(&self) -> (r: egui::Id)
        ensures
            r == self@.tree_id,
    {
        self.tree_id
    }

    /// The actions reported so far, oldest first.
    pub fn actions(&self) -> (r: &[TreeAction<NodeId>])
        ensures
            actions_model(r@) == self@.actions,
    {
        self.actions.as_slice()
    }

    /// The nodes declared so far, in declaration order.
    pub fn frame_order(&self) -> (r: &[NodeId])
        ensures
            r@ == self@.order,
    {
        self.all_nodes.as_slice()
    }

    fn push_action(&mut self, action: TreeAction<NodeId>)
        ensures
            final(self)@ == old(self)@.emit(action@),
    {
        self.actions.push(action);
    }

    /// The range from `from` to `to` among the nodes declared so far.
    pub fn collect_range(&self, from: &NodeId, to: &NodeId) -> (r: Vec<NodeId>)
        requires
            node_id_model::<NodeId>(),
        ensures
            r@ == super::selection::range_between(self@.order, *from, *to),
    {
        super::selection::collect_range(self.all_nodes.as_slice(), from, to)
    }

    /// Resolves a single click on `id` under the given modifier keys.
    pub fn handle_click(&mut self, id: NodeId, modifiers: KeyModifiers)
        requires
            node_id_model::<NodeId>(),
        ensures
            final(self)@ == old(self)@.click(modifiers, id),
    {
        let selected = self.state.selected();
        let prev = copy_of(selected, 0, selected.len());
        assert(prev@ =~= selected@);
        let next = select_on_click(&self.config, modifiers, self.all_nodes.as_slice(), selected, id);
        self.state.set_selected(next);
        let selected = self.state.selected();
        if !same_list(selected, prev.as_slice()) {
            let shown = copy_of(selected, 0, selected.len());
            assert(shown@ =~= selected@);
            self.push_action(TreeAction::SelectionChanged(shown));
        }
    }

    /// Resolves what happened to the row of `id`.
    pub fn handle_row_response(&mut self, id: NodeId, row: RowResponse, kind: RowKind)
        requires
            node_id_model::<NodeId>(),
        ensures
            final(self)@ == old(self)@.row_response(id, row, kind),
    {
        if row.double_clicked {
            if kind == RowKind::Leaf {
                self.push_action(TreeAction::Activated(clone_id(&id)));
            }
        } else if row.clicked {
            self.handle_click(clone_id(&id), row.modifiers);
        }
        if let Some(position) = row.secondary_clicked {
            self.push_action(TreeAction::ContextMenuRequested { id, position });
        }
    }

    /// Stores and reports a change of the checkbox of `id`, if there is one.
    pub fn apply_checkbox(&mut self, id: &NodeId, change: Option<bool>)
        requires
            node_id_model::<NodeId>(),
        ensures
            final(self)@ == old(self)@.check(*id, change),
    {
        if let Some(checked) = change {
            self.state.set_checked(clone_id(id), checked);
            self.push_action(TreeAction::CheckedChanged { id: clone_id(id), checked });
        }
    }

    /// Takes a leaf row: declares `id` as the frame's next node, then
    /// resolves its checkbox, where it has one, and its response.
    pub fn leaf(&mut self, id: NodeId, opts: NodeOptions, row: RowResponse)
        requires
            node_id_model::<NodeId>(),
        ensures
            final(self)@ == old(self)@.leaf(id, opts, row),
    {
        self.all_nodes.push(clone_id(&id));
        if opts.checkbox {
            self.apply_checkbox(&id, row.checkbox_changed);
        }
        self.handle_row_response(id, row, RowKind::Leaf);
    }

    /// Opens a directory row: declares `id` as the frame's next node and
    /// says whether the directory is to be shown open. The host renders the
    /// row with that value, hands the rows of its body to this builder, and
    /// closes the row with [`TreeBuilder::dir`].
    pub fn begin_dir(&mut self, id: &NodeId, opts: &NodeOptions) -> (open: bool)
        requires
            node_id_model::<NodeId>(),
        ensures
            open == old(self)@.shown_open(*id, *opts),
            final(self)@ == old(self)@.declare(*id),
    {
        let open = if self.state.is_interacted(id) {
            self.state.is_expanded(id)
        } else {
            opts.default_open || self.config.default_expanded
        };
        self.all_nodes.push(clone_id(id));
        open
    }

    /// Closes a directory row that [`TreeBuilder::begin_dir`] opened as
    /// `was_open`: resolves its checkbox, where it has one, then a toggle by
    /// the user, then the row's own response.
    pub fn dir(&mut self, id: NodeId, opts: NodeOptions, was_open: bool, response: DirResponse)
        requires
            node_id_model::<NodeId>(),
        ensures
            final(self)@ == old(self)@.dir(id, opts, was_open, response),
    {
        if opts.checkbox {
            self.apply_checkbox(&id, response.row.checkbox_changed);
        }
        if response.open != was_open {
            if response.open {
                self.state.expand(clone_id(&id));
            } else {
                self.state.collapse(&id);
            }
            self.push_action(TreeAction::Toggled { id: clone_id(&id), expanded: response.open });
        }
        assert(self@ =~= old(self)@.checkbox(id, opts, response.row).toggle(
            id,
            was_open,
            response.open,
        ));
        self.handle_row_response(id, response.row, RowKind::Dir);
    }

    /// The identity under which the host keeps the collapsing state of the
    /// row of `id`: the override of `opts` where it has one, else an identity
    /// derived from the tree's and the node's.
    pub fn row_ui_id(&self, id: &NodeId, opts: &NodeOptions) -> (r: egui::Id)
        ensures
            opts.ui_id matches Some(given) ==> r == given,
    {
        match opts.ui_id {
            Some(given) => given,
            None => child_id(self.tree_id, ("tree_node", id)),
        }
    }

    /// Ends the frame: the state to keep for the next frame, and the actions
    /// of this one, oldest first.
    pub fn finish(self) -> (r: (TreeState<NodeId>, Vec<TreeAction<NodeId>>))
        ensures
            r.0@ == self@.state,
            actions_model(r.1@) == self@.actions,
    {
        (self.state, self.actions)
    }
}

} // verus!
