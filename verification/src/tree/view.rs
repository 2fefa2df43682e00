//! The view: identity and policy of one tree, and the start of each frame.

use std::marker::PhantomData;
use vstd::prelude::*;
use super::builder::{FrameModel, TreeBuilder};
use super::host::root_id;
use super::state::TreeState;
use super::types::{TreeConfig, TreeNodeId};

verus! {

/// One tree widget: the identity under which the host keeps its state, and
/// the configuration of the call.
///
/// A frame runs in three steps: the host loads the tree's [`TreeState`] from
/// its store under [`TreeView::id`]; [`TreeView::begin`] makes the frame's
/// builder, which takes the rows; [`TreeBuilder::finish`] hands back the
/// state, which the host stores again, and the frame's actions.
pub struct TreeView<NodeId: TreeNodeId> {
    id: egui::Id,
    config: TreeConfig,
    _phantom: PhantomData<NodeId>,
}

impl<NodeId: TreeNodeId> TreeView<NodeId> {
    /// The identity of the tree towards the host.
    pub closed spec fn spec_id(&self) -> egui::Id {
        self.id
    }

    /// The configuration of the tree.
    pub closed spec fn spec_config(&self) -> TreeConfig {
        self.config
    }

    /// A tree named by `id`, with the default configuration.
    pub fn new<H: std::hash::Hash>(id: H) -> (r: Self)
        ensures
            r.spec_config() == TreeConfig::spec_default(),
    {
        TreeView { id: root_id(id), config: TreeConfig::default(), _phantom: PhantomData }
    }

    /// The same tree with `config` in place of its configuration.
    pub fn config(self, config: TreeConfig) -> (r: Self)
        ensures
            r.spec_id() == self.spec_id(),
            r.spec_config() == config,
    {
        TreeView { id: self.id, config, _phantom: PhantomData }
    }

    /// The same tree, with multi-selection allowed or not.
    pub fn allow_multi_select(self, allow: bool) -> (r: Self)
        ensures
            r.spec_id() == self.spec_id(),
            r.spec_config() == (TreeConfig { allow_multi_select: allow, ..self.spec_config() }),
    {
        let config = TreeConfig { allow_multi_select: allow, ..self.config };
        TreeView { id: self.id, config, _phantom: PhantomData }
    }

    /// The same tree, with directories toggled by a click anywhere on their
    /// row or not.
    pub fn click_to_toggle(self, enable: bool) -> (r: Self)
        ensures
            r.spec_id() == self.spec_id(),
            r.spec_config() == (TreeConfig { click_to_toggle: enable, ..self.spec_config() }),
    {
        let config = TreeConfig { click_to_toggle: enable, ..self.config };
        TreeView { id: self.id, config, _phantom: PhantomData }
    }

    /// The same tree, with indent guides shown or not.
    pub fn show_indent_guides(self, show: bool) -> (r: Self)
        ensures
            r.spec_id() == self.spec_id(),
            r.spec_config() == (TreeConfig { show_indent_guides: show, ..self.spec_config() }),
    {
        let config = TreeConfig { show_indent_guides: show, ..self.config };
        TreeView { id: self.id, config, _phantom: PhantomData }
    }

    /// The same tree, with untouched directories shown open or not.
    pub fn default_expanded(self, expanded: bool) -> (r: Self)
        ensures
            r.spec_id() == self.spec_id(),
            r.spec_config() == (TreeConfig { default_expanded: expanded, ..self.spec_config() }),
    {
        let config = TreeConfig { default_expanded: expanded, ..self.config };
        TreeView { id: self.id, config, _phantom: PhantomData }
    }

    /// The identity of the tree towards the host: the key of its state in
    /// the host's store.
    pub fn id(&self) -> (r: egui::Id)
        ensures
            r == self.spec_id(),
    {
        self.id
    }

    /// The configuration of the tree.
    pub fn settings(&self) -> (r: TreeConfig)
        ensures
            r == self.spec_config(),
    {
        self.config
    }

    /// The value of the host's indent-guide flag while this tree is shown,
    /// where `host_flag` is its value outside: switched off where the tree
    /// shows no guides, else left as it is. The host puts `host_flag` back
    /// when the frame is over.
    pub fn indent_guides_while_shown(&self, host_flag: bool) -> (r: bool)
        ensures
            r == (host_flag && self.spec_config().show_indent_guides),
    {
        if !self.config.show_indent_guides {
            false
        } else {
            host_flag
        }
    }

    /// Starts a frame over `state`, the tree's state as the host's store
    /// holds it: no node is declared yet and no action reported.
    pub fn begin(&self, state: TreeState<NodeId>) -> (r: TreeBuilder<NodeId>)
        ensures
            r@ == FrameModel::start(self.spec_id(), self.spec_config(), state@),
    {
        TreeBuilder::new(self.id, self.config, state)
    }
}

} // verus!
