//! Plain data of the tree engine: node identities, configuration, per-node
//! options and the actions a frame reports.

use vstd::prelude::*;
use vstd::laws_eq::obeys_concrete_eq;
use vstd::std_specs::hash::obeys_key_model;
use super::host::pressed_matches_exact;

verus! {

/// Identity of a node: any type with equality, hashing and cheap duplication.
/// It must be stable across frames for a node to keep its state.
pub trait TreeNodeId: Clone + Eq + std::hash::Hash + Send + Sync + 'static {}

impl<T: Clone + Eq + std::hash::Hash + Send + Sync + 'static> TreeNodeId for T {}

/// What the engine relies on for a node identity type: hashing is
/// deterministic, `==` decides identity, and a clone is identical to its
/// source.
pub open spec fn node_id_model<NodeId: TreeNodeId>() -> bool {
    &&& obeys_key_model::<NodeId>()
    &&& obeys_concrete_eq::<NodeId>()
    &&& forall|a: NodeId, b: NodeId| cloned(a, b) ==> a == b
}

/// The integer types are usable node identities.
pub proof fn lemma_integers_are_node_ids()
    ensures
        node_id_model::<u8>(),
        node_id_model::<u16>(),
        node_id_model::<u32>(),
        node_id_model::<u64>(),
        node_id_model::<u128>(),
        node_id_model::<usize>(),
        node_id_model::<i8>(),
        node_id_model::<i16>(),
        node_id_model::<i32>(),
        node_id_model::<i64>(),
        node_id_model::<i128>(),
        node_id_model::<isize>(),
{
}

/// Duplicates an identity.
pub fn clone_id<NodeId: TreeNodeId>(id: &NodeId) -> (c: NodeId)
    requires
        node_id_model::<NodeId>(),
    ensures
        c == *id,
{
    let c = id.clone();
    assert(cloned(*id, c));
    c
}

/// Decides whether two identities are the same.
pub fn same_id<NodeId: TreeNodeId>(a: &NodeId, b: &NodeId) -> (r: bool)
    requires
        node_id_model::<NodeId>(),
    ensures
        r == (*a == *b),
{
    proof {
        reveal(obeys_concrete_eq);
    }
    *a == *b
}

/// The modifier keys held during a click, or asked for by a binding.
#[derive(Clone, Copy, Debug, PartialEq, Eq, Structural)]
pub struct KeyModifiers {
    /// Either alt key.
    pub alt: bool,
    /// Either control key.
    pub ctrl: bool,
    /// Either shift key.
    pub shift: bool,
    /// The Mac command key; `false` on other platforms.
    pub mac_cmd: bool,
    /// The platform's command key: ctrl on Windows and Linux, command on Mac.
    pub command: bool,
}

impl KeyModifiers {
    /// No key held.
    pub open spec fn spec_none() -> KeyModifiers {
        KeyModifiers { alt: false, ctrl: false, shift: false, mac_cmd: false, command: false }
    }

    /// Shift alone.
    pub open spec fn spec_shift() -> KeyModifiers {
        KeyModifiers { alt: false, ctrl: false, shift: true, mac_cmd: false, command: false }
    }

    /// The platform's command key alone.
    pub open spec fn spec_command() -> KeyModifiers {
        KeyModifiers { alt: false, ctrl: false, shift: false, mac_cmd: false, command: true }
    }

    /// Whether the ctrl and command keys of `self`, the pressed keys, satisfy
    /// `pattern`.
    pub open spec fn spec_cmd_ctrl_matches(self, pattern: KeyModifiers) -> bool {
        if pattern.mac_cmd {
            self.mac_cmd && pattern.ctrl == self.ctrl
        } else if !pattern.ctrl && !pattern.command {
            !self.ctrl && !self.command
        } else {
            (pattern.ctrl ==> self.ctrl) && (pattern.command ==> self.command)
        }
    }

    /// Whether `self`, the pressed keys, are exactly the binding `pattern`:
    /// alt and shift equal, ctrl and command as the platform reports them.
    pub open spec fn spec_matches_exact(self, pattern: KeyModifiers) -> bool {
        &&& pattern.alt == self.alt
        &&& pattern.shift == self.shift
        &&& self.spec_cmd_ctrl_matches(pattern)
    }

    #[verifier::when_used_as_spec(spec_none)]
    pub fn none() -> (r: KeyModifiers)
        ensures
            r == Self::spec_none(),
    {
        KeyModifiers { alt: false, ctrl: false, shift: false, mac_cmd: false, command: false }
    }

    #[verifier::when_used_as_spec(spec_shift)]
    pub fn shift() -> (r: KeyModifiers)
        ensures
            r == Self::spec_shift(),
    {
        KeyModifiers { alt: false, ctrl: false, shift: true, mac_cmd: false, command: false }
    }

    #[verifier::when_used_as_spec(spec_command)]
    pub fn command() -> (r: KeyModifiers)
        ensures
            r == Self::spec_command(),
    {
        KeyModifiers { alt: false, ctrl: false, shift: false, mac_cmd: false, command: true }
    }

    /// Whether the pressed keys `self` are exactly the binding `pattern`.
    #[verifier::when_used_as_spec(spec_matches_exact)]
    pub fn matches_exact(self, pattern: KeyModifiers) -> (r: bool)
        ensures
            r == self.spec_matches_exact(pattern),
    {
        pressed_matches_exact(self, pattern)
    }
}

/// Policy of one tree for one call.
#[derive(Clone, Copy, Debug, PartialEq, Eq, Structural)]
pub struct TreeConfig {
    /// Whether more than one node can be selected.
    pub allow_multi_select: bool,
    /// Whether a click anywhere on a directory row toggles it.
    pub click_to_toggle: bool,
    /// Whether indent guides are drawn.
    pub show_indent_guides: bool,
    /// Whether directories the user has not touched are shown open.
    pub default_expanded: bool,
    /// The keys that make a click select a range.
    pub range_select_modifier: KeyModifiers,
    /// The keys that make a click toggle one node in the selection.
    pub toggle_select_modifier: KeyModifiers,
}

impl TreeConfig {
    /// The configuration a tree starts with: single selection, indent guides
    /// shown, directories closed, shift for ranges, command for toggling.
    pub open spec fn spec_default() -> TreeConfig {
        TreeConfig {
            allow_multi_select: false,
            click_to_toggle: false,
            show_indent_guides: true,
            default_expanded: false,
            range_select_modifier: KeyModifiers::spec_shift(),
            toggle_select_modifier: KeyModifiers::spec_command(),
        }
    }
}

impl Default for TreeConfig {
    fn default() -> (r: Self)
        ensures
            r == TreeConfig::spec_default(),
    {
        TreeConfig {
            allow_multi_select: false,
            click_to_toggle: false,
            show_indent_guides: true,
            default_expanded: false,
            range_select_modifier: KeyModifiers::shift(),
            toggle_select_modifier: KeyModifiers::command(),
        }
    }
}

/// Options of one node, given when it is declared.
#[derive(Clone, Copy, Debug)]
pub struct NodeOptions {
    /// Icon glyph shown before the label.
    pub icon: Option<&'static str>,
    /// Whether the row holds a checkbox.
    pub checkbox: bool,
    /// Whether a directory the user has not touched is shown open.
    pub default_open: bool,
    /// Whether the row can be dragged.
    pub draggable: bool,
    /// Replaces the identity under which the host keeps the row's collapsing
    /// state; of use where node identities are unique only along a path.
    pub ui_id: Option<egui::Id>,
    /// Whether the label is dimmed.
    pub subdued: bool,
    /// Replaces the row's background.
    pub force_background: Option<egui::Color32>,
}

impl NodeOptions {
    /// Options with nothing set.
    pub open spec fn spec_default() -> NodeOptions {
        NodeOptions {
            icon: None,
            checkbox: false,
            default_open: false,
            draggable: false,
            ui_id: None,
            subdued: false,
            force_background: None,
        }
    }
}

impl Default for NodeOptions {
    fn default() -> (r: Self)
        ensures
            r == NodeOptions::spec_default(),
    {
        NodeOptions {
            icon: None,
            checkbox: false,
            default_open: false,
            draggable: false,
            ui_id: None,
            subdued: false,
            force_background: None,
        }
    }
}

/// One change that the user caused during a frame.
#[derive(Debug, PartialEq)]
pub enum TreeAction<NodeId> {
    /// The selection became the given list.
    SelectionChanged(Vec<NodeId>),
    /// A leaf was double-clicked.
    Activated(NodeId),
    /// A directory was opened or closed.
    Toggled { id: NodeId, expanded: bool },
    /// A checkbox was set or cleared.
    CheckedChanged { id: NodeId, checked: bool },
    /// A row was clicked with the secondary button at `position`.
    ContextMenuRequested { id: NodeId, position: egui::Pos2 },
}

impl<NodeId: Clone> TreeAction<NodeId> {
    /// Whether `copy` is `self` with each identity replaced by a clone of
    /// it.
    pub open spec fn cloned_as(self, copy: TreeAction<NodeId>) -> bool {
        match (self, copy) {
            (TreeAction::SelectionChanged(a), TreeAction::SelectionChanged(b)) => {
                &&& a@.len() == b@.len()
                &&& forall|i: int| 0 <= i < a@.len() ==> cloned(#[trigger] a@[i], b@[i])
            },
            (TreeAction::Activated(a), TreeAction::Activated(b)) => cloned(a, b),
            (
                TreeAction::Toggled { id: a, expanded: x },
                TreeAction::Toggled { id: b, expanded: y },
            ) => cloned(a, b) && x == y,
            (
                TreeAction::CheckedChanged { id: a, checked: x },
                TreeAction::CheckedChanged { id: b, checked: y },
            ) => cloned(a, b) && x == y,
            (
                TreeAction::ContextMenuRequested { id: a, position: x },
                TreeAction::ContextMenuRequested { id: b, position: y },
            ) => cloned(a, b) && x == y,
            _ => false,
        }
    }
}

impl<NodeId: Clone> Clone for TreeAction<NodeId> {
    fn clone(&self) -> (r: Self)
        ensures
            self.cloned_as(r),
    {
        match self {
            TreeAction::SelectionChanged(list) => TreeAction::SelectionChanged(list.clone()),
            TreeAction::Activated(id) => TreeAction::Activated(id.clone()),
            TreeAction::Toggled { id, expanded } => TreeAction::Toggled {
                id: id.clone(),
                expanded: *expanded,
            },
            TreeAction::CheckedChanged { id, checked } => TreeAction::CheckedChanged {
                id: id.clone(),
                checked: *checked,
            },
            TreeAction::ContextMenuRequested { id, position } => TreeAction::ContextMenuRequested {
                id: id.clone(),
                position: *position,
            },
        }
    }
}

/// An action as a mathematical value.
pub enum ActionModel<NodeId> {
    SelectionChanged(Seq<NodeId>),
    Activated(NodeId),
    Toggled { id: NodeId, expanded: bool },
    CheckedChanged { id: NodeId, checked: bool },
    ContextMenuRequested { id: NodeId, position: egui::Pos2 },
}

impl<NodeId> View for TreeAction<NodeId> {
    type V = ActionModel<NodeId>;

    open spec fn view(&self) -> ActionModel<NodeId> {
        match *self {
            TreeAction::SelectionChanged(list) => ActionModel::SelectionChanged(list@),
            TreeAction::Activated(id) => ActionModel::Activated(id),
            TreeAction::Toggled { id, expanded } => ActionModel::Toggled { id, expanded },
            TreeAction::CheckedChanged { id, checked } => ActionModel::CheckedChanged {
                id,
                checked,
            },
            TreeAction::ContextMenuRequested { id, position } => ActionModel::ContextMenuRequested {
                id,
                position,
            },
        }
    }
}

/// A list of actions as a sequence of mathematical values.
pub open spec fn actions_model<NodeId>(actions: Seq<TreeAction<NodeId>>) -> Seq<
    ActionModel<NodeId>,
> {
    actions.map_values(|a: TreeAction<NodeId>| a@)
}

} // verus!
