//! What holds of the engine whatever the tree, the state and the input.

use vstd::prelude::*;
use super::builder::FrameModel;
use super::selection::{range_between, selection_after_click, toggled};
use super::state::StateModel;
use super::types::{ActionModel, KeyModifiers, NodeOptions, TreeConfig};

verus! {

/// Whether a click under `modifiers` replaces the selection by the clicked
/// node: always without multi-selection, and with it under keys that are
/// neither the range binding nor the toggle binding.
pub open spec fn replaces_selection(config: TreeConfig, modifiers: KeyModifiers) -> bool {
    ||| !config.allow_multi_select
    ||| {
        &&& !modifiers.spec_matches_exact(config.range_select_modifier)
        &&& !modifiers.spec_matches_exact(config.toggle_select_modifier)
    }
}

/// Whether a click under `modifiers` toggles the clicked node in the
/// selection.
pub open spec fn toggles_selection(config: TreeConfig, modifiers: KeyModifiers) -> bool {
    &&& config.allow_multi_select
    &&& !modifiers.spec_matches_exact(config.range_select_modifier)
    &&& modifiers.spec_matches_exact(config.toggle_select_modifier)
}

/// A click that replaces the selection is idempotent. It leaves the clicked
/// node as the only selected one; it reports the new selection where that is
/// a change and nothing where the node was the sole selection already; so a
/// second such click on the same node changes nothing and reports nothing.
pub proof fn lemma_single_select_idempotent<NodeId>(
    frame: FrameModel<NodeId>,
    modifiers: KeyModifiers,
    id: NodeId,
)
    requires
        replaces_selection(frame.config, modifiers),
    ensures
        frame.click(modifiers, id).state.selected == seq![id],
        frame.state.selected != seq![id] ==> frame.click(modifiers, id).actions
            == frame.actions.push(ActionModel::SelectionChanged(seq![id])),
        frame.state.selected == seq![id] ==> frame.click(modifiers, id) == frame,
        frame.click(modifiers, id).click(modifiers, id) == frame.click(modifiers, id),
{
}

/// A click that does not toggle selects the clicked node: whatever was
/// selected before, the node is selected afterwards.
pub proof fn lemma_click_selects_clicked<NodeId>(
    frame: FrameModel<NodeId>,
    modifiers: KeyModifiers,
    id: NodeId,
)
    requires
        !toggles_selection(frame.config, modifiers),
    ensures
        frame.click(modifiers, id).state.selected.contains(id),
{
    let selected = frame.state.selected;
    let next = selection_after_click(frame.config, modifiers, frame.order, selected, id);
    assert(next.contains(id)) by {
        if frame.config.allow_multi_select && modifiers.spec_matches_exact(
            frame.config.range_select_modifier,
        ) && selected.len() > 0 {
            let order = frame.order;
            let pivot = selected[0];
            order.index_of_first_ensures(pivot);
            order.index_of_first_ensures(id);
            match (order.index_of_first(pivot), order.index_of_first(id)) {
                (Some(f), Some(t)) => {
                    if f <= t {
                        assert(order.subrange(f, t + 1)[t - f] == id);
                    } else {
                        assert(order.subrange(t, f + 1)[0] == id);
                    }
                },
                _ => {
                    assert(seq![id][0] == id);
                },
            }
        } else {
            assert(seq![id][0] == id);
        }
    }
}

/// A range does not depend on the direction in which it is spanned: where
/// the frame declared both nodes, the range from `a` to `b` is the range
/// from `b` to `a`.
pub proof fn lemma_range_order_independent<NodeId>(order: Seq<NodeId>, a: NodeId, b: NodeId)
    requires
        order.contains(a),
        order.contains(b),
    ensures
        range_between(order, a, b) == range_between(order, b, a),
{
    order.index_of_first_ensures(a);
    order.index_of_first_ensures(b);
}

/// A range is the stretch of the frame order between the first occurrences
/// of its two ends: it starts with the earlier one, ends with the later one,
/// and holds every node declared between them.
pub proof fn lemma_range_spans<NodeId>(order: Seq<NodeId>, a: NodeId, b: NodeId, i: int, j: int)
    requires
        0 <= i <= j < order.len(),
        order[i] == a,
        order[j] == b,
        forall|k: int| 0 <= k < i ==> order[k] != a && order[k] != b,
        forall|k: int| i <= k < j ==> order[k] != b,
    ensures
        range_between(order, a, b) == order.subrange(i, j + 1),
        range_between(order, b, a) == order.subrange(i, j + 1),
{
    order.index_of_first_ensures(a);
    order.index_of_first_ensures(b);
    assert(order.index_of_first(a) == Some(i));
    assert(order.index_of_first(b) == Some(j));
}

/// Toggling a node that is not selected and toggling it again gives the
/// selection back as it was.
pub proof fn lemma_toggle_round_trip<NodeId>(selected: Seq<NodeId>, id: NodeId)
    requires
        !selected.contains(id),
    ensures
        toggled(selected, id) == selected.push(id),
        toggled(toggled(selected, id), id) == selected,
{
    selected.index_of_first_ensures(id);
    let once = selected.push(id);
    once.index_of_first_ensures(id);
    assert(once[selected.len() as int] == id);
    assert(once.index_of_first(id) == Some(selected.len() as int));
    assert(once.remove(selected.len() as int) =~= selected);
}

/// Two toggle clicks on a node that is not selected report exactly two
/// selection changes, the first with the node added at the end and the
/// second with the selection as it was, and leave the state as it was.
pub proof fn lemma_toggle_clicks_round_trip<NodeId>(
    frame: FrameModel<NodeId>,
    modifiers: KeyModifiers,
    id: NodeId,
)
    requires
        toggles_selection(frame.config, modifiers),
        !frame.state.selected.contains(id),
    ensures
        frame.click(modifiers, id).state.selected == frame.state.selected.push(id),
        frame.click(modifiers, id).click(modifiers, id).state == frame.state,
        frame.click(modifiers, id).click(modifiers, id).actions == frame.actions.push(
            ActionModel::SelectionChanged(frame.state.selected.push(id)),
        ).push(ActionModel::SelectionChanged(frame.state.selected)),
{
    let selected = frame.state.selected;
    lemma_toggle_round_trip(selected, id);
    let once = frame.click(modifiers, id);
    assert(selection_after_click(frame.config, modifiers, frame.order, selected, id)
        == selected.push(id));
    assert(selection_after_click(once.config, modifiers, once.order, once.state.selected, id)
        == selected);
}

/// A directory that the user opened or closed is shown as the user left it,
/// whatever the defaults say: after a toggle to `open`, the directory is
/// touched, and it is shown open exactly if `open`, under any configuration
/// and any options.
pub proof fn lemma_expansion_sticky<NodeId>(
    frame: FrameModel<NodeId>,
    id: NodeId,
    was_open: bool,
    open: bool,
    later_config: TreeConfig,
    later_opts: NodeOptions,
)
    requires
        open != was_open,
    ensures
        frame.toggle(id, was_open, open).state.interacted.contains(id),
        frame.toggle(id, was_open, open).state.expanded.contains(id) == open,
        frame.toggle(id, was_open, open).actions == frame.actions.push(
            ActionModel::Toggled { id, expanded: open },
        ),
        (FrameModel { config: later_config, ..frame.toggle(id, was_open, open) }).shown_open(
            id,
            later_opts,
        ) == open,
{
}

/// A directory that was touched is shown as the state holds it; one that was
/// not is shown as the default says.
pub proof fn lemma_effective_expansion<NodeId>(
    state: StateModel<NodeId>,
    id: NodeId,
    default_open: bool,
)
    ensures
        state.interacted.contains(id) ==> state.effective_expansion(id, default_open)
            == state.expanded.contains(id),
        !state.interacted.contains(id) ==> state.effective_expansion(id, default_open)
            == default_open,
        state.expand(id).effective_expansion(id, default_open),
        !state.collapse(id).effective_expansion(id, default_open),
{
}

/// A frame only grows: every step keeps the tree's identity and the policy
/// of the call, keeps the nodes declared and the actions reported before it
/// as they are, and adds its own behind them.
pub proof fn lemma_frame_grows<NodeId>(
    frame: FrameModel<NodeId>,
    id: NodeId,
    opts: NodeOptions,
    row: super::builder::RowResponse,
    was_open: bool,
    response: super::builder::DirResponse,
)
    ensures
        frame.leaf(id, opts, row).tree_id == frame.tree_id,
        frame.leaf(id, opts, row).config == frame.config,
        frame.leaf(id, opts, row).order == frame.order.push(id),
        frame.actions.is_prefix_of(frame.leaf(id, opts, row).actions),
        frame.dir(id, opts, was_open, response).tree_id == frame.tree_id,
        frame.dir(id, opts, was_open, response).config == frame.config,
        frame.dir(id, opts, was_open, response).order == frame.order,
        frame.actions.is_prefix_of(frame.dir(id, opts, was_open, response).actions),
{
}

/// No step of a frame makes a touched directory untouched.
pub proof fn lemma_touched_stays_touched<NodeId>(
    frame: FrameModel<NodeId>,
    id: NodeId,
    opts: NodeOptions,
    row: super::builder::RowResponse,
    was_open: bool,
    response: super::builder::DirResponse,
    touched: NodeId,
)
    requires
        frame.state.interacted.contains(touched),
    ensures
        frame.declare(id).state.interacted.contains(touched),
        frame.leaf(id, opts, row).state.interacted.contains(touched),
        frame.dir(id, opts, was_open, response).state.interacted.contains(touched),
{
}

/// Reconciling the open directories with `desired` leaves exactly `desired`
/// open; every directory that was closed or opened for it is touched
/// afterwards; and a directory that was neither keeps being touched or not
/// as it was. Selection and checkboxes stay.
pub proof fn lemma_sync_expanded<NodeId>(state: StateModel<NodeId>, desired: Set<NodeId>)
    ensures
        state.sync_expanded(desired).expanded == desired,
        forall|id: NodeId|
            (state.expanded.contains(id) != desired.contains(id)) ==> #[trigger] state.sync_expanded(
                desired,
            ).interacted.contains(id),
        forall|id: NodeId|
            (state.expanded.contains(id) == desired.contains(id)) ==> (#[trigger] state.sync_expanded(
                desired,
            ).interacted.contains(id) == state.interacted.contains(id)),
        state.sync_expanded(desired).selected == state.selected,
        state.sync_expanded(desired).checked == state.checked,
{
}

/// Reconciling twice with the same set is reconciling once.
pub proof fn lemma_sync_expanded_idempotent<NodeId>(state: StateModel<NodeId>, desired: Set<NodeId>)
    ensures
        state.sync_expanded(desired).sync_expanded(desired) == state.sync_expanded(desired),
{
}

/// A checkbox that reports a new value holds that value afterwards, and the
/// change is reported; setting and then clearing the checkbox of a node that
/// was not checked gives the checked set back as it was.
pub proof fn lemma_checkbox_toggle<NodeId>(frame: FrameModel<NodeId>, id: NodeId, checked: bool)
    ensures
        frame.check(id, Some(checked)).state.checked.contains(id) == checked,
        frame.check(id, Some(checked)).actions == frame.actions.push(
            ActionModel::CheckedChanged { id, checked },
        ),
        frame.check(id, None) == frame,
        !frame.state.checked.contains(id) ==> frame.check(id, Some(true)).check(
            id,
            Some(false),
        ).state == frame.state,
{
}

} // verus!
