use std::collections::HashSet;

use egui_kit::tree::selection::{collect_range, position, same_list, select_on_click, toggle_in};
use egui_kit::tree::{
    DirResponse, KeyModifiers, NodeOptions, RowKind, RowResponse, TreeAction, TreeBuilder,
    TreeConfig, TreeState, TreeView,
};

/// What the user does to one row of the test tree during a frame.
#[derive(Clone, Copy)]
enum Input {
    Row(u32, RowResponse),
    Openness(u32, bool),
}

fn click(modifiers: KeyModifiers) -> RowResponse {
    RowResponse { clicked: true, modifiers, ..RowResponse::idle() }
}

fn response_for(id: u32, input: Option<Input>) -> RowResponse {
    match input {
        Some(Input::Row(target, row)) if target == id => row,
        _ => RowResponse::idle(),
    }
}

fn leaf(builder: &mut TreeBuilder<u32>, id: u32, opts: NodeOptions, input: Option<Input>) {
    builder.leaf(id, opts, response_for(id, input));
}

fn dir(
    builder: &mut TreeBuilder<u32>,
    id: u32,
    opts: NodeOptions,
    input: Option<Input>,
    body: impl FnOnce(&mut TreeBuilder<u32>),
) -> bool {
    let was_open = builder.begin_dir(&id, &opts);
    if was_open {
        body(builder);
    }
    let open = match input {
        Some(Input::Openness(target, open)) if target == id => open,
        _ => was_open,
    };
    builder.dir(id, opts, was_open, DirResponse { row: response_for(id, input), open });
    was_open
}

/// One frame over the tree 1(dir) [2, 3], 4(dir) [5], with both directories
/// open by default and a checkbox on node 3.
fn frame(
    view: &TreeView<u32>,
    state: TreeState<u32>,
    input: Option<Input>,
) -> (TreeState<u32>, Vec<TreeAction<u32>>) {
    let open = NodeOptions { default_open: true, ..NodeOptions::default() };
    let boxed = NodeOptions { checkbox: true, ..NodeOptions::default() };
    let mut builder = view.begin(state);
    dir(&mut builder, 1, open, input, |b| {
        leaf(b, 2, NodeOptions::default(), input);
        leaf(b, 3, boxed, input);
    });
    dir(&mut builder, 4, open, input, |b| {
        leaf(b, 5, NodeOptions::default(), input);
    });
    builder.finish()
}

fn set_of(ids: &[u32]) -> HashSet<u32> {
    ids.iter().copied().collect()
}

#[test]
fn single_select_idempotence() {
    let view = TreeView::<u32>::new("tree");
    let input = Some(Input::Row(2, click(KeyModifiers::none())));

    let (state, actions) = frame(&view, TreeState::default(), input);
    assert_eq!(state.selected(), &[2]);
    assert_eq!(actions, vec![TreeAction::SelectionChanged(vec![2])]);

    let (state, actions) = frame(&view, state, input);
    assert_eq!(state.selected(), &[2]);
    assert_eq!(actions, vec![]);
}

#[test]
fn single_select_ignores_modifiers() {
    let view = TreeView::<u32>::new("tree");
    let (state, _) = frame(&view, TreeState::default(), Some(Input::Row(2, click(KeyModifiers::none()))));
    let (state, actions) = frame(&view, state, Some(Input::Row(5, click(KeyModifiers::shift()))));
    assert_eq!(state.selected(), &[5]);
    assert_eq!(actions, vec![TreeAction::SelectionChanged(vec![5])]);
    let (state, actions) = frame(&view, state, Some(Input::Row(3, click(KeyModifiers::command()))));
    assert_eq!(state.selected(), &[3]);
    assert_eq!(actions, vec![TreeAction::SelectionChanged(vec![3])]);
}

#[test]
fn range_select_forward() {
    let view = TreeView::<u32>::new("tree").allow_multi_select(true);
    let (state, actions) =
        frame(&view, TreeState::default(), Some(Input::Row(2, click(KeyModifiers::none()))));
    assert_eq!(state.selected(), &[2]);
    assert_eq!(actions, vec![TreeAction::SelectionChanged(vec![2])]);

    let (state, actions) = frame(&view, state, Some(Input::Row(5, click(KeyModifiers::shift()))));
    assert_eq!(state.selected(), &[2, 3, 4, 5]);
    assert_eq!(actions, vec![TreeAction::SelectionChanged(vec![2, 3, 4, 5])]);
}

#[test]
fn range_is_order_independent() {
    let order = [1u32, 2, 3, 4, 5];
    assert_eq!(collect_range(&order, &2, &5), vec![2, 3, 4, 5]);
    assert_eq!(collect_range(&order, &5, &2), vec![2, 3, 4, 5]);
    assert_eq!(collect_range(&order, &3, &3), vec![3]);
    assert_eq!(collect_range(&order, &1, &5), vec![1, 2, 3, 4, 5]);

    let config = TreeConfig { allow_multi_select: true, ..TreeConfig::default() };
    assert_eq!(select_on_click(&config, KeyModifiers::shift(), &order, &[5], 2), vec![2, 3, 4, 5]);
    assert_eq!(select_on_click(&config, KeyModifiers::shift(), &order, &[2], 5), vec![2, 3, 4, 5]);
}

#[test]
fn range_with_absent_end_selects_the_clicked_node() {
    let order = [1u32, 2, 3];
    assert_eq!(collect_range(&order, &9, &2), vec![2]);
    assert_eq!(collect_range(&order, &2, &9), vec![9]);
    assert_eq!(collect_range(&[], &1, &2), vec![2]);
}

#[test]
fn range_counts_a_repeated_node_where_it_was_declared_first() {
    let order = [7u32, 8, 7, 9, 8];
    assert_eq!(collect_range(&order, &7, &8), vec![7, 8]);
    assert_eq!(collect_range(&order, &9, &7), vec![7, 8, 7, 9]);
    assert_eq!(position(&order, &8), Some(1));
    assert_eq!(position(&order, &5), None);
}

#[test]
fn range_in_a_frame_sees_the_nodes_declared_so_far() {
    let view = TreeView::<u32>::new("tree").allow_multi_select(true);
    let (state, _) = frame(&view, TreeState::default(), Some(Input::Row(5, click(KeyModifiers::none()))));
    assert_eq!(state.selected(), &[5]);
    // The pivot, node 5, is declared after node 2: when node 2 is clicked the
    // frame has not seen it yet.
    let (state, actions) = frame(&view, state, Some(Input::Row(2, click(KeyModifiers::shift()))));
    assert_eq!(state.selected(), &[2]);
    assert_eq!(actions, vec![TreeAction::SelectionChanged(vec![2])]);
}

#[test]
fn range_click_without_selection_selects_the_clicked_node() {
    let view = TreeView::<u32>::new("tree").allow_multi_select(true);
    let (state, actions) =
        frame(&view, TreeState::default(), Some(Input::Row(3, click(KeyModifiers::shift()))));
    assert_eq!(state.selected(), &[3]);
    assert_eq!(actions, vec![TreeAction::SelectionChanged(vec![3])]);
}

#[test]
fn range_click_with_stale_pivot_selects_the_clicked_node() {
    let view = TreeView::<u32>::new("tree").allow_multi_select(true);
    let mut state = TreeState::default();
    state.set_selected(vec![42]);
    let (state, actions) = frame(&view, state, Some(Input::Row(3, click(KeyModifiers::shift()))));
    assert_eq!(state.selected(), &[3]);
    assert_eq!(actions, vec![TreeAction::SelectionChanged(vec![3])]);
}

#[test]
fn toggle_select_round_trip() {
    let view = TreeView::<u32>::new("tree").allow_multi_select(true);
    let input = Some(Input::Row(2, click(KeyModifiers::command())));

    let (state, first) = frame(&view, TreeState::default(), input);
    assert_eq!(state.selected(), &[2]);
    assert_eq!(first, vec![TreeAction::SelectionChanged(vec![2])]);

    let (state, second) = frame(&view, state, input);
    assert_eq!(state.selected(), &[] as &[u32]);
    assert_eq!(second, vec![TreeAction::SelectionChanged(vec![])]);
}

#[test]
fn toggle_select_keeps_selection_order() {
    let view = TreeView::<u32>::new("tree").allow_multi_select(true);
    let mut state = TreeState::default();
    for id in [3u32, 5, 2] {
        state = frame(&view, state, Some(Input::Row(id, click(KeyModifiers::command())))).0;
    }
    assert_eq!(state.selected(), &[3, 5, 2]);
    assert!(state.is_selected(&5));
    assert!(!state.is_selected(&4));
    let (state, actions) = frame(&view, state, Some(Input::Row(5, click(KeyModifiers::command()))));
    assert_eq!(state.selected(), &[3, 2]);
    assert_eq!(actions, vec![TreeAction::SelectionChanged(vec![3, 2])]);
    assert_eq!(toggle_in(&[3, 2, 3], 3), vec![2, 3]);
    assert_eq!(toggle_in(&[3, 2], 4), vec![3, 2, 4]);
}

#[test]
fn plain_click_in_multi_select_replaces_the_selection() {
    let view = TreeView::<u32>::new("tree").allow_multi_select(true);
    let mut state = TreeState::default();
    state.set_selected(vec![2, 3, 4]);
    let (state, actions) = frame(&view, state, Some(Input::Row(3, click(KeyModifiers::none()))));
    assert_eq!(state.selected(), &[3]);
    assert_eq!(actions, vec![TreeAction::SelectionChanged(vec![3])]);
}

#[test]
fn custom_bindings_are_honoured() {
    let alt = KeyModifiers { alt: true, ..KeyModifiers::none() };
    let config = TreeConfig {
        allow_multi_select: true,
        range_select_modifier: alt,
        toggle_select_modifier: KeyModifiers::shift(),
        ..TreeConfig::default()
    };
    let view = TreeView::<u32>::new("tree").config(config);
    assert_eq!(view.settings(), config);
    let mut state = TreeState::default();
    state.set_selected(vec![2]);
    let (state, _) = frame(&view, state, Some(Input::Row(4, click(alt))));
    assert_eq!(state.selected(), &[2, 3, 4]);
    let (state, _) = frame(&view, state, Some(Input::Row(3, click(KeyModifiers::shift()))));
    assert_eq!(state.selected(), &[2, 4]);
    // Shift together with alt is neither binding.
    let both = KeyModifiers { alt: true, shift: true, ..KeyModifiers::none() };
    let (state, _) = frame(&view, state, Some(Input::Row(5, click(both))));
    assert_eq!(state.selected(), &[5]);
}

#[test]
fn modifiers_match_as_the_host_matches_them() {
    let none = KeyModifiers::none();
    let ctrl = KeyModifiers { ctrl: true, ..none };
    let shift = KeyModifiers::shift();
    let command = KeyModifiers::command();
    let mac_cmd = KeyModifiers { mac_cmd: true, ..none };
    let ctrl_shift = KeyModifiers { ctrl: true, shift: true, ..none };
    let ctrl_command = KeyModifiers { ctrl: true, command: true, ..none };
    let mac_command = KeyModifiers { mac_cmd: true, command: true, ..none };

    assert!(ctrl.matches_exact(ctrl));
    assert!(!ctrl.matches_exact(ctrl_shift));
    assert!(!ctrl_shift.matches_exact(ctrl));
    assert!(ctrl_command.matches_exact(ctrl));
    assert!(ctrl_command.matches_exact(command));
    assert!(mac_command.matches_exact(command));
    assert!(!command.matches_exact(mac_cmd));
    assert!(none.matches_exact(none));
    assert!(!shift.matches_exact(none));
    assert!(!none.matches_exact(shift));
    assert!(shift.matches_exact(shift));
    assert!(!ctrl.matches_exact(none));
    assert!(mac_cmd.matches_exact(none));
}

#[test]
fn expansion_stickiness() {
    let view = TreeView::<u32>::new("tree");
    let closed = NodeOptions::default();
    let idle = RowResponse::idle();

    let mut b = view.begin(TreeState::default());
    let shown = b.begin_dir(&1, &closed);
    assert!(!shown);
    b.dir(1, closed, shown, DirResponse { row: idle, open: true });
    let (state, actions) = b.finish();
    assert_eq!(state.expanded(), &set_of(&[1]));
    assert!(state.is_expanded(&1));
    assert!(state.is_interacted(&1));
    assert_eq!(actions, vec![TreeAction::Toggled { id: 1, expanded: true }]);

    let mut b = view.begin(state);
    let shown = b.begin_dir(&1, &closed);
    assert!(shown);
    b.dir(1, closed, shown, DirResponse { row: idle, open: false });
    let (state, actions) = b.finish();
    assert_eq!(state.expanded(), &set_of(&[]));
    assert!(state.is_interacted(&1));
    assert_eq!(actions, vec![TreeAction::Toggled { id: 1, expanded: false }]);

    let open_by_default = NodeOptions { default_open: true, ..NodeOptions::default() };
    let mut b = view.begin(state);
    assert!(!b.begin_dir(&1, &open_by_default));
    b.dir(1, open_by_default, false, DirResponse { row: idle, open: false });
    let (state, actions) = b.finish();
    assert_eq!(actions, vec![]);

    let view = view.default_expanded(true);
    let mut b = view.begin(state);
    assert!(!b.begin_dir(&1, &closed));
    assert!(b.begin_dir(&4, &closed));
}

#[test]
fn untouched_directories_follow_the_defaults() {
    let idle = RowResponse::idle();
    let closed = NodeOptions::default();
    let open = NodeOptions { default_open: true, ..NodeOptions::default() };

    let view = TreeView::<u32>::new("tree");
    let mut b = view.begin(TreeState::default());
    assert!(!b.begin_dir(&1, &closed));
    b.dir(1, closed, false, DirResponse { row: idle, open: false });
    assert!(b.begin_dir(&4, &open));
    b.dir(4, open, true, DirResponse { row: idle, open: true });
    let (state, actions) = b.finish();
    assert_eq!(actions, vec![]);
    assert!(!state.is_interacted(&1));
    assert!(!state.is_interacted(&4));
    assert!(!state.is_expanded(&4));

    let view = view.default_expanded(true);
    let mut b = view.begin(state);
    assert!(b.begin_dir(&1, &closed));
}

#[test]
fn sync_expanded_reconciliation() {
    let mut state: TreeState<&'static str> = TreeState::default();
    state.expand("A");
    state.expand("B");
    let desired: HashSet<&'static str> = ["B", "C"].into_iter().collect();
    state.sync_expanded(&desired);
    assert_eq!(state.expanded(), &desired);
    assert!(state.is_interacted(&"A"));
    assert!(state.is_interacted(&"C"));
    assert!(!state.is_expanded(&"A"));
    assert!(state.is_expanded(&"B"));
    assert!(state.is_expanded(&"C"));
    assert!(!state.is_interacted(&"D"));
}

#[test]
fn sync_expanded_keeps_selection_and_checkboxes() {
    let mut state: TreeState<u32> = TreeState::default();
    state.set_selected(vec![9]);
    state.set_checked(8, true);
    state.expand(1);
    state.expand(2);
    let desired = set_of(&[2, 3]);
    state.sync_expanded(&desired);
    assert_eq!(state.expanded(), &desired);
    assert!(state.is_interacted(&1));
    assert!(state.is_interacted(&3));
    assert_eq!(state.selected(), &[9]);
    assert_eq!(state.checked(), &set_of(&[8]));
}

#[test]
fn sync_expanded_leaves_kept_nodes_untouched() {
    // Nothing is open and nothing is wanted: nothing is touched.
    let mut state: TreeState<&'static str> = TreeState::default();
    state.sync_expanded(&HashSet::new());
    assert!(!state.is_interacted(&"A"));
    assert!(state.expanded().is_empty());

    // Opening through reconciliation touches what it opens, and a second
    // reconciliation with the same set changes nothing.
    let wanted: HashSet<&'static str> = ["A", "B"].into_iter().collect();
    state.sync_expanded(&wanted);
    assert!(state.is_interacted(&"A") && state.is_interacted(&"B"));
    state.sync_expanded(&wanted);
    assert_eq!(state.expanded(), &wanted);
    assert!(!state.is_interacted(&"C"));
}

#[test]
fn expand_and_collapse_mark_as_touched() {
    let mut state: TreeState<u32> = TreeState::default();
    assert!(!state.is_expanded(&1));
    assert!(!state.is_interacted(&1));
    state.collapse(&1);
    assert!(!state.is_expanded(&1));
    assert!(state.is_interacted(&1));
    state.expand(2);
    assert!(state.is_expanded(&2));
    assert!(state.is_interacted(&2));
    state.collapse(&2);
    assert!(!state.is_expanded(&2));
    assert!(state.is_interacted(&2));
}

#[test]
fn expand_path_opens_every_node() {
    let mut state: TreeState<u32> = TreeState::default();
    state.expand(7);
    state.expand_path(vec![1, 4, 1]);
    assert_eq!(state.expanded(), &set_of(&[1, 4, 7]));
    assert!(state.is_interacted(&1));
    assert!(state.is_interacted(&4));
    state.expand_path(vec![]);
    assert_eq!(state.expanded(), &set_of(&[1, 4, 7]));
}

#[test]
fn checkbox_toggle() {
    let view = TreeView::<u32>::new("tree");
    let set = RowResponse { checkbox_changed: Some(true), ..RowResponse::idle() };
    let (state, actions) = frame(&view, TreeState::default(), Some(Input::Row(3, set)));
    assert_eq!(state.checked(), &set_of(&[3]));
    assert!(state.is_checked(&3));
    assert_eq!(actions, vec![TreeAction::CheckedChanged { id: 3, checked: true }]);

    let clear = RowResponse { checkbox_changed: Some(false), ..RowResponse::idle() };
    let (state, actions) = frame(&view, state, Some(Input::Row(3, clear)));
    assert_eq!(state.checked(), &set_of(&[]));
    assert!(!state.is_checked(&3));
    assert_eq!(actions, vec![TreeAction::CheckedChanged { id: 3, checked: false }]);
}

#[test]
fn checkbox_change_is_read_only_on_checkbox_rows() {
    let view = TreeView::<u32>::new("tree");
    let set = RowResponse { checkbox_changed: Some(true), ..RowResponse::idle() };
    let (state, actions) = frame(&view, TreeState::default(), Some(Input::Row(2, set)));
    assert!(state.checked().is_empty());
    assert_eq!(actions, vec![]);
}

#[test]
fn directory_checkbox_is_reported_before_its_toggle_and_after_its_body() {
    let view = TreeView::<u32>::new("tree");
    let boxed = NodeOptions { checkbox: true, default_open: true, ..NodeOptions::default() };
    let mut b = view.begin(TreeState::default());
    let shown = b.begin_dir(&1, &boxed);
    assert!(shown);
    b.leaf(
        2,
        NodeOptions::default(),
        RowResponse { clicked: true, ..RowResponse::idle() },
    );
    let row = RowResponse {
        clicked: true,
        double_clicked: true,
        checkbox_changed: Some(true),
        ..RowResponse::idle()
    };
    b.dir(1, boxed, shown, DirResponse { row, open: false });
    let (state, actions) = b.finish();
    assert_eq!(
        actions,
        vec![
            TreeAction::SelectionChanged(vec![2]),
            TreeAction::CheckedChanged { id: 1, checked: true },
            TreeAction::Toggled { id: 1, expanded: false },
        ]
    );
    assert_eq!(state.selected(), &[2]);
    assert!(state.is_checked(&1));
    assert!(state.is_interacted(&1));
    assert!(!state.is_expanded(&1));
}

#[test]
fn double_click_activates_a_leaf_only() {
    let view = TreeView::<u32>::new("tree");
    let double = RowResponse { clicked: true, double_clicked: true, ..RowResponse::idle() };

    let (state, actions) = frame(&view, TreeState::default(), Some(Input::Row(5, double)));
    assert_eq!(actions, vec![TreeAction::Activated(5)]);
    assert_eq!(state.selected(), &[] as &[u32]);

    let (state, actions) = frame(&view, state, Some(Input::Row(4, double)));
    assert_eq!(actions, vec![]);
    assert_eq!(state.selected(), &[] as &[u32]);
}

#[test]
fn secondary_click_requests_a_context_menu() {
    let view = TreeView::<u32>::new("tree");
    let at = egui::pos2(12.0, 34.5);
    let row = RowResponse { secondary_clicked: Some(at), ..RowResponse::idle() };
    let (state, actions) = frame(&view, TreeState::default(), Some(Input::Row(2, row)));
    assert_eq!(actions, vec![TreeAction::ContextMenuRequested { id: 2, position: at }]);
    assert_eq!(state.selected(), &[] as &[u32]);

    let both = RowResponse { clicked: true, secondary_clicked: Some(at), ..RowResponse::idle() };
    let (state, actions) = frame(&view, state, Some(Input::Row(4, both)));
    assert_eq!(
        actions,
        vec![
            TreeAction::SelectionChanged(vec![4]),
            TreeAction::ContextMenuRequested { id: 4, position: at },
        ]
    );
    assert_eq!(state.selected(), &[4]);
}

#[test]
fn handle_row_response_by_kind() {
    let view = TreeView::<u32>::new("tree");
    let double = RowResponse { double_clicked: true, ..RowResponse::idle() };
    let mut b = view.begin(TreeState::default());
    b.handle_row_response(1, double, RowKind::Dir);
    b.handle_row_response(2, double, RowKind::Leaf);
    b.handle_click(3, KeyModifiers::none());
    b.apply_checkbox(&4, Some(true));
    b.apply_checkbox(&5, None);
    let (state, actions) = b.finish();
    assert_eq!(
        actions,
        vec![
            TreeAction::Activated(2),
            TreeAction::SelectionChanged(vec![3]),
            TreeAction::CheckedChanged { id: 4, checked: true },
        ]
    );
    assert_eq!(state.selected(), &[3]);
    assert_eq!(state.checked(), &set_of(&[4]));
}

#[test]
fn builder_collects_the_frame_order() {
    let view = TreeView::<u32>::new("tree");
    let mut b = view.begin(TreeState::default());
    let opts = NodeOptions::default();
    b.begin_dir(&1, &opts);
    b.leaf(2, opts, RowResponse::idle());
    b.leaf(3, opts, RowResponse::idle());
    assert_eq!(b.collect_range(&3, &1), vec![1, 2, 3]);
    assert_eq!(b.collect_range(&2, &5), vec![5]);
    b.leaf(5, opts, RowResponse::idle());
    assert_eq!(b.collect_range(&5, &2), vec![2, 3, 5]);
}

#[test]
fn stale_identities_are_kept() {
    let view = TreeView::<u32>::new("tree");
    let mut state = TreeState::default();
    state.set_selected(vec![100, 2]);
    state.expand(200);
    state.set_checked(300, true);
    let (state, actions) = frame(&view, state, None);
    assert_eq!(actions, vec![]);
    assert_eq!(state.selected(), &[100, 2]);
    assert!(state.is_selected(&100));
    assert!(state.is_expanded(&200));
    assert!(state.is_checked(&300));
}

#[test]
fn state_clone_is_equal() {
    let mut state: TreeState<u32> = TreeState::default();
    state.set_selected(vec![4, 2]);
    state.expand(1);
    state.set_checked(3, true);
    state.collapse(&7);
    let copy = state.clone();
    assert_eq!(copy.selected(), state.selected());
    assert_eq!(copy.expanded(), state.expanded());
    assert_eq!(copy.checked(), state.checked());
    assert!(copy.is_interacted(&1) && copy.is_interacted(&7));
    assert!(!copy.is_interacted(&3));
}

#[test]
fn lists_compare_by_value() {
    assert!(same_list::<u32>(&[], &[]));
    assert!(same_list(&[1u32, 2], &[1, 2]));
    assert!(!same_list(&[1u32, 2], &[2, 1]));
    assert!(!same_list(&[1u32, 2], &[1]));
}

#[test]
fn view_settings() {
    let view = TreeView::<u32>::new("tree");
    assert_eq!(view.settings(), TreeConfig::default());
    assert_eq!(view.id(), egui::Id::new("tree"));
    assert_ne!(view.id(), TreeView::<u32>::new("other").id());
    let config = TreeConfig::default();
    assert!(!config.allow_multi_select);
    assert!(!config.click_to_toggle);
    assert!(config.show_indent_guides);
    assert!(!config.default_expanded);
    assert_eq!(config.range_select_modifier, KeyModifiers::shift());
    assert_eq!(config.toggle_select_modifier, KeyModifiers::command());

    let view = view
        .allow_multi_select(true)
        .click_to_toggle(true)
        .show_indent_guides(false)
        .default_expanded(true);
    let config = view.settings();
    assert!(config.allow_multi_select);
    assert!(config.click_to_toggle);
    assert!(!config.show_indent_guides);
    assert!(config.default_expanded);
    assert_eq!(view.id(), egui::Id::new("tree"));
    assert!(!view.indent_guides_while_shown(true));
    assert!(!view.indent_guides_while_shown(false));
    let view = view.show_indent_guides(true);
    assert!(view.indent_guides_while_shown(true));
    assert!(!view.indent_guides_while_shown(false));
}

#[test]
fn row_identity_for_the_host() {
    let view = TreeView::<u32>::new("tree");
    let b = view.begin(TreeState::default());
    let given = egui::Id::new("given");
    let with_override = NodeOptions { ui_id: Some(given), ..NodeOptions::default() };
    assert_eq!(b.row_ui_id(&1, &with_override), given);
    let derived = b.row_ui_id(&1, &NodeOptions::default());
    assert_eq!(derived, egui::Id::new("tree").with(("tree_node", &1u32)));
    assert_ne!(derived, b.row_ui_id(&2, &NodeOptions::default()));
}
