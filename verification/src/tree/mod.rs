//! The tree-interaction engine: persistent per-tree state plus the rules that
//! turn one frame's row responses into state changes and actions.

pub mod host;
pub mod types;
pub mod state;
pub mod selection;
pub mod builder;
pub mod view;
pub mod laws;

pub use builder::{DirResponse, RowKind, RowResponse, TreeBuilder};
pub use state::TreeState;
pub use view::TreeView;
pub use types::{KeyModifiers, NodeOptions, TreeAction, TreeConfig, TreeNodeId};
