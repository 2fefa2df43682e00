//! Verified logic for a kit of egui widgets.
//!
//! The heart of the crate is [`tree`], the interaction engine of a tree
//! widget: the state that a tree keeps across frames (selection, open
//! directories, checkboxes) and the rules by which one frame's clicks change
//! it. The engine never draws. The host renders each row, gathers what
//! happened to it, and hands that over as plain values; the engine answers
//! with the new state and the list of actions for the caller.
//!
//! The other modules hold the small pieces of logic that the kit's other
//! widgets share: wording of elapsed time, the bounded log cache, font
//! presets by language, timeouts, and the names of themes.
//!
//! Every function states what it returns or changes, over mathematical
//! models of the data (`Seq`, `Set` and the view `@` of each type), and is
//! proved against that statement. The few calls into egui that the proofs
//! rest on are gathered in [`tree::host`].

pub mod datetime;
pub mod font;
pub mod icon;
pub mod logger;
pub mod promise;
pub mod theme;
pub mod toast;
pub mod tree;
