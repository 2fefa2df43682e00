//! The boundary to egui: the host types that rows and actions carry through
//! unchanged, and the calls into egui whose behaviour is taken on trust.

use vstd::prelude::*;
use super::types::KeyModifiers;

verus! {

/// egui's screen position. Opaque here: a context-menu request carries the
/// pointer position from the row response to the caller untouched.
#[verifier::external_type_specification]
#[verifier::external_body]
pub struct ExPos2(egui::Pos2);

/// egui's widget identity. Opaque here: it only names the tree and its rows
/// towards the host.
#[verifier::external_type_specification]
#[verifier::external_body]
pub struct ExId(egui::Id);

/// egui's 32-bit colour. Opaque here: a row's background override is handed
/// to the renderer untouched.
#[verifier::external_type_specification]
#[verifier::external_body]
pub struct ExColor32(egui::Color32);

/// Calls `egui::Modifiers::matches_exact` on the pressed keys, with `pattern`
/// as the binding looked for. The contract restates that method: alt and
/// shift must be equal; a pattern with the mac command key asks for that key
/// and an equal ctrl; a pattern with neither ctrl nor command asks that
/// neither is pressed; otherwise every one of ctrl and command that the
/// pattern holds must be pressed.
#[verifier::external_body]
pub(crate) fn pressed_matches_exact(pressed: KeyModifiers, pattern: KeyModifiers) -> (r: bool)
    ensures
        r == pressed.spec_matches_exact(pattern),
{
    let KeyModifiers { alt, ctrl, shift, mac_cmd, command } = pressed;
    let pressed = egui::Modifiers { alt, ctrl, shift, mac_cmd, command };
    let KeyModifiers { alt, ctrl, shift, mac_cmd, command } = pattern;
    pressed.matches_exact(egui::Modifiers { alt, ctrl, shift, mac_cmd, command })
}

/// Calls `egui::Id::new`, which hashes `source` into a widget identity.
/// Nothing is claimed of the identity that comes back.
#[verifier::external_body]
pub(crate) fn root_id<H: std::hash::Hash>(source: H) -> egui::Id {
    egui::Id::new(source)
}

/// Calls `egui::Id::with`, which hashes `parent` together with `child` into
/// the identity of a row below `parent`. Nothing is claimed of the identity
/// that comes back.
#[verifier::external_body]
pub(crate) fn child_id<H: std::hash::Hash>(parent: egui::Id, child: H) -> egui::Id {
    parent.with(child)
}

} // verus!
