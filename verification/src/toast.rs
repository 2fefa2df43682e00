//! Levels of toast notifications.

use vstd::prelude::*;

verus! {

/// How serious a toast notification is.
#[derive(Clone, Copy, Debug, PartialEq, Eq, Structural)]
pub enum ToastLevel {
    /// Something to know.
    Info,
    /// Something went well.
    Success,
    /// Something needs attention.
    Warning,
    /// Something went wrong.
    Error,
}

} // verus!
