use vstd::prelude::*;

use crate::command::AppCommand;

verus! {

/// A command inside a front end: an application command, or an action that
/// only the user interface carries out.
#[derive(Debug, Clone, Copy, PartialEq, Eq, Structural)]
pub enum UiCommand {
    /// A command for the controller.
    Core(AppCommand),
    /// Open the countdown dialog.
    OpenSetCountdownDialog,
    /// Open the opacity dialog.
    OpenSetOpacityDialog,
}

} // verus!
