//! The display and shortcut logic of the Qingjian input method shells: candidate rows of the
//! candidate windows, the statistics page texts, the `[shortcut]` configuration and the
//! "modifier + digit" delete shortcut.
use vstd::prelude::*;

pub mod candidate;
pub mod macos_row;
pub mod router;
pub mod shortcut;
pub mod text;
pub mod usage;
pub mod windows_row;

verus! {
} // verus!
