//! Controls of the settings dialog.

use vstd::prelude::*;

verus! {

/// A setting with a control of its own.
#[derive(Clone, Copy, Debug, PartialEq, Eq, Structural)]
pub enum SettingsField {
    /// Whether the vault locks itself.
    AutoLockEnabled,
    /// Seconds until the vault locks itself.
    AutoLockSeconds,
    /// Whether the clipboard is cleared.
    ClipboardClearEnabled,
    /// Seconds until the clipboard is cleared.
    ClipboardClearSeconds,
}

} // verus!
