//! Restoring focus to the window that held it before a dialog opened.
use vstd::prelude::*;
use crate::window::WindowRef;

verus! {

/// Captures the key window at construction and hands it back, once, on disposal.
pub struct FocusManager {
    key_window: Option<WindowRef>,
    disposed: bool,
}

impl FocusManager {
    pub closed spec fn captured(&self) -> Option<WindowRef> {
        self.key_window
    }

    pub closed spec fn is_disposed(&self) -> bool {
        self.disposed
    }

    /// The window that a disposal of `m` brings to front, if any.
    pub open spec fn restore_action(m: FocusManager) -> Option<WindowRef> {
        if m.is_disposed() {
            None
        } else {
            m.captured()
        }
    }

    /// Records `key_window`, the window that the application reports as key now.
    pub fn new(key_window: Option<WindowRef>) -> (r: FocusManager)
        ensures
            r.captured() == key_window,
            !r.is_disposed(),
    {
        FocusManager { key_window, disposed: false }
    }

    /// Ends the manager's scope; returns the window to bring to front, if any.
    /// Only the first disposal restores anything.
    pub fn dispose(&mut self) -> (r: Option<WindowRef>)
        ensures
            r == Self::restore_action(*old(self)),
            final(self).is_disposed(),
            final(self).captured() == old(self).captured(),
    {
        let r = if self.disposed {
            None
        } else {
            self.key_window
        };
        self.disposed = true;
        r
    }
}

/// Disposing a manager that captured no window restores nothing, and a
/// second disposal of any manager restores nothing either.
pub proof fn lemma_dispose_without_focus(m: FocusManager)
    ensures
        m.captured().is_none() ==> FocusManager::restore_action(m).is_none(),
        m.is_disposed() ==> FocusManager::restore_action(m).is_none(),
{
}

} // verus!
