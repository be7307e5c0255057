//! A snapshot of the application's windows, and which one counts as "the" window.
use vstd::prelude::*;
use crate::window::WindowRef;

verus! {

/// What the OS reported of the shared application at one moment.
pub struct UIApplication {
    pub key_window: Option<WindowRef>,
    pub main_window: Option<WindowRef>,
    pub windows: Vec<WindowRef>,
}

/// The window of the application: main, else key, else the first listed, else none.
pub open spec fn resolve_window(
    main: Option<WindowRef>,
    key: Option<WindowRef>,
    windows: Seq<WindowRef>,
) -> Option<WindowRef> {
    if main.is_some() {
        main
    } else if key.is_some() {
        key
    } else if windows.len() > 0 {
        Some(windows[0])
    } else {
        None
    }
}

impl UIApplication {
    pub fn new(
        key_window: Option<WindowRef>,
        main_window: Option<WindowRef>,
        windows: Vec<WindowRef>,
    ) -> (r: UIApplication)
        ensures
            r.key_window == key_window,
            r.main_window == main_window,
            r.windows@ == windows@,
    {
        UIApplication { key_window, main_window, windows }
    }

    pub fn key_window(&self) -> (r: Option<WindowRef>)
        ensures
            r == self.key_window,
    {
        self.key_window
    }

    pub fn main_window(&self) -> (r: Option<WindowRef>)
        ensures
            r == self.main_window,
    {
        self.main_window
    }

    pub fn windows(&self) -> (r: &Vec<WindowRef>)
        ensures
            r@ == self.windows@,
    {
        &self.windows
    }

    /// The window to attach a dialog to.
    pub fn get_window(&self) -> (r: Option<WindowRef>)
        ensures
            r == resolve_window(self.main_window, self.key_window, self.windows@),
    {
        if let Some(w) = self.main_window {
            Some(w)
        } else if let Some(w) = self.key_window {
            Some(w)
        } else if self.windows.len() > 0 {
            Some(self.windows[0])
        } else {
            None
        }
    }
}

} // verus!
