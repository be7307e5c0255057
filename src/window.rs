//! Native windows as plain references, and resolution of a platform handle.
use vstd::prelude::*;

verus! {

/// A reference to a native window: the address of its OS object.
#[derive(Debug, Clone, Copy, PartialEq, Eq, Structural)]
pub struct WindowRef {
    pub id: u64,
}

/// A platform window handle, as handed in by a windowing library.
#[derive(Debug, Clone, Copy, PartialEq, Eq, Structural)]
pub enum WindowHandle {
    /// A UIKit view: the address of its `UIView`.
    UiKit { ui_view: u64 },
    /// An AppKit window and view.
    AppKit { ns_window: u64, ns_view: u64 },
    /// Any other platform.
    Other,
}

/// The handle is not one that a UIKit window can be resolved from.
#[derive(Debug, Clone, Copy, PartialEq, Eq, Structural)]
pub enum HandleError {
    UnsupportedHandle,
}

impl WindowRef {
    /// Resolves the window behind a UIKit handle; any other kind is refused.
    pub fn from_raw_window_handle(h: &WindowHandle) -> (r: Result<WindowRef, HandleError>)
        ensures
            match *h {
                WindowHandle::UiKit { ui_view } => r == Ok::<WindowRef, HandleError>(
                    WindowRef { id: ui_view },
                ),
                _ => r == Err::<WindowRef, HandleError>(HandleError::UnsupportedHandle),
            },
    {
        match h {
            WindowHandle::UiKit { ui_view } => Ok(WindowRef { id: *ui_view }),
            _ => Err(HandleError::UnsupportedHandle),
        }
    }
}

} // verus!
