//! Native file-dialog plumbing: the configuration, result extraction and
//! focus-restoration rules of open/save panels, stated and proved over plain
//! values. The platform object model is driven from outside this library.
pub mod application;
pub mod dialog;
pub mod focus;
pub mod panel;
pub mod window;
