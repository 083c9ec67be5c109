//! State machines behind the media widgets of a chat client's front end.
//!
//! Each widget of the toolkit keeps a small model from this crate and asks it
//! what to do on every event: which mode to switch to, what to redraw, which
//! application action to emit. The toolkit plumbing (hit testing, textures,
//! layout) stays with the widgets themselves.
pub mod image_viewer;
pub mod shared;
