//! Widgets shared by several screens of the client.
pub mod auto_fit_image;
pub mod image_viewer;
pub mod text_or_image;
