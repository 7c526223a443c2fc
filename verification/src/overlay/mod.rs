//! The break overlay: its web view protocol and the arithmetic of the screen
//! capture and blur buffers.

pub mod blur;
pub mod capture;
pub mod webview;
