//! Document-session core of a single-document text editor: the buffer, its
//! file binding, the modified and untitled flags, zoom, and the close gate.
//! File access and rendering happen outside this crate; the session takes
//! their outcomes as plain values.

pub mod laws;
pub mod launch;
pub mod panels;
pub mod session;
pub mod zoom;
