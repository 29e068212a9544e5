//! The core of a split-process text editor's backend: the session that owns
//! every open document and view, handles the frontend's commands one at a
//! time, and says which notifications and file writes each one asks for.

pub mod buffer;
pub mod keymap;
pub mod laws;
pub mod proto;
pub mod session;
