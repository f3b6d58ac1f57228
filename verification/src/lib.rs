//! The editing session of a single-document text editor.
//!
//! A [`session::Session`] holds at most one [`document::Document`] and is
//! driven by events: the surrounding program renders the window, shows the
//! file dialogs and touches the disk, and reports what happened; the session
//! answers with its next state and with the one thing to do next.
pub mod document;
pub mod error;
pub mod event;
pub mod path;
pub mod session;
pub mod theorems;

