//! What the surrounding program tells the session, and what the session asks
//! of it in return.
use crate::error::SessionError;
use std::path::PathBuf;
use vstd::prelude::*;

verus! {

/// Something that happened outside the session.
#[derive(Debug, PartialEq, Eq)]
pub enum Event {
    /// A frame is about to be drawn.
    Frame,
    /// The user pressed New.
    NewPressed,
    /// The user pressed Open.
    OpenPressed,
    /// The dialog for a file to open was closed, with a path or without.
    OpenChosen(Option<PathBuf>),
    /// The whole file at `path` was read as text.
    FileRead { path: PathBuf, contents: String },
    /// The file to open could not be read.
    ReadFailed,
    /// The user pressed Save.
    SavePressed,
    /// The dialog for a place to save to was closed, with a path or without.
    SaveChosen(Option<PathBuf>),
    /// The text was written out in full.
    FileWritten,
    /// The text could not be written out.
    WriteFailed,
    /// The user changed the text, which now reads as given.
    TextEdited(String),
}

/// The mathematical content of an [`Event`].
pub enum EventView {
    Frame,
    NewPressed,
    OpenPressed,
    OpenChosen(Option<PathBuf>),
    FileRead { path: PathBuf, contents: Seq<char> },
    ReadFailed,
    SavePressed,
    SaveChosen(Option<PathBuf>),
    FileWritten,
    WriteFailed,
    TextEdited(Seq<char>),
}

impl View for Event {
    type V = EventView;

    open spec fn view(&self) -> EventView {
        match self {
            Event::Frame => EventView::Frame,
            Event::NewPressed => EventView::NewPressed,
            Event::OpenPressed => EventView::OpenPressed,
            Event::OpenChosen(choice) => EventView::OpenChosen(*choice),
            Event::FileRead { path, contents } => EventView::FileRead {
                path: *path,
                contents: contents@,
            },
            Event::ReadFailed => EventView::ReadFailed,
            Event::SavePressed => EventView::SavePressed,
            Event::SaveChosen(choice) => EventView::SaveChosen(*choice),
            Event::FileWritten => EventView::FileWritten,
            Event::WriteFailed => EventView::WriteFailed,
            Event::TextEdited(text) => EventView::TextEdited(text@),
        }
    }
}

/// The one thing the surrounding program is to do next.
#[derive(Debug, PartialEq, Eq)]
pub enum Action {
    /// Nothing: go on drawing frames.
    Idle,
    /// Ask the user for an existing file, and report `OpenChosen`.
    ChooseFileToOpen,
    /// Read the whole file as text, and report `FileRead` or `ReadFailed`.
    ReadFile(PathBuf),
    /// Ask the user where to save, and report `SaveChosen`.
    ChooseSavePath,
    /// Replace the contents of the file at `path` by `text`, and report
    /// `FileWritten` or `WriteFailed`.
    WriteFile { path: PathBuf, text: String },
    /// Give up with this error.
    Abort(SessionError),
}

/// The mathematical content of an [`Action`].
pub enum ActionView {
    Idle,
    ChooseFileToOpen,
    ReadFile(PathBuf),
    ChooseSavePath,
    WriteFile { path: PathBuf, text: Seq<char> },
    Abort(SessionError),
}

impl View for Action {
    type V = ActionView;

    open spec fn view(&self) -> ActionView {
        match self {
            Action::Idle => ActionView::Idle,
            Action::ChooseFileToOpen => ActionView::ChooseFileToOpen,
            Action::ReadFile(path) => ActionView::ReadFile(*path),
            Action::ChooseSavePath => ActionView::ChooseSavePath,
            Action::WriteFile { path, text } => ActionView::WriteFile { path: *path, text: text@ },
            Action::Abort(error) => ActionView::Abort(*error),
        }
    }
}

} // verus!
