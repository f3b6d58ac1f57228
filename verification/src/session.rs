//! The session: no document, or one document, and the transitions between.
//!
//! Every transition is stated twice: as a `spec` function on the session's
//! view, an `Option<DocumentView>` that is `None` while no document is
//! loaded, and as a method whose contract says that it computes exactly that.
use crate::document::{Document, DocumentView};
use crate::error::SessionError;
use crate::event::{Action, ActionView, Event, EventView};
use crate::path::{file_name, file_name_text};
use std::path::PathBuf;
use vstd::prelude::*;
use vstd::string::StringExecFns;

verus! {

/// What a session holds.
#[derive(Debug, PartialEq, Eq)]
pub enum Status {
    /// No document is loaded.
    Empty,
    /// A document is loaded; whether it is modified is a flag of the document.
    Open(Document),
}

impl View for Status {
    type V = Option<DocumentView>;

    open spec fn view(&self) -> Option<DocumentView> {
        match self {
            Status::Empty => None,
            Status::Open(document) => Some(document@),
        }
    }
}

/// The editor's state: there is one for the life of the program.
#[derive(Debug, PartialEq, Eq)]
pub struct Session {
    status: Status,
}

impl View for Session {
    type V = Option<DocumentView>;

    closed spec fn view(&self) -> Option<DocumentView> {
        self.status@
    }
}

/// Whether New may replace what the session holds: always when it is empty,
/// and otherwise only when the document is not marked as modified.
pub open spec fn may_discard(session: Option<DocumentView>) -> bool {
    match session {
        None => true,
        Some(document) => !document.is_modified,
    }
}

/// The session after New.
pub open spec fn after_new(session: Option<DocumentView>) -> Option<DocumentView> {
    if may_discard(session) {
        Some(DocumentView::fresh())
    } else {
        session
    }
}

/// The session with the modified flag of its document, if any, computed anew.
pub open spec fn after_refresh(session: Option<DocumentView>) -> Option<DocumentView> {
    match session {
        None => None,
        Some(document) => Some(document.refreshed()),
    }
}

/// The session after the user has changed the text to `text`.
pub open spec fn after_edit(session: Option<DocumentView>, text: Seq<char>) -> Option<
    DocumentView,
> {
    match session {
        None => None,
        Some(document) => Some(document.edited(text)),
    }
}

/// The session after `contents` has been read from `path`, where `title` is
/// the final component of the path, if it has one.
pub open spec fn after_open_titled(
    session: Option<DocumentView>,
    path: PathBuf,
    title: Option<Seq<char>>,
    contents: Seq<char>,
) -> Option<DocumentView> {
    match title {
        None => session,
        Some(name) => Some(DocumentView::opened(path, name, contents)),
    }
}

/// The session after `contents` has been read from `path`.
pub open spec fn after_open(
    session: Option<DocumentView>,
    path: PathBuf,
    contents: Seq<char>,
) -> Option<DocumentView> {
    after_open_titled(session, path, file_name_text(path), contents)
}

/// The answer to Save: nothing without a document, a write to the backing
/// path where there is one, and otherwise a question to the user.
pub open spec fn save_request(session: Option<DocumentView>) -> ActionView {
    match session {
        None => ActionView::Idle,
        Some(document) => match document.backing_path {
            Some(path) => ActionView::WriteFile { path, text: document.current_text },
            None => ActionView::ChooseSavePath,
        },
    }
}

/// The session after the user has chosen `path` to save to, and the answer to
/// that choice, where `title` is the final component of the path, if it has
/// one.
pub open spec fn after_save_to_titled(
    session: Option<DocumentView>,
    path: PathBuf,
    title: Option<Seq<char>>,
) -> (Option<DocumentView>, ActionView) {
    match session {
        None => (None, ActionView::Idle),
        Some(document) => match title {
            None => (session, ActionView::Abort(SessionError::InvalidPath)),
            Some(name) => (
                Some(document.bound_to(path, name)),
                ActionView::WriteFile { path, text: document.current_text },
            ),
        },
    }
}

/// The session after the user has chosen `path` to save to, and the answer to
/// that choice.
pub open spec fn after_save_to(session: Option<DocumentView>, path: PathBuf) -> (
    Option<DocumentView>,
    ActionView,
) {
    after_save_to_titled(session, path, file_name_text(path))
}

/// The session after the text of its document has been written out.
pub open spec fn after_written(session: Option<DocumentView>) -> Option<DocumentView> {
    match session {
        None => None,
        Some(document) => Some(document.saved()),
    }
}

/// The title bar: the product name, then, with a document, the marker and the
/// document's title.
pub open spec fn heading_text(session: Option<DocumentView>) -> Seq<char> {
    match session {
        None => "MTextEditor "@,
        Some(document) => "MTextEditor "@ + document.marker() + document.display_name,
    }
}

/// The answer to the choice of a file to open.
pub open spec fn open_request(choice: Option<PathBuf>) -> ActionView {
    match choice {
        None => ActionView::Idle,
        Some(path) => if file_name_text(path) is Some {
            ActionView::ReadFile(path)
        } else {
            ActionView::Abort(SessionError::InvalidPath)
        },
    }
}

/// The whole machine: the session after `event`, and what is to be done next.
pub open spec fn step_model(session: Option<DocumentView>, event: EventView) -> (
    Option<DocumentView>,
    ActionView,
) {
    match event {
        EventView::Frame => (after_refresh(session), ActionView::Idle),
        EventView::NewPressed => (after_new(session), ActionView::Idle),
        EventView::OpenPressed => (session, ActionView::ChooseFileToOpen),
        EventView::OpenChosen(choice) => (session, open_request(choice)),
        EventView::FileRead { path, contents } => (
            after_open(session, path, contents),
            if file_name_text(path) is Some {
                ActionView::Idle
            } else {
                ActionView::Abort(SessionError::InvalidPath)
            },
        ),
        EventView::ReadFailed => (session, ActionView::Abort(SessionError::Io)),
        EventView::SavePressed => (session, save_request(session)),
        EventView::SaveChosen(None) => (session, ActionView::Idle),
        EventView::SaveChosen(Some(path)) => after_save_to(session, path),
        EventView::FileWritten => (after_written(session), ActionView::Idle),
        EventView::WriteFailed => (session, ActionView::Abort(SessionError::Io)),
        EventView::TextEdited(text) => (after_edit(session, text), ActionView::Idle),
    }
}

impl Session {
    /// A session with no document.
    pub fn new() -> (session: Session)
        ensures
            session@ is None,
    {
        Session { status: Status::Empty }
    }

    /// What the session holds.
    pub fn status(&self) -> (status: &Status)
        ensures
            status@ == self@,
    {
        &self.status
    }

    /// The document, while one is loaded.
    pub fn document(&self) -> (document: Option<&Document>)
        ensures
            (document is Some) == (self@ is Some),
            document is Some ==> document->0@ == self@->0,
    {
        match &self.status {
            Status::Empty => None,
            Status::Open(document) => Some(document),
        }
    }

    /// Computes the modified flag of the document anew, as every frame does
    /// before anything is shown.
    pub fn refresh(&mut self)
        ensures
            final(self)@ == after_refresh(old(self)@),
    {
        match &mut self.status {
            Status::Empty => {},
            Status::Open(document) => {
                document.refresh();
            },
        }
    }

    /// The text of the title bar.
    pub fn heading(&self) -> (text: String)
        ensures
            text@ == heading_text(self@),
    {
        let mut text = String::from_str("MTextEditor ");
        match &self.status {
            Status::Empty => {},
            Status::Open(document) => {
                text.append(document.marker());
                text.append(document.display_name().as_str());
            },
        }
        text
    }

    /// New: replaces what the session holds by a new, empty document, unless
    /// that would discard a document marked as modified. Returns whether the
    /// replacement took place.
    pub fn new_document(&mut self) -> (replaced: bool)
        ensures
            replaced == may_discard(old(self)@),
            final(self)@ == after_new(old(self)@),
    {
        let allowed = match &self.status {
            Status::Empty => true,
            Status::Open(document) => !document.is_modified(),
        };
        if allowed {
            self.status = Status::Open(Document::new());
        }
        allowed
    }

    /// Open, with the title already known: replaces what the session holds by
    /// the document read from `path`, whose whole text is `contents`. Without
    /// a title the path is refused and the session stays as it was.
    pub fn open_titled(&mut self, path: PathBuf, title: Option<String>, contents: String) -> (outcome:
        Result<(), SessionError>)
        ensures
            final(self)@ == after_open_titled(old(self)@, path, title.deep_view(), contents@),
            title is Some ==> outcome == Ok::<(), SessionError>(()),
            title is None ==> outcome == Err::<(), SessionError>(SessionError::InvalidPath),
    {
        match title {
            Some(display_name) => {
                self.status = Status::Open(Document::opened(path, display_name, contents));
                Ok(())
            },
            None => Err(SessionError::InvalidPath),
        }
    }

    /// Open: replaces what the session holds by the document read from
    /// `path`, titled with the path's final component. A path without one is
    /// refused and the session stays as it was.
    pub fn open(&mut self, path: PathBuf, contents: String) -> (outcome: Result<(), SessionError>)
        ensures
            final(self)@ == after_open(old(self)@, path, contents@),
            file_name_text(path) is Some ==> outcome == Ok::<(), SessionError>(()),
            file_name_text(path) is None ==> outcome == Err::<(), SessionError>(
                SessionError::InvalidPath,
            ),
    {
        let title = file_name(&path);
        self.open_titled(path, title, contents)
    }

    /// Edit: replaces the text of the document by `text`. Without a document
    /// there is no text to edit and nothing happens.
    pub fn edit(&mut self, text: String)
        ensures
            final(self)@ == after_edit(old(self)@, text@),
    {
        match &mut self.status {
            Status::Empty => {},
            Status::Open(document) => {
                document.edit(text);
            },
        }
    }

    /// Whether Save is available: exactly when a document is loaded.
    pub fn can_save(&self) -> (available: bool)
        ensures
            available == self@ is Some,
    {
        match &self.status {
            Status::Empty => false,
            Status::Open(_) => true,
        }
    }

    /// Save: says what has to happen for the document to be saved. The
    /// session itself does not change before the text has been written.
    pub fn request_save(&self) -> (action: Action)
        ensures
            action@ == save_request(self@),
    {
        match &self.status {
            Status::Empty => Action::Idle,
            Status::Open(document) => match document.backing_path() {
                Some(path) => Action::WriteFile {
                    path: path.clone(),
                    text: document.text().clone(),
                },
                None => Action::ChooseSavePath,
            },
        }
    }

    /// Save to a place the user chose, with the title already known: the
    /// document is stored at `path` from now on and takes the title, and its
    /// text is to be written there. Without a title the path is refused and
    /// the session stays as it was.
    pub fn save_to_titled(&mut self, path: PathBuf, title: Option<String>) -> (action: Action)
        ensures
            (final(self)@, action@) == after_save_to_titled(old(self)@, path, title.deep_view()),
    {
        match &mut self.status {
            Status::Empty => Action::Idle,
            Status::Open(document) => match title {
                None => Action::Abort(SessionError::InvalidPath),
                Some(display_name) => {
                    let text = document.text().clone();
                    document.bind(path.clone(), display_name);
                    Action::WriteFile { path, text }
                },
            },
        }
    }

    /// Save to a place the user chose: the document is stored at `path` from
    /// now on, wherever it was stored before, is titled with the path's final
    /// component, and its text is to be written there. A path without a final
    /// component is refused and the session stays as it was. Without a
    /// document there is nothing to save and nothing happens.
    pub fn save_to(&mut self, path: PathBuf) -> (action: Action)
        ensures
            (final(self)@, action@) == after_save_to(old(self)@, path),
    {
        let title = file_name(&path);
        self.save_to_titled(path, title)
    }

    /// Records that the text of the document has been written out: the
    /// snapshot becomes the text, and the modified flag is cleared.
    pub fn mark_saved(&mut self)
        ensures
            final(self)@ == after_written(old(self)@),
    {
        match &mut self.status {
            Status::Empty => {},
            Status::Open(document) => {
                document.mark_saved();
            },
        }
    }

    /// Takes one event and answers with the one thing to do next.
    pub fn step(&mut self, event: Event) -> (action: Action)
        ensures
            (final(self)@, action@) == step_model(old(self)@, event@),
    {
        match event {
            Event::Frame => {
                self.refresh();
                Action::Idle
            },
            Event::NewPressed => {
                self.new_document();
                Action::Idle
            },
            Event::OpenPressed => Action::ChooseFileToOpen,
            Event::OpenChosen(None) => Action::Idle,
            Event::OpenChosen(Some(path)) => match file_name(&path) {
                Some(_) => Action::ReadFile(path),
                None => Action::Abort(SessionError::InvalidPath),
            },
            Event::FileRead { path, contents } => match self.open(path, contents) {
                Ok(()) => Action::Idle,
                Err(error) => Action::Abort(error),
            },
            Event::ReadFailed => Action::Abort(SessionError::Io),
            Event::SavePressed => self.request_save(),
            Event::SaveChosen(None) => Action::Idle,
            Event::SaveChosen(Some(path)) => self.save_to(path),
            Event::FileWritten => {
                self.mark_saved();
                Action::Idle
            },
            Event::WriteFailed => Action::Abort(SessionError::Io),
            Event::TextEdited(text) => {
                self.edit(text);
                Action::Idle
            },
        }
    }
}

impl Clone for Status {
    /// A copy with the same content.
    fn clone(&self) -> (copy: Status)
        ensures
            copy@ == self@,
    {
        match self {
            Status::Empty => Status::Empty,
            Status::Open(document) => Status::Open(document.clone()),
        }
    }
}

impl Clone for Session {
    /// A copy with the same content.
    fn clone(&self) -> (copy: Session)
        ensures
            copy@ == self@,
    {
        Session { status: self.status.clone() }
    }
}

impl Default for Session {
    /// A session with no document.
    fn default() -> (session: Session)
        ensures
            session@ is None,
    {
        Session::new()
    }
}

} // verus!
