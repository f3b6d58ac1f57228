//! What holds of the session whatever it holds and whatever happens to it,
//! stated over the machine of [`step_model`].
use crate::document::DocumentView;
use crate::error::SessionError;
use crate::event::{ActionView, EventView};
use crate::path::file_name_text;
use crate::session::step_model;
use std::path::PathBuf;
use vstd::prelude::*;

verus! {

/// Once a frame has been drawn, the modified flag is set exactly when the
/// text differs from the snapshot, and nothing else about the document has
/// changed.
pub proof fn frame_settles_modified_flag(session: Option<DocumentView>)
    requires
        session is Some,
    ensures
        step_model(session, EventView::Frame) == (
            Some(
                DocumentView {
                    is_modified: session->0.current_text != session->0.saved_text,
                    ..session->0
                },
            ),
            ActionView::Idle,
        ),
{
}

/// An edit changes the text and nothing else, and the frame drawn after it
/// shows the document as modified exactly when the new text differs from the
/// snapshot, which the edit has left alone.
pub proof fn edit_shows_as_modified_iff_text_differs(
    session: Option<DocumentView>,
    text: Seq<char>,
)
    requires
        session is Some,
    ensures
        ({
            let edited = step_model(session, EventView::TextEdited(text)).0;
            let shown = step_model(edited, EventView::Frame).0;
            &&& edited == Some(DocumentView { current_text: text, ..session->0 })
            &&& shown is Some
            &&& shown->0.current_text == text
            &&& shown->0.saved_text == session->0.saved_text
            &&& shown->0.is_modified <==> text != session->0.saved_text
        }),
{
}

/// Once the text has been written out, the snapshot is the text and the
/// document is not marked as modified; the next frame keeps it so.
pub proof fn written_document_is_unmodified(session: Option<DocumentView>)
    requires
        session is Some,
    ensures
        ({
            let written = step_model(session, EventView::FileWritten).0;
            let shown = step_model(written, EventView::Frame).0;
            &&& written is Some
            &&& written->0.current_text == session->0.current_text
            &&& written->0.saved_text == written->0.current_text
            &&& !written->0.is_modified
            &&& shown == written
        }),
{
}

/// Save on a document that has a backing path asks for the current text to
/// be written to that path and leaves the session alone; when the write is
/// reported, the snapshot is that text and the document is unmodified.
pub proof fn save_to_backing_path(session: Option<DocumentView>)
    requires
        session is Some,
        session->0.backing_path is Some,
    ensures
        step_model(session, EventView::SavePressed) == (
            session,
            ActionView::WriteFile {
                path: session->0.backing_path->0,
                text: session->0.current_text,
            },
        ),
        ({
            let written = step_model(session, EventView::FileWritten).0;
            &&& written is Some
            &&& written->0.saved_text == session->0.current_text
            &&& written->0.current_text == session->0.current_text
            &&& written->0.backing_path == session->0.backing_path
            &&& !written->0.is_modified
        }),
{
}

/// Save on a document without a backing path asks the user for one. A path
/// with a final component becomes the backing path, the component becomes
/// the title, and the current text is to be written there; when the write is
/// reported, the snapshot is that text and the document is unmodified. A
/// path without a final component is refused and changes nothing.
pub proof fn save_to_chosen_path(session: Option<DocumentView>, path: PathBuf)
    requires
        session is Some,
        session->0.backing_path is None,
    ensures
        step_model(session, EventView::SavePressed) == (session, ActionView::ChooseSavePath),
        file_name_text(path) is Some ==> ({
            let (bound, action) = step_model(session, EventView::SaveChosen(Some(path)));
            let written = step_model(bound, EventView::FileWritten).0;
            &&& action == (ActionView::WriteFile { path, text: session->0.current_text })
            &&& bound == Some(
                DocumentView {
                    backing_path: Some(path),
                    display_name: file_name_text(path)->0,
                    ..session->0
                },
            )
            &&& written is Some
            &&& written->0.saved_text == session->0.current_text
            &&& written->0.current_text == session->0.current_text
            &&& written->0.backing_path == Some(path)
            &&& !written->0.is_modified
        }),
        file_name_text(path) is None ==> step_model(session, EventView::SaveChosen(Some(path)))
            == (session, ActionView::Abort(SessionError::InvalidPath)),
{
}

/// Save without a backing path, answered by a cancelled dialog, leaves the
/// session as it was, and no write is asked for.
pub proof fn cancelled_save_changes_nothing(session: Option<DocumentView>)
    requires
        session is Some,
        session->0.backing_path is None,
    ensures
        step_model(session, EventView::SavePressed) == (session, ActionView::ChooseSavePath),
        step_model(session, EventView::SaveChosen(None)) == (session, ActionView::Idle),
{
}

/// New on an empty session, or on a document that is not marked as
/// modified, gives a new document: untitled, empty, without a snapshot or a
/// backing path, and marked as modified until the next frame. New on a
/// document that is marked as modified changes nothing.
pub proof fn new_spares_modified_document(session: Option<DocumentView>)
    ensures
        step_model(session, EventView::NewPressed).1 == ActionView::Idle,
        session is None || !session->0.is_modified ==> ({
            let replaced = step_model(session, EventView::NewPressed).0;
            &&& replaced == Some(DocumentView::fresh())
            &&& replaced->0.display_name == "New File"@
            &&& replaced->0.current_text == Seq::<char>::empty()
            &&& replaced->0.saved_text == Seq::<char>::empty()
            &&& replaced->0.backing_path is None
            &&& replaced->0.is_modified
            &&& !step_model(replaced, EventView::Frame).0->0.is_modified
        }),
        session is Some && session->0.is_modified ==> step_model(session, EventView::NewPressed).0
            == session,
{
}

/// A file that has been read replaces whatever the session held: text and
/// snapshot are the file's contents, the backing path is the path that was
/// chosen, the title is its final component, and the document is not marked
/// as modified. A path without a final component is refused and changes
/// nothing.
pub proof fn opened_file_is_adopted(
    session: Option<DocumentView>,
    path: PathBuf,
    contents: Seq<char>,
)
    ensures
        file_name_text(path) is Some ==> ({
            let (opened, action) = step_model(session, EventView::FileRead { path, contents });
            &&& action == ActionView::Idle
            &&& opened is Some
            &&& opened->0.current_text == contents
            &&& opened->0.saved_text == contents
            &&& opened->0.backing_path == Some(path)
            &&& opened->0.display_name == file_name_text(path)->0
            &&& !opened->0.is_modified
        }),
        file_name_text(path) is None ==> step_model(
            session,
            EventView::FileRead { path, contents },
        ) == (session, ActionView::Abort(SessionError::InvalidPath)),
{
}

/// The snapshot of a document changes only when its text has been written
/// out. Every other event either leaves the snapshot alone or replaces the
/// document as a whole, which only New and a file that has been read do.
pub proof fn snapshot_changes_only_when_written(session: Option<DocumentView>, event: EventView)
    requires
        session is Some,
        event !is FileWritten,
        event !is NewPressed,
        event !is FileRead,
    ensures
        step_model(session, event).0 is Some,
        step_model(session, event).0->0.saved_text == session->0.saved_text,
{
}

/// A session without a document gets one only by New or by a file that has
/// been read; until then Save asks for nothing.
pub proof fn empty_session_stays_empty(event: EventView)
    requires
        event !is NewPressed,
        event !is FileRead,
    ensures
        step_model(None, event).0 is None,
        step_model(None, EventView::SavePressed) == (None::<DocumentView>, ActionView::Idle),
{
}

/// A failed read or write changes nothing in the session: the text the user
/// has typed is still there when the program is told to give up.
pub proof fn failure_keeps_session(session: Option<DocumentView>)
    ensures
        step_model(session, EventView::ReadFailed) == (
            session,
            ActionView::Abort(SessionError::Io),
        ),
        step_model(session, EventView::WriteFailed) == (
            session,
            ActionView::Abort(SessionError::Io),
        ),
{
}

} // verus!
