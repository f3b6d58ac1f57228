use mtexteditor::error::SessionError;
use mtexteditor::event::{Action, Event};
use mtexteditor::session::Session;
use std::path::PathBuf;

fn read(path: &str, contents: &str) -> Event {
    Event::FileRead { path: PathBuf::from(path), contents: String::from(contents) }
}

#[test]
fn open_edit_save_scenario() {
    let path = PathBuf::from("/tmp/a.txt");
    let mut session = Session::new();
    assert_eq!(session.step(Event::Frame), Action::Idle);
    assert_eq!(session.heading(), "MTextEditor ");

    assert_eq!(session.step(Event::OpenPressed), Action::ChooseFileToOpen);
    assert_eq!(session.step(Event::OpenChosen(Some(path.clone()))), Action::ReadFile(path.clone()));
    assert_eq!(session.step(read("/tmp/a.txt", "hello")), Action::Idle);
    assert_eq!(session.step(Event::Frame), Action::Idle);
    {
        let document = session.document().unwrap();
        assert_eq!(document.display_name(), "a.txt");
        assert_eq!(document.marker(), "- ");
        assert_eq!(document.text(), "hello");
        assert!(!document.is_modified());
    }
    assert_eq!(session.heading(), "MTextEditor - a.txt");

    assert_eq!(session.step(Event::TextEdited(String::from("hello!"))), Action::Idle);
    assert_eq!(session.step(Event::Frame), Action::Idle);
    {
        let document = session.document().unwrap();
        assert_eq!(document.display_name(), "a.txt");
        assert_eq!(document.marker(), "- *");
        assert!(document.is_modified());
    }
    assert_eq!(session.heading(), "MTextEditor - *a.txt");

    assert_eq!(
        session.step(Event::SavePressed),
        Action::WriteFile { path: path.clone(), text: String::from("hello!") }
    );
    assert_eq!(session.step(Event::FileWritten), Action::Idle);
    assert_eq!(session.step(Event::Frame), Action::Idle);
    {
        let document = session.document().unwrap();
        assert_eq!(document.display_name(), "a.txt");
        assert_eq!(document.marker(), "- ");
        assert_eq!(document.saved_text(), "hello!");
        assert_eq!(document.text(), "hello!");
        assert!(!document.is_modified());
        assert_eq!(document.backing_path(), Some(&path));
    }
    assert_eq!(session.heading(), "MTextEditor - a.txt");
}

#[test]
fn frame_recomputes_the_flag() {
    let mut session = Session::new();
    session.step(read("/tmp/a.txt", "hello"));
    session.step(Event::TextEdited(String::from("hello!")));
    assert!(!session.document().unwrap().is_modified());
    assert_eq!(session.step(Event::Frame), Action::Idle);
    assert!(session.document().unwrap().is_modified());
    session.step(Event::TextEdited(String::from("hello")));
    assert_eq!(session.step(Event::Frame), Action::Idle);
    assert!(!session.document().unwrap().is_modified());
    assert_eq!(session.document().unwrap().saved_text(), "hello");
}

#[test]
fn frame_on_empty_session_is_idle() {
    let mut session = Session::new();
    assert_eq!(session.step(Event::Frame), Action::Idle);
    assert_eq!(session, Session::new());
}

#[test]
fn new_pressed_follows_the_flag() {
    let mut session = Session::new();
    assert_eq!(session.step(Event::NewPressed), Action::Idle);
    assert_eq!(session.document().unwrap().display_name(), "New File");
    session.step(Event::Frame);
    session.step(Event::TextEdited(String::from("typed")));
    session.step(Event::Frame);
    let before = session.clone();
    assert_eq!(session.step(Event::NewPressed), Action::Idle);
    assert_eq!(session, before);
    session.step(Event::TextEdited(String::new()));
    session.step(Event::Frame);
    assert_eq!(session.step(Event::NewPressed), Action::Idle);
    assert_eq!(session.document().unwrap().text(), "");
    assert!(session.document().unwrap().is_modified());
}

#[test]
fn open_pressed_asks_for_a_file() {
    let mut session = Session::new();
    assert_eq!(session.step(Event::OpenPressed), Action::ChooseFileToOpen);
    assert_eq!(session, Session::new());
    session.step(read("/tmp/a.txt", "hello"));
    session.step(Event::TextEdited(String::from("changed")));
    session.step(Event::Frame);
    let before = session.clone();
    assert_eq!(session.step(Event::OpenPressed), Action::ChooseFileToOpen);
    assert_eq!(session, before);
}

#[test]
fn cancelled_open_changes_nothing() {
    let mut session = Session::new();
    session.step(read("/tmp/a.txt", "hello"));
    let before = session.clone();
    assert_eq!(session.step(Event::OpenChosen(None)), Action::Idle);
    assert_eq!(session, before);
}

#[test]
fn chosen_file_is_read_next() {
    let mut session = Session::new();
    let path = PathBuf::from("/var/log/system.log");
    assert_eq!(session.step(Event::OpenChosen(Some(path.clone()))), Action::ReadFile(path));
    assert_eq!(session, Session::new());
}

#[test]
fn chosen_file_without_final_component_aborts() {
    let mut session = Session::new();
    assert_eq!(
        session.step(Event::OpenChosen(Some(PathBuf::from("/")))),
        Action::Abort(SessionError::InvalidPath)
    );
    assert_eq!(session, Session::new());
}

#[test]
fn file_read_without_final_component_aborts() {
    let mut session = Session::new();
    session.step(read("/tmp/a.txt", "hello"));
    let before = session.clone();
    assert_eq!(session.step(read("/", "x")), Action::Abort(SessionError::InvalidPath));
    assert_eq!(session, before);
}

#[test]
fn read_failure_aborts_with_io_error() {
    let mut session = Session::new();
    session.step(read("/tmp/a.txt", "hello"));
    session.step(Event::TextEdited(String::from("unsaved work")));
    let before = session.clone();
    assert_eq!(session.step(Event::ReadFailed), Action::Abort(SessionError::Io));
    assert_eq!(session, before);
}

#[test]
fn write_failure_aborts_with_io_error() {
    let mut session = Session::new();
    session.step(read("/tmp/a.txt", "hello"));
    session.step(Event::TextEdited(String::from("unsaved work")));
    session.step(Event::Frame);
    let before = session.clone();
    assert_eq!(session.step(Event::WriteFailed), Action::Abort(SessionError::Io));
    assert_eq!(session, before);
    assert!(session.document().unwrap().is_modified());
    assert_eq!(session.document().unwrap().saved_text(), "hello");
}

#[test]
fn save_pressed_without_document_is_idle() {
    let mut session = Session::new();
    assert_eq!(session.step(Event::SavePressed), Action::Idle);
    assert_eq!(session, Session::new());
}

#[test]
fn cancelled_save_changes_nothing() {
    let mut session = Session::new();
    session.step(Event::NewPressed);
    session.step(Event::TextEdited(String::from("draft")));
    session.step(Event::Frame);
    let before = session.clone();
    assert_eq!(session.step(Event::SavePressed), Action::ChooseSavePath);
    assert_eq!(session, before);
    assert_eq!(session.step(Event::SaveChosen(None)), Action::Idle);
    assert_eq!(session, before);
    let document = session.document().unwrap();
    assert_eq!(document.backing_path(), None);
    assert_eq!(document.saved_text(), "");
    assert!(document.is_modified());
}

#[test]
fn save_of_new_document_to_chosen_path() {
    let mut session = Session::new();
    session.step(Event::NewPressed);
    session.step(Event::TextEdited(String::from("draft")));
    session.step(Event::Frame);
    assert_eq!(session.heading(), "MTextEditor - *New File");
    assert_eq!(session.step(Event::SavePressed), Action::ChooseSavePath);
    let path = PathBuf::from("/home/user/draft.md");
    assert_eq!(
        session.step(Event::SaveChosen(Some(path.clone()))),
        Action::WriteFile { path: path.clone(), text: String::from("draft") }
    );
    assert_eq!(session.step(Event::FileWritten), Action::Idle);
    assert_eq!(session.step(Event::Frame), Action::Idle);
    assert_eq!(session.heading(), "MTextEditor - draft.md");
    let document = session.document().unwrap();
    assert_eq!(document.backing_path(), Some(&path));
    assert_eq!(document.saved_text(), "draft");
    assert!(!document.is_modified());
    assert_eq!(
        session.step(Event::SavePressed),
        Action::WriteFile { path, text: String::from("draft") }
    );
}

#[test]
fn chosen_save_path_without_final_component_aborts() {
    let mut session = Session::new();
    session.step(Event::NewPressed);
    session.step(Event::TextEdited(String::from("draft")));
    let before = session.clone();
    assert_eq!(
        session.step(Event::SaveChosen(Some(PathBuf::from("/")))),
        Action::Abort(SessionError::InvalidPath)
    );
    assert_eq!(session, before);
}

#[test]
fn chosen_save_path_without_document_is_idle() {
    let mut session = Session::new();
    assert_eq!(session.step(Event::SaveChosen(Some(PathBuf::from("/tmp/a.txt")))), Action::Idle);
    assert_eq!(session.step(Event::SaveChosen(None)), Action::Idle);
    assert_eq!(session, Session::new());
}

#[test]
fn file_written_without_document_is_idle() {
    let mut session = Session::new();
    assert_eq!(session.step(Event::FileWritten), Action::Idle);
    assert_eq!(session, Session::new());
}

#[test]
fn text_edited_without_document_is_idle() {
    let mut session = Session::new();
    assert_eq!(session.step(Event::TextEdited(String::from("typed"))), Action::Idle);
    assert_eq!(session, Session::new());
}

#[test]
fn snapshot_survives_everything_but_a_write() {
    let mut session = Session::new();
    session.step(read("/tmp/a.txt", "hello"));
    session.step(Event::TextEdited(String::from("changed")));
    session.step(Event::Frame);
    session.step(Event::SavePressed);
    session.step(Event::OpenPressed);
    session.step(Event::OpenChosen(None));
    session.step(Event::SaveChosen(None));
    session.step(Event::SaveChosen(Some(PathBuf::from("/tmp/b.txt"))));
    session.step(Event::ReadFailed);
    session.step(Event::WriteFailed);
    session.step(Event::NewPressed);
    assert_eq!(session.document().unwrap().saved_text(), "hello");
    assert_eq!(session.document().unwrap().text(), "changed");
    session.step(Event::FileWritten);
    assert_eq!(session.document().unwrap().saved_text(), "changed");
}
