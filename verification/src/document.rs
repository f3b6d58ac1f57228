//! One document: its text, the snapshot last exchanged with the disk, and
//! where it is stored.
use std::path::PathBuf;
use vstd::prelude::*;
use vstd::string::StringExecFns;

verus! {

/// The mathematical content of a [`Document`].
pub struct DocumentView {
    /// The title shown to the user: a file name, or the name of a new file.
    pub display_name: Seq<char>,
    /// The text as the user has edited it.
    pub current_text: Seq<char>,
    /// The text as it was last read from or written to the disk.
    pub saved_text: Seq<char>,
    /// Where the document is saved by default, if anywhere yet.
    pub backing_path: Option<PathBuf>,
    /// The modified flag as it was last computed.
    pub is_modified: bool,
}

impl DocumentView {
    /// The title of a document that has never been saved.
    pub open spec fn untitled() -> Seq<char> {
        "New File"@
    }

    /// A new, empty document. It has no saved counterpart, so it starts out
    /// marked as modified.
    pub open spec fn fresh() -> DocumentView {
        DocumentView {
            display_name: Self::untitled(),
            current_text: Seq::empty(),
            saved_text: Seq::empty(),
            backing_path: None,
            is_modified: true,
        }
    }

    /// The document that results from reading `contents` from `path`, shown
    /// under `display_name`.
    pub open spec fn opened(
        path: PathBuf,
        display_name: Seq<char>,
        contents: Seq<char>,
    ) -> DocumentView {
        DocumentView {
            display_name,
            current_text: contents,
            saved_text: contents,
            backing_path: Some(path),
            is_modified: false,
        }
    }

    /// Whether the text differs from the snapshot.
    pub open spec fn differs(self) -> bool {
        self.current_text != self.saved_text
    }

    /// The document with its modified flag computed anew from the two texts.
    pub open spec fn refreshed(self) -> DocumentView {
        DocumentView { is_modified: self.differs(), ..self }
    }

    /// The document after the user has changed the text to `text`.
    pub open spec fn edited(self, text: Seq<char>) -> DocumentView {
        DocumentView { current_text: text, ..self }
    }

    /// The document stored at `path` from now on, shown under `display_name`.
    pub open spec fn bound_to(self, path: PathBuf, display_name: Seq<char>) -> DocumentView {
        DocumentView { display_name, backing_path: Some(path), ..self }
    }

    /// The document after its text has been written out.
    pub open spec fn saved(self) -> DocumentView {
        DocumentView { saved_text: self.current_text, is_modified: false, ..self }
    }

    /// What the title bar shows between the product name and the title.
    pub open spec fn marker(self) -> Seq<char> {
        if self.is_modified {
            "- *"@
        } else {
            "- "@
        }
    }
}

/// A document being edited.
#[derive(Debug, PartialEq, Eq)]
pub struct Document {
    display_name: String,
    current_text: String,
    saved_text: String,
    backing_path: Option<PathBuf>,
    is_modified: bool,
}

impl View for Document {
    type V = DocumentView;

    closed spec fn view(&self) -> DocumentView {
        DocumentView {
            display_name: self.display_name@,
            current_text: self.current_text@,
            saved_text: self.saved_text@,
            backing_path: self.backing_path,
            is_modified: self.is_modified,
        }
    }
}

impl Document {
    /// A new, empty, untitled document.
    pub fn new() -> (document: Document)
        ensures
            document@ == DocumentView::fresh(),
    {
        Document {
            display_name: String::from_str("New File"),
            current_text: String::new(),
            saved_text: String::new(),
            backing_path: None,
            is_modified: true,
        }
    }

    /// The document read from `path`, whose whole text is `contents`.
    pub fn opened(path: PathBuf, display_name: String, contents: String) -> (document: Document)
        ensures
            document@ == DocumentView::opened(path, display_name@, contents@),
    {
        let saved_text = contents.clone();
        Document {
            display_name,
            current_text: contents,
            saved_text,
            backing_path: Some(path),
            is_modified: false,
        }
    }

    /// The title shown to the user.
    pub fn display_name(&self) -> (name: &String)
        ensures
            name@ == self@.display_name,
    {
        &self.display_name
    }

    /// The text as the user has edited it.
    pub fn text(&self) -> (text: &String)
        ensures
            text@ == self@.current_text,
    {
        &self.current_text
    }

    /// The text as it was last read from or written to the disk.
    pub fn saved_text(&self) -> (text: &String)
        ensures
            text@ == self@.saved_text,
    {
        &self.saved_text
    }

    /// Where the document is saved by default, if anywhere yet.
    pub fn backing_path(&self) -> (path: Option<&PathBuf>)
        ensures
            (path is Some) == (self@.backing_path is Some),
            path is Some ==> *path->0 == self@.backing_path->0,
    {
        self.backing_path.as_ref()
    }

    /// The modified flag as it was last computed.
    pub fn is_modified(&self) -> (flag: bool)
        ensures
            flag == self@.is_modified,
    {
        self.is_modified
    }

    /// What the title bar shows before the title: `"- *"` for a document
    /// marked as modified, `"- "` for any other.
    pub fn marker(&self) -> (text: &'static str)
        ensures
            text@ == self@.marker(),
    {
        if self.is_modified {
            "- *"
        } else {
            "- "
        }
    }

    /// Computes the modified flag anew: set exactly when the text differs
    /// from the snapshot.
    pub fn refresh(&mut self)
        ensures
            final(self)@ == old(self)@.refreshed(),
    {
        self.is_modified = !(self.current_text == self.saved_text);
    }

    /// Replaces the text by `text`. Nothing else changes: the flag keeps its
    /// value until it is next computed.
    pub fn edit(&mut self, text: String)
        ensures
            final(self)@ == old(self)@.edited(text@),
    {
        self.current_text = text;
    }

    /// Stores the document at `path` from now on and shows it as `display_name`.
    pub fn bind(&mut self, path: PathBuf, display_name: String)
        ensures
            final(self)@ == old(self)@.bound_to(path, display_name@),
    {
        self.backing_path = Some(path);
        self.display_name = display_name;
    }

    /// Records that the text has been written out: the snapshot becomes the
    /// text, and the flag is cleared.
    pub fn mark_saved(&mut self)
        ensures
            final(self)@ == old(self)@.saved(),
    {
        self.saved_text = self.current_text.clone();
        self.is_modified = false;
    }
}

impl Clone for Document {
    /// A copy with the same content.
    fn clone(&self) -> (copy: Document)
        ensures
            copy@ == self@,
    {
        Document {
            display_name: self.display_name.clone(),
            current_text: self.current_text.clone(),
            saved_text: self.saved_text.clone(),
            backing_path: match &self.backing_path {
                Some(path) => Some(path.clone()),
                None => None,
            },
            is_modified: self.is_modified,
        }
    }
}

impl Default for Document {
    /// A new, empty, untitled document.
    fn default() -> (document: Document)
        ensures
            document@ == DocumentView::fresh(),
    {
        Document::new()
    }
}

} // verus!
