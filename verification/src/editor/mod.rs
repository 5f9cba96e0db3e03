//! Open documents and their text.

pub mod commands;
pub mod syntax;

use vstd::prelude::*;
use crate::registry::Registry;
use crate::text::copy_text;

verus! {

/// A document that is open in the editor.
#[derive(Clone, Debug, PartialEq, Eq)]
pub struct Document {
    pub path: Option<String>,
    pub language_id: String,
    pub version: i32,
    pub content: String,
    pub dirty: bool,
}

/// A document with its texts as sequences of characters.
pub struct DocumentView {
    pub path: Option<Seq<char>>,
    pub language_id: Seq<char>,
    pub version: i32,
    pub content: Seq<char>,
    pub dirty: bool,
}

impl DeepView for Document {
    type V = DocumentView;

    open spec fn deep_view(&self) -> DocumentView {
        DocumentView {
            path: self.path.deep_view(),
            language_id: self.language_id@,
            version: self.version,
            content: self.content@,
            dirty: self.dirty,
        }
    }
}

/// A document as it is when it is opened: version 1 and nothing to save.
pub open spec fn opened(
    path: Option<Seq<char>>,
    language_id: Seq<char>,
    content: Seq<char>,
) -> DocumentView {
    DocumentView { path, language_id, version: 1, content, dirty: false }
}

/// A document after an edit: the new text, the next version, unsaved.
pub open spec fn edited(document: DocumentView, content: Seq<char>) -> DocumentView
    recommends
        document.version < i32::MAX,
{
    DocumentView {
        path: document.path,
        language_id: document.language_id,
        version: (document.version + 1) as i32,
        content,
        dirty: true,
    }
}

/// A document after it was saved: the same, with nothing left to save.
pub open spec fn saved(document: DocumentView) -> DocumentView {
    DocumentView {
        path: document.path,
        language_id: document.language_id,
        version: document.version,
        content: document.content,
        dirty: false,
    }
}

impl Document {
    /// Opens a document with the given text.
    pub fn new(path: Option<String>, language_id: &str, content: &str) -> (r: Self)
        ensures
            r.deep_view() == opened(path.deep_view(), language_id@, content@),
    {
        Document {
            path,
            language_id: language_id.to_owned(),
            version: 1,
            content: content.to_owned(),
            dirty: false,
        }
    }

    /// Replaces the text. The version goes up by one and the document
    /// counts as unsaved.
    pub fn update_content(&mut self, content: &str)
        requires
            old(self).version < i32::MAX,
        ensures
            final(self).deep_view() == edited(old(self).deep_view(), content@),
    {
        self.content = content.to_owned();
        self.version = self.version + 1;
        self.dirty = true;
    }

    /// Marks the document as saved.
    pub fn save(&mut self)
        ensures
            final(self).deep_view() == saved(old(self).deep_view()),
    {
        self.dirty = false;
    }

    /// A copy of the document.
    pub fn duplicate(&self) -> (r: Self)
        ensures
            r.deep_view() == self.deep_view(),
    {
        Document {
            path: copy_text(&self.path),
            language_id: self.language_id.clone(),
            version: self.version,
            content: self.content.clone(),
            dirty: self.dirty,
        }
    }
}

/// The message for a request that names a document which is not open.
pub open spec fn not_found_message(uri: Seq<char>) -> Seq<char> {
    "Document not found: "@ + uri
}

/// The documents that are open, by URI.
pub struct DocumentManager {
    documents: Registry<Document>,
}

impl DocumentManager {
    /// The open documents by URI.
    pub closed spec fn view(&self) -> Map<Seq<char>, DocumentView> {
        Map::new(
            |uri: Seq<char>| self.documents@.contains_key(uri),
            |uri: Seq<char>| self.documents@[uri].deep_view(),
        )
    }

    /// A manager without documents.
    pub fn new() -> (r: Self)
        ensures
            r@ == Map::<Seq<char>, DocumentView>::empty(),
    {
        let r = DocumentManager { documents: Registry::new() };
        assert(r@ =~= Map::<Seq<char>, DocumentView>::empty());
        r
    }

    /// Opens a document under `uri`. A document that was open under that
    /// URI is replaced.
    pub fn open_document(
        &mut self,
        uri: &str,
        path: Option<String>,
        language_id: &str,
        content: &str,
    ) -> (r: Result<(), String>)
        ensures
            r is Ok,
            final(self)@ == old(self)@.insert(
                uri@,
                opened(path.deep_view(), language_id@, content@),
            ),
    {
        let ghost before = self@;
        let document = Document::new(path, language_id, content);
        self.documents.insert(uri.to_owned(), document);
        assert(self@ =~= before.insert(uri@, opened(path.deep_view(), language_id@, content@)));
        Ok(())
    }

    /// A copy of the document that is open under `uri`, if there is one.
    pub fn get_document(&self, uri: &str) -> (r: Option<Document>)
        ensures
            r.deep_view() == if self@.contains_key(uri@) {
                Some(self@[uri@])
            } else {
                None
            },
    {
        match self.documents.get(uri) {
            Some(document) => Some(document.duplicate()),
            None => None,
        }
    }

    /// Replaces the text of the document that is open under `uri`. Fails
    /// when no document is open under it.
    pub fn update_document(&mut self, uri: &str, content: &str) -> (r: Result<(), String>)
        requires
            old(self)@.contains_key(uri@) ==> old(self)@[uri@].version < i32::MAX,
        ensures
            match r {
                Ok(_) => old(self)@.contains_key(uri@) && final(self)@ == old(self)@.insert(
                    uri@,
                    edited(old(self)@[uri@], content@),
                ),
                Err(message) => !old(self)@.contains_key(uri@) && final(self)@ == old(self)@
                    && message@ == not_found_message(uri@),
            },
    {
        let ghost before = self@;
        let found = match self.documents.get(uri) {
            Some(document) => Some(document.duplicate()),
            None => None,
        };
        match found {
            Some(document) => {
                let mut document = document;
                document.update_content(content);
                self.documents.insert(uri.to_owned(), document);
                assert(self@ =~= before.insert(uri@, edited(before[uri@], content@)));
                Ok(())
            },
            None => Err("Document not found: ".to_owned().concat(uri)),
        }
    }

    /// Closes the document that is open under `uri`. Fails when no document
    /// is open under it.
    pub fn close_document(&mut self, uri: &str) -> (r: Result<(), String>)
        ensures
            final(self)@ == old(self)@.remove(uri@),
            match r {
                Ok(_) => old(self)@.contains_key(uri@),
                Err(message) => !old(self)@.contains_key(uri@) && message@ == not_found_message(
                    uri@,
                ),
            },
    {
        let ghost before = self@;
        let removed = self.documents.remove(uri);
        assert(self@ =~= before.remove(uri@));
        match removed {
            Some(_) => Ok(()),
            None => Err("Document not found: ".to_owned().concat(uri)),
        }
    }
}

} // verus!
