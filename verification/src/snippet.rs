//! The entries of the clipboard.

use vstd::prelude::*;

verus! {

/// One clipboard entry.
///
/// `Secret` has the shape of `Text`; the mark only tells a client to hide the
/// content. A `FileRef` names a blob held elsewhere: the entry carries the
/// key and what is needed to hand the blob out, never its bytes.
#[derive(Clone, Debug, PartialEq, Eq)]
pub enum Snippet {
    Text { content: String },
    Secret { content: String },
    FileRef { id: usize, size: u64, name: String, mime: String },
}

/// What a [`Snippet`] is, with strings as sequences of characters.
pub enum SnippetView {
    Text { content: Seq<char> },
    Secret { content: Seq<char> },
    FileRef { id: usize, size: u64, name: Seq<char>, mime: Seq<char> },
}

impl View for Snippet {
    type V = SnippetView;

    open spec fn view(&self) -> SnippetView {
        match *self {
            Snippet::Text { content } => SnippetView::Text { content: content@ },
            Snippet::Secret { content } => SnippetView::Secret { content: content@ },
            Snippet::FileRef { id, size, name, mime } => SnippetView::FileRef {
                id,
                size,
                name: name@,
                mime: mime@,
            },
        }
    }
}

impl SnippetView {
    /// The key of the blob that this entry refers to, if it refers to one.
    pub open spec fn blob(self) -> Option<usize> {
        match self {
            SnippetView::FileRef { id, .. } => Some(id),
            _ => None,
        }
    }
}

impl Snippet {
    /// A plain text entry.
    pub fn text(content: String) -> (s: Snippet)
        ensures
            s@ == (SnippetView::Text { content: content@ }),
    {
        Snippet::Text { content }
    }

    /// A text entry marked sensitive.
    pub fn secret(content: String) -> (s: Snippet)
        ensures
            s@ == (SnippetView::Secret { content: content@ }),
    {
        Snippet::Secret { content }
    }

    /// An entry that refers to the blob stored under `id`.
    pub fn file(id: usize, size: u64, name: String, mime: String) -> (s: Snippet)
        ensures
            s@ == (SnippetView::FileRef { id, size, name: name@, mime: mime@ }),
    {
        Snippet::FileRef { id, size, name, mime }
    }

    /// The key of the blob that this entry refers to: `Some` exactly for a
    /// `FileRef`.
    pub fn blob_id(&self) -> (id: Option<usize>)
        ensures
            id == self@.blob(),
    {
        match self {
            Snippet::FileRef { id, .. } => Some(*id),
            _ => None,
        }
    }

    /// Whether this entry refers to a blob.
    pub fn is_file(&self) -> (b: bool)
        ensures
            b == (self@ is FileRef),
    {
        match self {
            Snippet::FileRef { .. } => true,
            _ => false,
        }
    }
}

} // verus!
