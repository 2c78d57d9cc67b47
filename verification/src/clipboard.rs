//! What each request does to the store, and what it leaves for the caller
//! to do: which blob to delete and whether to signal a change.

use vstd::prelude::*;
use vstd::string::StringExecFns;
use crate::binding::discard_for;
use crate::notifier::{signalled, ChangeNotifier};
use crate::snippet::{Snippet, SnippetView};
use crate::store::{appended, entry_at, evicted, removed, SnippetStore};
use crate::text::{escape_quotes, escaped};

verus! {

/// How a request ended.
#[derive(Clone, Copy, Debug, PartialEq, Eq)]
pub enum Status {
    /// The request was carried out.
    Done,
    /// There is no entry at the place named.
    NotFound,
    /// The entry submitted is one that only an upload may create.
    InvalidInput,
    /// The blob could not be written.
    BlobIoError,
}

/// What a request leaves for the caller to do once the store is released.
#[derive(Clone, Copy, Debug, PartialEq, Eq)]
pub struct Outcome {
    /// How the request ended.
    pub status: Status,
    /// The blob to delete, once and without regard to whether that
    /// succeeds.
    pub discard: Option<usize>,
    /// Whether to signal a change to those who wait.
    pub notify: bool,
}

/// What is needed to hand a blob out.
#[derive(Debug, PartialEq, Eq)]
pub struct Download {
    /// The key under which the blob is stored.
    pub key: usize,
    /// The length to announce, where it fits the machine's sizes.
    pub length: Option<usize>,
    /// The content type to announce.
    pub mime: String,
    /// The content disposition to announce.
    pub disposition: String,
}

/// The outcome of a request that changed the store and let `gone` go.
pub open spec fn changed(gone: Option<SnippetView>) -> Outcome {
    Outcome { status: Status::Done, discard: discard_for(gone), notify: true }
}

/// The outcome of a request that was turned down with `status` and left
/// the store alone.
pub open spec fn refused(status: Status) -> Outcome {
    Outcome { status, discard: None, notify: false }
}

/// The outcome of an upload that broke off: the part of the blob that was
/// written under `key` is to be deleted, and nothing has changed.
pub open spec fn aborted(key: usize) -> Outcome {
    Outcome { status: Status::BlobIoError, discard: Some(key), notify: false }
}

/// The content type of a blob that came without one.
pub open spec fn default_mime() -> Seq<char> {
    "application/octet-stream"@
}

/// The content type given, or the default.
pub open spec fn mime_or_default(mime: Option<Seq<char>>) -> Seq<char> {
    match mime {
        Some(m) => m,
        None => default_mime(),
    }
}

/// The content disposition that offers a blob for saving under `name`.
pub open spec fn disposition(name: Seq<char>) -> Seq<char> {
    "attachment; filename=\""@ + escaped(name) + "\""@
}

/// The length to announce for a blob of `size` bytes.
pub open spec fn announced_length(size: u64) -> Option<usize> {
    if size <= usize::MAX {
        Some(size as usize)
    } else {
        None
    }
}

/// What a [`Download`] is, with strings as sequences of characters.
pub struct DownloadView {
    pub key: usize,
    pub length: Option<usize>,
    pub mime: Seq<char>,
    pub disposition: Seq<char>,
}

impl View for Download {
    type V = DownloadView;

    open spec fn view(&self) -> DownloadView {
        DownloadView {
            key: self.key,
            length: self.length,
            mime: self.mime@,
            disposition: self.disposition@,
        }
    }
}

/// What is needed to hand out the blob of `entry`: nothing unless it is a
/// file.
pub open spec fn offered(entry: Option<SnippetView>) -> Option<DownloadView> {
    match entry {
        Some(SnippetView::FileRef { id, size, name, mime }) => Some(
            DownloadView {
                key: id,
                length: announced_length(size),
                mime,
                disposition: disposition(name),
            },
        ),
        _ => None,
    }
}

/// What follows when `snippet` has left the store: its blob, if it has
/// one, is to be deleted, and the change is to be signalled.
pub fn delete_snippet(snippet: Snippet) -> (out: Outcome)
    ensures
        out == changed(Some(snippet@)),
{
    Outcome { status: Status::Done, discard: snippet.blob_id(), notify: true }
}

/// Adds `snippet` to the store as its newest entry. If the store was full
/// its oldest entry goes, and with it its blob.
pub fn push_snippet(store: &mut SnippetStore, snippet: Snippet) -> (out: Outcome)
    ensures
        final(store)@ == appended(old(store)@, old(store).spec_capacity(), snippet@),
        final(store).spec_capacity() == old(store).spec_capacity(),
        final(store)@.len() <= final(store).spec_capacity(),
        out == changed(evicted(old(store)@, old(store).spec_capacity())),
{
    match store.append(snippet) {
        Some(gone) => delete_snippet(gone),
        None => Outcome { status: Status::Done, discard: None, notify: true },
    }
}

/// Takes a snippet that a client submits. Text and secrets are added as
/// by [`push_snippet`]; a file entry is turned down before the store is
/// touched, since only an upload may create one.
pub fn post_snippet(store: &mut SnippetStore, snippet: Snippet) -> (out: Outcome)
    ensures
        final(store).spec_capacity() == old(store).spec_capacity(),
        final(store)@.len() <= final(store).spec_capacity(),
        snippet@ is FileRef ==> final(store)@ == old(store)@ && out == refused(
            Status::InvalidInput,
        ),
        !(snippet@ is FileRef) ==> final(store)@ == appended(
            old(store)@,
            old(store).spec_capacity(),
            snippet@,
        ) && out == changed(evicted(old(store)@, old(store).spec_capacity())),
{
    if snippet.is_file() {
        // the store is left as it stands, and so within its capacity
        let _ = store.len();
        Outcome { status: Status::InvalidInput, discard: None, notify: false }
    } else {
        push_snippet(store, snippet)
    }
}

/// Takes the entry at `index` out of the store, and its blob with it. At
/// a place that holds nothing, nothing is found and nothing changes.
pub fn remove_snippet(store: &mut SnippetStore, index: usize) -> (out: Outcome)
    ensures
        final(store)@ == removed(old(store)@, index as int),
        final(store).spec_capacity() == old(store).spec_capacity(),
        final(store)@.len() <= final(store).spec_capacity(),
        index < old(store)@.len() ==> out == changed(Some(old(store)@[index as int])),
        index >= old(store)@.len() ==> out == refused(Status::NotFound),
{
    match store.remove_at(index) {
        Some(gone) => delete_snippet(gone),
        None => Outcome { status: Status::NotFound, discard: None, notify: false },
    }
}

/// Ends an upload whose blob was written under `key`. If all of it
/// arrived, `received` is its size and a file entry is added to the store
/// as by [`push_snippet`]. If the transfer broke off, nothing is added and
/// what was written is to be deleted; the key is not used again.
pub fn finish_upload(
    store: &mut SnippetStore,
    key: usize,
    name: String,
    mime: Option<String>,
    received: Option<u64>,
) -> (out: Outcome)
    ensures
        final(store).spec_capacity() == old(store).spec_capacity(),
        final(store)@.len() <= final(store).spec_capacity(),
        received matches Some(size) ==> final(store)@ == appended(
            old(store)@,
            old(store).spec_capacity(),
            SnippetView::FileRef {
                id: key,
                size,
                name: name@,
                mime: mime_or_default(
                    match mime {
                        Some(m) => Some(m@),
                        None => None,
                    },
                ),
            },
        ) && out == changed(evicted(old(store)@, old(store).spec_capacity())),
        received is None ==> final(store)@ == old(store)@ && out == aborted(key),
{
    match received {
        Some(size) => {
            let mime = match mime {
                Some(m) => m,
                None => String::from_str("application/octet-stream"),
            };
            push_snippet(store, Snippet::file(key, size, name, mime))
        },
        None => {
            // the store is left as it stands, and so within its capacity
            let _ = store.len();
            Outcome { status: Status::BlobIoError, discard: Some(key), notify: false }
        },
    }
}

/// Passes the change that `outcome` reports on to those who wait: one
/// signal if it reports one, none otherwise. Says whether it signalled.
pub fn announce(notifier: &mut ChangeNotifier, outcome: &Outcome) -> (given: bool)
    ensures
        given == outcome.notify,
        final(notifier)@ == if outcome.notify {
            signalled(old(notifier)@)
        } else {
            old(notifier)@
        },
{
    if outcome.notify {
        notifier.notify();
    }
    outcome.notify
}

/// What is needed to hand out the blob of the entry at `index`: nothing
/// if there is no entry there or it is not a file. Changes nothing.
pub fn download(store: &SnippetStore, index: usize) -> (out: Option<Download>)
    ensures
        match out {
            Some(d) => Some(d@),
            None => None,
        } == offered(entry_at(store@, index as int)),
{
    match store.get_at(index) {
        Some(Snippet::FileRef { id, size, name, mime }) => {
            let mut disposition = String::from_str("attachment; filename=\"");
            let safe = escape_quotes(name.as_str());
            disposition.append(safe.as_str());
            disposition.append("\"");
            let length = if *size <= usize::MAX as u64 {
                Some(*size as usize)
            } else {
                None
            };
            Some(Download { key: *id, length, mime: mime.clone(), disposition })
        },
        _ => None,
    }
}

} // verus!
