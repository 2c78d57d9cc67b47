//! How entries are tied to the blobs they refer to: which blob goes when
//! an entry leaves the store, and why no entry is left pointing at a blob
//! that is gone.

use vstd::prelude::*;
use crate::snippet::SnippetView;
use crate::store::{appended, evicted, removed};
use crate::text::{decimal, decimal_text, lemma_decimal_injective};
use crate::uploads::{after_key, next_key};

verus! {

/// The name under which the blob with key `key` is kept: the key in
/// decimal digits.
pub open spec fn blob_name_of(key: usize) -> Seq<char> {
    decimal(key as nat)
}

/// The name under which the blob with key `key` is kept.
pub fn blob_name(key: usize) -> (name: String)
    ensures
        name@ == blob_name_of(key),
{
    decimal_text(key as u64)
}

/// Blobs with different keys are kept under different names.
pub proof fn lemma_blob_names_differ(one: usize, other: usize)
    requires
        one != other,
    ensures
        blob_name_of(one) != blob_name_of(other),
{
    if blob_name_of(one) == blob_name_of(other) {
        lemma_decimal_injective(one as nat, other as nat);
    }
}

/// The blob to delete once `gone` has left the store: the one it refers
/// to, if an entry left and it refers to one.
pub open spec fn discard_for(gone: Option<SnippetView>) -> Option<usize> {
    match gone {
        Some(entry) => entry.blob(),
        None => None,
    }
}

/// Whether some entry refers to the blob stored under `key`.
pub open spec fn holds_blob(entries: Seq<SnippetView>, key: usize) -> bool {
    exists|i: int| 0 <= i < entries.len() && (#[trigger] entries[i]).blob() == Some(key)
}

/// Whether no two entries refer to the same blob.
pub open spec fn blobs_distinct(entries: Seq<SnippetView>) -> bool {
    forall|i: int, j: int|
        #![trigger entries[i], entries[j]]
        0 <= i < j < entries.len() && entries[i].blob() is Some ==> entries[i].blob()
            != entries[j].blob()
}

/// Whether every blob that an entry refers to has a key below `bound`.
pub open spec fn blobs_below(entries: Seq<SnippetView>, bound: nat) -> bool {
    forall|i: int|
        #![trigger entries[i]]
        0 <= i < entries.len() && entries[i].blob() is Some ==> entries[i].blob()->0 < bound
}

/// Whether `entry` may join `entries` without two entries then referring
/// to one blob.
pub open spec fn joins_cleanly(entries: Seq<SnippetView>, entry: SnippetView) -> bool {
    entry.blob() matches Some(key) ==> !holds_blob(entries, key)
}

/// When an append pushes an entry out, the blob that goes with it is one
/// that no entry still in the store refers to. This needs that no two
/// entries, the new one among them, refer to the same blob.
pub proof fn lemma_evicted_blob_unreferenced(
    entries: Seq<SnippetView>,
    capacity: nat,
    entry: SnippetView,
)
    requires
        1 <= capacity,
        entries.len() <= capacity,
        blobs_distinct(entries),
        joins_cleanly(entries, entry),
    ensures
        discard_for(evicted(entries, capacity)) matches Some(key) ==> !holds_blob(
            appended(entries, capacity, entry),
            key,
        ),
{
}

/// When an entry is taken out, the blob that goes with it is one that no
/// entry still in the store refers to, provided no two entries referred to
/// the same blob.
pub proof fn lemma_removed_blob_unreferenced(entries: Seq<SnippetView>, index: int)
    requires
        0 <= index < entries.len(),
        blobs_distinct(entries),
    ensures
        entries[index].blob() matches Some(key) ==> !holds_blob(removed(entries, index), key),
{
}

/// An entry that stays keeps its blob: what an append discards is never
/// the blob of the new entry, nor of any entry that was not the oldest.
pub proof fn lemma_append_spares_the_rest(
    entries: Seq<SnippetView>,
    capacity: nat,
    entry: SnippetView,
    key: usize,
)
    requires
        1 <= capacity,
        entries.len() <= capacity,
        blobs_distinct(entries),
        joins_cleanly(entries, entry),
        holds_blob(appended(entries, capacity, entry), key),
    ensures
        discard_for(evicted(entries, capacity)) != Some(key),
{
    lemma_evicted_blob_unreferenced(entries, capacity, entry);
}

/// Appending keeps the blobs apart.
pub proof fn lemma_append_keeps_distinct(
    entries: Seq<SnippetView>,
    capacity: nat,
    entry: SnippetView,
)
    requires
        1 <= capacity,
        blobs_distinct(entries),
        joins_cleanly(entries, entry),
    ensures
        blobs_distinct(appended(entries, capacity, entry)),
{
}

/// Taking an entry out keeps the blobs apart.
pub proof fn lemma_remove_keeps_distinct(entries: Seq<SnippetView>, index: int)
    requires
        blobs_distinct(entries),
    ensures
        blobs_distinct(removed(entries, index)),
{
}

/// Neither appending nor taking out brings in a key that was not there:
/// the keys stay below a bound that held of the store and of the new
/// entry.
pub proof fn lemma_keys_stay_below(
    entries: Seq<SnippetView>,
    capacity: nat,
    entry: SnippetView,
    index: int,
    bound: nat,
)
    requires
        1 <= capacity,
        blobs_below(entries, bound),
        entry.blob() matches Some(key) ==> key < bound,
    ensures
        blobs_below(appended(entries, capacity, entry), bound),
        blobs_below(removed(entries, index), bound),
{
}

/// A key fresh from the counter is one that no entry refers to, when all
/// the keys in the store came from that counter; and it lies below the
/// count that follows.
pub proof fn lemma_fresh_key_joins_cleanly(
    entries: Seq<SnippetView>,
    issued: nat,
    entry: SnippetView,
)
    requires
        blobs_below(entries, issued),
        entry.blob() == next_key(issued),
    ensures
        joins_cleanly(entries, entry),
        entry.blob() matches Some(key) ==> key < after_key(issued),
        blobs_below(entries, after_key(issued)),
{
}

/// An entry of text refers to no blob, so it joins any store cleanly and
/// under any bound.
pub proof fn lemma_text_joins_cleanly(entries: Seq<SnippetView>, entry: SnippetView)
    requires
        !(entry is FileRef),
    ensures
        entry.blob() is None,
        joins_cleanly(entries, entry),
{
}

/// Two uploads get different keys, whichever of them is stored first; the
/// store then refers to each blob once, and if it has room for two both
/// entries are in it, the later one last.
pub proof fn lemma_two_uploads(
    entries: Seq<SnippetView>,
    capacity: nat,
    issued: nat,
    one: SnippetView,
    other: SnippetView,
)
    requires
        1 <= capacity,
        entries.len() <= capacity,
        blobs_distinct(entries),
        blobs_below(entries, issued),
        one.blob() is Some,
        other.blob() is Some,
        one.blob() == next_key(issued),
        other.blob() == next_key(after_key(issued)),
    ensures
        one.blob() != other.blob(),
        blobs_distinct(appended(appended(entries, capacity, one), capacity, other)),
        blobs_distinct(appended(appended(entries, capacity, other), capacity, one)),
        2 <= capacity ==> {
            let held = appended(appended(entries, capacity, one), capacity, other);
            held[held.len() - 2] == one && held[held.len() - 1] == other
        },
        2 <= capacity ==> {
            let held = appended(appended(entries, capacity, other), capacity, one);
            held[held.len() - 2] == other && held[held.len() - 1] == one
        },
{
    lemma_joins_when_above(entries, issued, one);
    lemma_joins_when_above(entries, issued, other);
    lemma_append_keeps_distinct(entries, capacity, one);
    lemma_append_keeps_distinct(entries, capacity, other);
    let with_one = appended(entries, capacity, one);
    let with_other = appended(entries, capacity, other);
    lemma_joined_later(entries, capacity, one, other);
    lemma_joined_later(entries, capacity, other, one);
    lemma_append_keeps_distinct(with_one, capacity, other);
    lemma_append_keeps_distinct(with_other, capacity, one);
}

proof fn lemma_joins_when_above(entries: Seq<SnippetView>, bound: nat, entry: SnippetView)
    requires
        blobs_below(entries, bound),
        entry.blob() matches Some(key) ==> key >= bound,
    ensures
        joins_cleanly(entries, entry),
{
}

proof fn lemma_joined_later(
    entries: Seq<SnippetView>,
    capacity: nat,
    first: SnippetView,
    second: SnippetView,
)
    requires
        1 <= capacity,
        joins_cleanly(entries, second),
        first.blob() != second.blob(),
    ensures
        joins_cleanly(appended(entries, capacity, first), second),
{
}

} // verus!
