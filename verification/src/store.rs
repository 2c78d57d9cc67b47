//! The bounded, ordered store of snippets.

use vstd::prelude::*;
use crate::snippet::{Snippet, SnippetView};

verus! {

/// What the entries are after `entry` is appended to `entries`, in a store
/// that holds at most `capacity`: the entry goes to the tail, and if there
/// was no room the head leaves.
pub open spec fn appended(entries: Seq<SnippetView>, capacity: nat, entry: SnippetView) -> Seq<
    SnippetView,
> {
    if entries.len() < capacity {
        entries.push(entry)
    } else {
        entries.drop_first().push(entry)
    }
}

/// The entry that leaves when one more is appended to `entries`: the head
/// of a full store, none otherwise.
pub open spec fn evicted(entries: Seq<SnippetView>, capacity: nat) -> Option<SnippetView> {
    if entries.len() < capacity {
        None
    } else {
        Some(entries[0])
    }
}

/// What the entries are after the one at `index` is taken out: the later
/// ones move down by one place. An index past the end changes nothing.
pub open spec fn removed(entries: Seq<SnippetView>, index: int) -> Seq<SnippetView> {
    if 0 <= index < entries.len() {
        entries.remove(index)
    } else {
        entries
    }
}

/// The entry at `index`, if there is one.
pub open spec fn entry_at(entries: Seq<SnippetView>, index: int) -> Option<SnippetView> {
    if 0 <= index < entries.len() {
        Some(entries[index])
    } else {
        None
    }
}

/// The views of a sequence of snippets, place by place.
pub open spec fn views(items: Seq<Snippet>) -> Seq<SnippetView> {
    Seq::new(items.len(), |i: int| items[i]@)
}

/// An ordered collection of snippets, oldest first, that never holds more
/// than its capacity. Places are positions, not names: taking an entry out
/// moves the later ones down.
///
/// Reading borrows the store shared and changing it borrows it alone, so
/// whoever guards a store with a lock for readers and writers lets each
/// reader see it wholly before or wholly after a change.
pub struct SnippetStore {
    items: Vec<Snippet>,
    capacity: usize,
}

impl View for SnippetStore {
    type V = Seq<SnippetView>;

    closed spec fn view(&self) -> Seq<SnippetView> {
        views(self.items@)
    }
}

impl SnippetStore {
    #[verifier::type_invariant]
    spec fn inv(self) -> bool {
        1 <= self.capacity && self.items@.len() <= self.capacity
    }

    /// The most entries the store will hold.
    pub closed spec fn spec_capacity(&self) -> nat {
        self.capacity as nat
    }

    /// An empty store for at most `capacity` entries; none for a capacity
    /// of zero, which could hold nothing.
    pub fn new(capacity: usize) -> (store: Option<SnippetStore>)
        ensures
            capacity == 0 <==> store is None,
            store matches Some(s) ==> s@ == Seq::<SnippetView>::empty() && s.spec_capacity()
                == capacity,
    {
        if capacity == 0 {
            None
        } else {
            Some(SnippetStore { items: Vec::new(), capacity })
        }
    }

    /// The most entries the store will hold; at least one.
    pub fn capacity(&self) -> (c: usize)
        ensures
            c == self.spec_capacity(),
            c >= 1,
    {
        proof {
            use_type_invariant(self);
        }
        self.capacity
    }

    /// The number of entries held; never more than the capacity.
    pub fn len(&self) -> (n: usize)
        ensures
            n == self@.len(),
            n <= self.spec_capacity(),
    {
        proof {
            use_type_invariant(self);
        }
        self.items.len()
    }

    /// Whether the next `append` will push the oldest entry out.
    pub fn is_full(&self) -> (b: bool)
        ensures
            b == (self@.len() == self.spec_capacity()),
    {
        proof {
            use_type_invariant(self);
        }
        self.items.len() == self.capacity
    }

    /// The entries, oldest first.
    pub fn list(&self) -> (entries: &Vec<Snippet>)
        ensures
            views(entries@) == self@,
    {
        &self.items
    }

    /// The entry at `index`, if there is one. Changes nothing.
    pub fn get_at(&self, index: usize) -> (entry: Option<&Snippet>)
        ensures
            index < self@.len() <==> entry is Some,
            entry matches Some(e) ==> e@ == self@[index as int],
    {
        if index < self.items.len() {
            Some(&self.items[index])
        } else {
            None
        }
    }

    /// Adds `snippet` as the newest entry. A full store first lets its
    /// oldest entry go, and hands it back.
    pub fn append(&mut self, snippet: Snippet) -> (out: Option<Snippet>)
        ensures
            final(self)@ == appended(old(self)@, old(self).spec_capacity(), snippet@),
            final(self).spec_capacity() == old(self).spec_capacity(),
            final(self)@.len() <= final(self).spec_capacity(),
            out is Some <==> old(self)@.len() == old(self).spec_capacity(),
            out matches Some(e) ==> Some(e@) == evicted(old(self)@, old(self).spec_capacity()),
    {
        proof {
            use_type_invariant(&*self);
        }
        // the entries are taken out, changed and put back, so that the
        // store is within its bound at every step
        let mut items: Vec<Snippet> = Vec::new();
        std::mem::swap(&mut items, &mut self.items);
        let out = if items.len() < self.capacity {
            None
        } else {
            Some(items.remove(0))
        };
        items.push(snippet);
        self.items = items;
        out
    }

    /// Takes the entry at `index` out and hands it back; the later entries
    /// move down by one. An index past the end finds nothing and changes
    /// nothing.
    pub fn remove_at(&mut self, index: usize) -> (out: Option<Snippet>)
        ensures
            final(self)@ == removed(old(self)@, index as int),
            final(self).spec_capacity() == old(self).spec_capacity(),
            final(self)@.len() <= final(self).spec_capacity(),
            index < old(self)@.len() <==> out is Some,
            out matches Some(e) ==> e@ == old(self)@[index as int],
    {
        proof {
            use_type_invariant(&*self);
        }
        if index < self.items.len() {
            let mut items: Vec<Snippet> = Vec::new();
            std::mem::swap(&mut items, &mut self.items);
            let e = items.remove(index);
            self.items = items;
            Some(e)
        } else {
            None
        }
    }
}

/// What the entries are after each of `more` is appended in turn.
pub open spec fn appended_all(
    entries: Seq<SnippetView>,
    capacity: nat,
    more: Seq<SnippetView>,
) -> Seq<SnippetView>
    decreases more.len(),
{
    if more.len() == 0 {
        entries
    } else {
        appended(appended_all(entries, capacity, more.drop_last()), capacity, more.last())
    }
}

/// The last `count` of `entries`, or all of them if there are fewer.
pub open spec fn newest(entries: Seq<SnippetView>, count: nat) -> Seq<SnippetView> {
    if entries.len() <= count {
        entries
    } else {
        entries.subrange(entries.len() - count, entries.len() as int)
    }
}

/// One append never takes a store past its capacity.
pub proof fn lemma_append_within_capacity(
    entries: Seq<SnippetView>,
    capacity: nat,
    entry: SnippetView,
)
    requires
        1 <= capacity,
        entries.len() <= capacity,
    ensures
        1 <= appended(entries, capacity, entry).len() <= capacity,
{
}

/// However many entries are appended, the store is within its capacity
/// after each of them.
pub proof fn lemma_appends_within_capacity(
    entries: Seq<SnippetView>,
    capacity: nat,
    more: Seq<SnippetView>,
)
    requires
        1 <= capacity,
        entries.len() <= capacity,
    ensures
        forall|k: int|
            0 <= k <= more.len() ==> (#[trigger] appended_all(
                entries,
                capacity,
                more.take(k),
            )).len() <= capacity,
{
    assert forall|k: int| 0 <= k <= more.len() implies (#[trigger] appended_all(
        entries,
        capacity,
        more.take(k),
    )).len() <= capacity by {
        lemma_appended_all_is_newest(entries, capacity, more.take(k));
    }
}

/// Appending to a full store lets exactly the oldest entry go: every other
/// entry moves one place towards the head, in order, and the new entry is
/// the newest.
pub proof fn lemma_append_full_evicts_oldest(
    entries: Seq<SnippetView>,
    capacity: nat,
    entry: SnippetView,
)
    requires
        1 <= capacity,
        entries.len() == capacity,
    ensures
        evicted(entries, capacity) == Some(entries[0]),
        appended(entries, capacity, entry).len() == capacity,
        appended(entries, capacity, entry).last() == entry,
        forall|i: int|
            0 <= i < capacity - 1 ==> #[trigger] appended(entries, capacity, entry)[i]
                == entries[i + 1],
{
}

/// Appending to a store with room lets nothing go and keeps every entry in
/// its place.
pub proof fn lemma_append_with_room_keeps_all(
    entries: Seq<SnippetView>,
    capacity: nat,
    entry: SnippetView,
)
    requires
        entries.len() < capacity,
    ensures
        evicted(entries, capacity) is None,
        appended(entries, capacity, entry).len() == entries.len() + 1,
        appended(entries, capacity, entry).last() == entry,
        forall|i: int|
            0 <= i < entries.len() ==> #[trigger] appended(entries, capacity, entry)[i]
                == entries[i],
{
}

/// After any run of appends the store holds the newest entries of all that
/// it was given, as many as fit, in the order in which they came.
pub proof fn lemma_appended_all_is_newest(
    entries: Seq<SnippetView>,
    capacity: nat,
    more: Seq<SnippetView>,
)
    requires
        1 <= capacity,
        entries.len() <= capacity,
    ensures
        appended_all(entries, capacity, more) == newest(entries + more, capacity),
    decreases more.len(),
{
    if more.len() > 0 {
        lemma_appended_all_is_newest(entries, capacity, more.drop_last());
    }
}

/// A store that starts empty and is given one entry more than it can hold
/// ends with all but the first of them, in order.
pub proof fn lemma_one_past_capacity(capacity: nat, given: Seq<SnippetView>)
    requires
        1 <= capacity,
        given.len() == capacity + 1,
    ensures
        appended_all(Seq::empty(), capacity, given) == given.drop_first(),
{
    lemma_appended_all_is_newest(Seq::empty(), capacity, given);
}

/// Taking the entry at `index` out closes the gap: the entries before it
/// stay, and each later entry is found one place lower.
pub proof fn lemma_remove_compacts(entries: Seq<SnippetView>, index: int)
    requires
        0 <= index < entries.len(),
    ensures
        removed(entries, index).len() == entries.len() - 1,
        forall|i: int| 0 <= i < index ==> #[trigger] removed(entries, index)[i] == entries[i],
        forall|i: int|
            index <= i < entries.len() - 1 ==> #[trigger] removed(entries, index)[i]
                == entries[i + 1],
        index + 1 < entries.len() ==> entry_at(removed(entries, index), index) == Some(
            entries[index + 1],
        ),
{
}

/// Taking out at a place that holds nothing leaves the store as it was.
pub proof fn lemma_remove_past_end(entries: Seq<SnippetView>, index: int)
    requires
        index >= entries.len(),
    ensures
        removed(entries, index) == entries,
        entry_at(entries, index) is None,
{
}

} // verus!
