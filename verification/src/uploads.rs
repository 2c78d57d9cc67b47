//! The source of blob keys.

use vstd::prelude::*;

verus! {

/// The key that a counter standing at `issued` hands out next: the number
/// of keys handed out so far, while one is left.
pub open spec fn next_key(issued: nat) -> Option<usize> {
    if issued < usize::MAX {
        Some(issued as usize)
    } else {
        None
    }
}

/// Where a counter standing at `issued` stands after it was asked for a
/// key.
pub open spec fn after_key(issued: nat) -> nat {
    if issued < usize::MAX {
        issued + 1
    } else {
        issued
    }
}

/// Where a counter standing at `issued` stands after it was asked for a key
/// `times` times.
pub open spec fn after_keys(issued: nat, times: nat) -> nat
    decreases times,
{
    if times == 0 {
        issued
    } else {
        after_key(after_keys(issued, (times - 1) as nat))
    }
}

/// Hands out the keys under which uploaded blobs are stored. A key is never
/// handed out twice and the count never goes back; a counter that has
/// nothing left says so and stays as it is.
pub struct UploadCounter {
    next: usize,
}

impl View for UploadCounter {
    type V = nat;

    /// The number of keys handed out so far.
    closed spec fn view(&self) -> nat {
        self.next as nat
    }
}

impl UploadCounter {
    /// A counter that has handed out nothing.
    pub fn new() -> (counter: UploadCounter)
        ensures
            counter@ == 0,
    {
        UploadCounter { next: 0 }
    }

    /// The number of keys handed out so far. Every key handed out is below
    /// it.
    pub fn issued(&self) -> (n: usize)
        ensures
            n == self@,
    {
        self.next
    }

    /// Hands out the next key, or nothing when none is left.
    pub fn allocate(&mut self) -> (key: Option<usize>)
        ensures
            key == next_key(old(self)@),
            final(self)@ == after_key(old(self)@),
    {
        if self.next < usize::MAX {
            let key = self.next;
            self.next = key + 1;
            Some(key)
        } else {
            None
        }
    }
}

/// The count never goes back, and a key that was handed out lies below the
/// count that follows.
pub proof fn lemma_count_grows(issued: nat)
    ensures
        issued <= after_key(issued),
        next_key(issued) matches Some(key) ==> key == issued && after_key(issued) == issued + 1,
        next_key(issued) is None ==> after_key(issued) == issued,
{
}

/// Asking again and again never takes the count back.
pub proof fn lemma_count_never_falls(issued: nat, times: nat)
    ensures
        issued <= after_keys(issued, times),
    decreases times,
{
    if times > 0 {
        lemma_count_never_falls(issued, (times - 1) as nat);
    }
}

/// No key is handed out twice: a key handed out after any number of
/// further requests is larger than one handed out before them.
pub proof fn lemma_keys_never_repeat(issued: nat, between: nat)
    ensures
        next_key(issued) is Some && next_key(after_keys(after_key(issued), between)) is Some
            ==> next_key(issued)->0 < next_key(after_keys(after_key(issued), between))->0,
{
    lemma_count_never_falls(after_key(issued), between);
}

} // verus!
