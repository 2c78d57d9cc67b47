//! The signal that the store has changed.

use vstd::prelude::*;
use vstd::arithmetic::div_mod::{
    lemma_fundamental_div_mod, lemma_mod_bound, lemma_mod_multiples_basic,
    lemma_mod_multiples_vanish, lemma_small_mod,
};

verus! {

/// The generation that follows `generation`: one more, and at the largest
/// value back to zero.
pub open spec fn signalled(generation: u64) -> u64 {
    if generation == u64::MAX {
        0
    } else {
        (generation + 1) as u64
    }
}

/// The generation reached from `generation` by `times` signals.
pub open spec fn signalled_times(generation: u64, times: nat) -> u64
    decreases times,
{
    if times == 0 {
        generation
    } else {
        signalled(signalled_times(generation, (times - 1) as nat))
    }
}

/// Whether one who began to wait in generation `since` is let go in
/// generation `now`.
pub open spec fn released_in(now: u64, since: u64) -> bool {
    now != since
}

/// Tells everyone who waits that the store has changed. It carries no
/// message and keeps no record for those who come later: a signal reaches
/// exactly those who were waiting when it was given.
pub struct ChangeNotifier {
    generation: u64,
}

/// The place of one subscriber in the waiting line: it records when the
/// subscriber began to wait.
pub struct Waiter {
    since: u64,
}

impl View for ChangeNotifier {
    type V = u64;

    /// The generation: it changes with every signal.
    closed spec fn view(&self) -> u64 {
        self.generation
    }
}

impl View for Waiter {
    type V = u64;

    /// The generation in which the subscriber began to wait.
    closed spec fn view(&self) -> u64 {
        self.since
    }
}

impl ChangeNotifier {
    /// A notifier that has given no signal.
    pub fn new() -> (notifier: ChangeNotifier)
        ensures
            notifier@ == 0,
    {
        ChangeNotifier { generation: 0 }
    }

    /// Lets go everyone who is waiting now. Never waits itself.
    pub fn notify(&mut self)
        ensures
            final(self)@ == signalled(old(self)@),
    {
        if self.generation == u64::MAX {
            self.generation = 0;
        } else {
            self.generation = self.generation + 1;
        }
    }

    /// Begins to wait: the subscriber is held until the next signal, and
    /// signals given before this call do not count.
    pub fn wait(&self) -> (waiter: Waiter)
        ensures
            waiter@ == self@,
            !released_in(self@, waiter@),
    {
        Waiter { since: self.generation }
    }

    /// Whether a signal was given since `waiter` began to wait.
    pub fn released(&self, waiter: &Waiter) -> (b: bool)
        ensures
            b == released_in(self@, waiter@),
    {
        self.generation != waiter.since
    }
}

/// The generation after `times` signals is the sum, counted round the
/// range of the generation.
pub proof fn lemma_signalled_times_wraps(generation: u64, times: nat)
    ensures
        signalled_times(generation, times) == (generation + times) % 0x1_0000_0000_0000_0000,
    decreases times,
{
    let m: int = 0x1_0000_0000_0000_0000;
    if times == 0 {
        lemma_small_mod(generation as nat, m as nat);
    } else {
        let before = signalled_times(generation, (times - 1) as nat);
        lemma_signalled_times_wraps(generation, (times - 1) as nat);
        let sum: int = generation + times - 1;
        lemma_fundamental_div_mod(sum, m);
        lemma_mod_bound(sum, m);
        if before == u64::MAX {
            assert(sum + 1 == m * (sum / m + 1)) by (nonlinear_arith)
                requires
                    sum == m * (sum / m) + (m - 1),
            ;
            lemma_mod_of_multiple(sum / m + 1, m);
        } else {
            lemma_mod_shift(sum / m, before as int + 1, m);
        }
    }
}

proof fn lemma_mod_of_multiple(q: int, m: int)
    requires
        m > 0,
    ensures
        (m * q) % m == 0,
{
    lemma_mod_multiples_basic(q, m);
    assert(m * q == q * m) by (nonlinear_arith);
}

proof fn lemma_mod_shift(q: int, r: int, m: int)
    requires
        m > 0,
        0 <= r < m,
    ensures
        (m * q + r) % m == r,
{
    lemma_mod_multiples_vanish(q, r, m);
    lemma_small_mod(r as nat, m as nat);
}

/// One who waits is held as long as no signal is given, and is let go by
/// the first signal. This holds of everyone who began to wait in that
/// generation: one signal lets them all go.
pub proof fn lemma_held_until_first_signal(generation: u64)
    ensures
        !released_in(generation, generation),
        released_in(signalled(generation), generation),
{
}

/// One who waits is let go once a signal was given, however many followed
/// it: any number of signals short of the whole range of the generation.
pub proof fn lemma_released_after_signals(generation: u64, times: nat)
    requires
        1 <= times < 0x1_0000_0000_0000_0000,
    ensures
        released_in(signalled_times(generation, times), generation),
{
    let m: int = 0x1_0000_0000_0000_0000;
    lemma_signalled_times_wraps(generation, times);
    let sum: int = generation + times;
    if sum < m {
        lemma_small_mod(sum as nat, m as nat);
    } else {
        lemma_mod_shift(1, sum - m, m);
    }
}

/// One who begins to wait after a signal is not let go by it: what was
/// signalled before is not kept.
pub proof fn lemma_past_signal_not_seen(generation: u64, times: nat)
    ensures
        !released_in(signalled_times(generation, times), signalled_times(generation, times)),
{
}

} // verus!
