//! Connection admission control.
//!
//! A process-wide counter bounds the number of concurrently bridged
//! connections. The counter itself is plain state: the caller serialises
//! access to it (the relay keeps it behind one mutual-exclusion lock), so
//! every method here describes one atomic check-and-update step.

use vstd::prelude::*;

verus! {

/// What one admission attempt does to a count of `count` under a ceiling of
/// `max`: at the ceiling it changes nothing and fails, below it it
/// increments and succeeds.
pub open spec fn spec_try_admit(count: u16, max: u16) -> (u16, bool) {
    if count < max {
        ((count + 1) as u16, true)
    } else {
        (count, false)
    }
}

/// What releasing one admission slot does to the count.
pub open spec fn spec_release(count: u16) -> u16
    recommends
        count >= 1,
{
    (count - 1) as u16
}

/// The count after `attempts` admission attempts in a row, starting from
/// `count`, with no release in between.
pub open spec fn spec_count_after_attempts(count: u16, max: u16, attempts: nat) -> u16
    decreases attempts,
{
    if attempts == 0 {
        count
    } else {
        spec_try_admit(spec_count_after_attempts(count, max, (attempts - 1) as nat), max).0
    }
}

/// The count after `pairs` rounds of one admission attempt followed, when
/// the attempt succeeded, by the release that the admitted connection owes.
pub open spec fn spec_count_after_pairs(count: u16, max: u16, pairs: nat) -> u16
    decreases pairs,
{
    if pairs == 0 {
        count
    } else {
        let (c, admitted) = spec_try_admit(spec_count_after_pairs(count, max, (pairs - 1) as nat), max);
        if admitted {
            spec_release(c)
        } else {
            c
        }
    }
}

/// The number of concurrently admitted connections.
///
/// Incremented on successful admission, decremented on connection teardown;
/// every admitted connection releases its slot exactly once.
pub struct AdmissionCounter {
    pub count: u16,
}

impl AdmissionCounter {
    /// A fresh counter: no connection admitted.
    pub fn new() -> (c: Self)
        ensures
            c.count == 0,
    {
        AdmissionCounter { count: 0 }
    }

    /// One admission attempt under the ceiling `max`: fails without
    /// mutation at the ceiling, otherwise takes a slot and succeeds.
    pub fn try_admit(&mut self, max: u16) -> (admitted: bool)
        ensures
            (final(self).count, admitted) == spec_try_admit(old(self).count, max),
            admitted <==> old(self).count < max,
            admitted ==> final(self).count == old(self).count + 1,
            !admitted ==> final(self).count == old(self).count,
    {
        if self.count >= max {
            return false;
        }
        self.count = self.count + 1;
        true
    }

    /// Gives one admission slot back. Owed exactly once per successful
    /// admission, on every exit path of the connection.
    pub fn release(&mut self)
        requires
            old(self).count >= 1,
        ensures
            final(self).count == spec_release(old(self).count),
            final(self).count == old(self).count - 1,
    {
        self.count = self.count - 1;
    }
}

/// From an empty counter, `attempts` admission attempts in a row admit
/// exactly `min(attempts, max)` connections: the count after them is
/// `attempts` until the ceiling is reached and `max` from then on.
pub proof fn lemma_admission_count(max: u16, attempts: nat)
    ensures
        spec_count_after_attempts(0, max, attempts) as int == if attempts <= max as nat {
            attempts as int
        } else {
            max as int
        },
    decreases attempts,
{
    if attempts > 0 {
        lemma_admission_count(max, (attempts - 1) as nat);
    }
}

/// From an empty counter, of `attempts + 1` admission attempts in a row the
/// last succeeds exactly when fewer than `max` came before it: the first
/// `max` attempts are admitted and every later one is refused.
pub proof fn lemma_admission_ceiling(max: u16, attempts: nat)
    ensures
        spec_try_admit(spec_count_after_attempts(0, max, attempts), max).1 <==> attempts < max as nat,
{
    lemma_admission_count(max, attempts);
}

/// A release from a full counter reopens admission: the next attempt after
/// it succeeds.
pub proof fn lemma_release_reopens(count: u16, max: u16)
    requires
        1 <= count,
        count <= max,
    ensures
        spec_try_admit(spec_release(count), max).1,
{
}

/// Admit/release pairs change nothing in aggregate: after any number of
/// rounds of one attempt followed by the release it owes, the count is back
/// at its prior value.
pub proof fn lemma_pairs_preserve_count(count: u16, max: u16, pairs: nat)
    ensures
        spec_count_after_pairs(count, max, pairs) == count,
    decreases pairs,
{
    if pairs > 0 {
        lemma_pairs_preserve_count(count, max, (pairs - 1) as nat);
    }
}

} // verus!
