//! The visit counter.
//!
//! A counter only ever moves by one step, [`visit_number`]: from the count
//! that was there to the next one. [`VisitCounter`] takes that step for a
//! single owner and says exactly what it returns. [`SharedCounter`] takes the
//! same step on an atomic cell, so that any number of handlers may call it at
//! once without a lock. The laws at the end of this file describe every
//! sequence of steps, which is what concurrent callers of an atomic cell
//! observe: their calls take effect one after another, in some order.
//!
//! Overflow: a count wraps to zero after `usize::MAX`.

use vstd::prelude::*;
use std::sync::atomic::AtomicUsize;
use std::sync::atomic::Ordering;

verus! {

/// The count that follows `previous`: one more, or zero after `usize::MAX`.
pub open spec fn spec_visit_number(previous: nat) -> nat {
    if previous >= usize::MAX {
        0
    } else {
        previous + 1
    }
}

/// The count after one increment of a counter that held `previous`. This is
/// the value that the incrementing call reports.
pub fn visit_number(previous: usize) -> (number: usize)
    ensures
        number == spec_visit_number(previous as nat),
{
    if previous == usize::MAX {
        0
    } else {
        previous + 1
    }
}

/// A visit counter with one owner.
#[derive(Debug)]
pub struct VisitCounter {
    count: usize,
}

impl View for VisitCounter {
    type V = nat;

    /// The number of increments so far (modulo wrapping).
    closed spec fn view(&self) -> nat {
        self.count as nat
    }
}

impl VisitCounter {
    /// A counter that has counted nothing.
    pub fn new() -> (counter: Self)
        ensures
            counter@ == 0,
    {
        VisitCounter { count: 0 }
    }

    /// The current count. Reading leaves the counter as it is: any number of
    /// reads with no increment between them return the same value.
    pub fn current(&self) -> (count: usize)
        ensures
            count == self@,
    {
        self.count
    }

    /// Counts one visit and returns the count after it.
    pub fn increment_and_get(&mut self) -> (number: usize)
        ensures
            final(self)@ == spec_visit_number(old(self)@),
            number == final(self)@,
    {
        self.count = visit_number(self.count);
        self.count
    }
}

/// A visit counter that any number of callers may share.
///
/// The count lives in an atomic cell. The verifier does not see the value
/// behind a shared reference to such a cell, so the methods below carry no
/// postcondition on the value; [`visit_number`] states what an increment
/// returns for each value that the cell may have held.
pub struct SharedCounter {
    cell: AtomicUsize,
}

impl SharedCounter {
    /// A counter that has counted nothing.
    pub fn new() -> Self {
        SharedCounter { cell: AtomicUsize::new(0) }
    }

    /// Counts one visit and returns the count after it. The increment is one
    /// atomic read-modify-write: no increment is lost, and the calls take
    /// effect in some order, each seeing the count that the one before left.
    pub fn increment_and_get(&self) -> usize {
        let previous = self.cell.fetch_add(1, Ordering::Relaxed);
        visit_number(previous)
    }

    /// The current count, without counting a visit.
    pub fn current(&self) -> usize {
        self.cell.load(Ordering::Relaxed)
    }
}

/// The values that `n` increments return, one after another, on a counter
/// that holds `start`.
pub open spec fn returned_values(start: nat, n: nat) -> Seq<nat>
    decreases n,
{
    if n == 0 {
        Seq::empty()
    } else {
        seq![spec_visit_number(start)] + returned_values(spec_visit_number(start), (n - 1) as nat)
    }
}

/// The count that `n` increments leave on a counter that holds `start`.
pub open spec fn count_after(start: nat, n: nat) -> nat
    decreases n,
{
    if n == 0 {
        start
    } else {
        count_after(spec_visit_number(start), (n - 1) as nat)
    }
}

/// As long as the count does not wrap, the `i`-th of `n` increments returns
/// `start + i + 1`, and the counter ends at `start + n`.
pub proof fn lemma_returned_values_from(start: nat, n: nat)
    requires
        start + n <= usize::MAX,
    ensures
        returned_values(start, n).len() == n,
        forall|i: int| 0 <= i < n ==> #[trigger] returned_values(start, n)[i] == start + i + 1,
        count_after(start, n) == start + n,
    decreases n,
{
    if n > 0 {
        lemma_returned_values_from(spec_visit_number(start), (n - 1) as nat);
    }
}

/// Linearizable counting: `n` increments of a fresh counter return exactly
/// the values `1, 2, ..., n`, each once, with no gap and no duplicate.
pub proof fn lemma_fresh_counter_counts_up(n: nat)
    requires
        n <= usize::MAX,
    ensures
        returned_values(0, n) == Seq::new(n, |i: int| (i + 1) as nat),
        returned_values(0, n).no_duplicates(),
        forall|v: nat|
            #![trigger returned_values(0, n).to_multiset().count(v)]
            returned_values(0, n).to_multiset().count(v) == if 1 <= v <= n {
                1nat
            } else {
                0nat
            },
{
    let values = returned_values(0, n);
    lemma_returned_values_from(0, n);
    assert forall|v: nat|
        #![trigger values.to_multiset().count(v)]
        values.to_multiset().count(v) == if 1 <= v <= n {
            1nat
        } else {
            0nat
        } by {
        values.to_multiset_ensures();
        if 1 <= v <= n {
            assert(values[v - 1] == v);
            values.lemma_multiset_has_no_duplicates();
        }
    }
}

/// A counter is never decremented: until it wraps, every increment returns
/// more than the one before it.
pub proof fn lemma_returned_values_increase(start: nat, n: nat, i: int, j: int)
    requires
        start + n <= usize::MAX,
        0 <= i < j < n,
    ensures
        returned_values(start, n)[i] < returned_values(start, n)[j],
{
    lemma_returned_values_from(start, n);
}

} // verus!
