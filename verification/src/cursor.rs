//! Candidate address sets and the failover cursor.
//!
//! An [`AddressSet`] is the ordered list of backend instance addresses that
//! discovery produced for one logical operation. A [`FailoverCursor`] is a
//! rotating pointer into such a set: each recoverable failure advances it,
//! wrapping modulo the set length, so repeated failures walk round-robin
//! through every candidate.

use vstd::arithmetic::div_mod::{
    lemma_add_mod_noop, lemma_mod_bound, lemma_mod_self_0, lemma_small_mod,
};
use vstd::prelude::*;

verus! {

/// An ordered sequence of candidate backend addresses (host:port strings),
/// owned by the logical operation that resolved it.
#[derive(Debug, Clone)]
pub struct AddressSet {
    addrs: Vec<String>,
}

impl View for AddressSet {
    type V = Seq<String>;

    closed spec fn view(&self) -> Seq<String> {
        self.addrs@
    }
}

impl AddressSet {
    /// Wraps a resolved list of addresses, in the order given.
    pub fn new(addrs: Vec<String>) -> (r: AddressSet)
        ensures
            r@ == addrs@,
    {
        AddressSet { addrs }
    }

    /// A set with no candidates, the result of a failed discovery.
    pub fn empty() -> (r: AddressSet)
        ensures
            r@.len() == 0,
    {
        AddressSet { addrs: Vec::new() }
    }

    pub fn len(&self) -> (n: usize)
        ensures
            n == self@.len(),
    {
        self.addrs.len()
    }

    /// An empty set means "service unavailable": it must never be indexed.
    pub fn is_empty(&self) -> (b: bool)
        ensures
            b == (self@.len() == 0),
    {
        self.addrs.len() == 0
    }
}

/// The failure a cursor constructor reports when given an empty address set.
#[derive(Debug, Clone, PartialEq, Eq)]
pub struct InvalidState;

/// A rotating pointer over a non-empty address set, scoped to one logical
/// operation. The index always stays below the set length: it is advanced
/// only by wrapping modulo arithmetic, so `current` never indexes out of
/// bounds.
#[derive(Debug, Clone)]
pub struct FailoverCursor {
    addrs: AddressSet,
    index: usize,
}

/// The index reached after `m` advances from `start` over `n` candidates.
pub open spec fn index_after_advances(start: int, m: nat, n: int) -> int
    recommends
        0 < n,
{
    (start + m) % n
}

impl FailoverCursor {
    /// The cursor's structural invariant: a non-empty candidate list and an
    /// index strictly inside it.
    pub closed spec fn well_formed(&self) -> bool {
        self.addrs@.len() > 0 && (self.index as int) < self.addrs@.len()
    }

    /// The candidates the cursor rotates over.
    pub closed spec fn addresses(&self) -> Seq<String> {
        self.addrs@
    }

    /// The current position.
    pub closed spec fn position(&self) -> int {
        self.index as int
    }

    /// What well-formedness guarantees: a non-empty set and an in-bounds
    /// position.
    pub proof fn lemma_bounds(&self)
        requires
            self.well_formed(),
        ensures
            0 < self.addresses().len(),
            0 <= self.position() < self.addresses().len(),
    {
    }

    /// Builds a cursor at index 0. Fails on an empty set: an empty set may
    /// never be dispatched against, so there is no valid initial position.
    pub fn new(addrs: AddressSet) -> (r: Result<FailoverCursor, InvalidState>)
        ensures
            addrs@.len() == 0 <==> r is Err,
            r matches Ok(c) ==> c.well_formed() && c.addresses() == addrs@ && c.position() == 0,
    {
        if addrs.is_empty() {
            Err(InvalidState)
        } else {
            Ok(FailoverCursor { addrs, index: 0 })
        }
    }

    /// The current index into the candidate list.
    pub fn index(&self) -> (i: usize)
        ensures
            i as int == self.position(),
    {
        self.index
    }

    /// The address the next attempt should dispatch to.
    pub fn current(&self) -> (a: &String)
        requires
            self.well_formed(),
        ensures
            *a == self.addresses()[self.position()],
    {
        &self.addrs.addrs[self.index]
    }

    /// Rotates to the next candidate, wrapping modulo the set length.
    pub fn advance(&mut self)
        requires
            old(self).well_formed(),
        ensures
            final(self).well_formed(),
            final(self).addresses() == old(self).addresses(),
            final(self).position() == (old(self).position() + 1) % (old(self).addresses().len() as int),
    {
        let len = self.addrs.addrs.len();
        proof {
            lemma_mod_bound(self.index as int + 1, len as int);
        }
        self.index = (self.index + 1) % len;
    }

    /// Rotates `m` times in a row, landing where `m` single advances land.
    pub fn advance_times(&mut self, m: usize)
        requires
            old(self).well_formed(),
        ensures
            final(self).well_formed(),
            final(self).addresses() == old(self).addresses(),
            final(self).position() == index_after_advances(
                old(self).position(),
                m as nat,
                old(self).addresses().len() as int,
            ),
    {
        let ghost start = self.position();
        let ghost n = self.addresses().len() as int;
        proof {
            lemma_small_mod(start as nat, n as nat);
        }
        let mut i: usize = 0;
        while i < m
            invariant
                i <= m,
                self.well_formed(),
                self.addresses() == old(self).addresses(),
                0 <= start < n,
                n == self.addresses().len() as int,
                self.position() == index_after_advances(start, i as nat, n),
            decreases m - i,
        {
            self.advance();
            proof {
                lemma_advance_step(start, i as nat, n);
            }
            i = i + 1;
        }
    }
}

/// One more advance from the position reached after `m` advances lands on
/// the position reached after `m + 1` advances.
pub proof fn lemma_advance_step(start: int, m: nat, n: int)
    requires
        0 < n,
        0 <= start,
    ensures
        (index_after_advances(start, m, n) + 1) % n == index_after_advances(start, m + 1, n),
{
    lemma_add_mod_noop(start + m, 1, n);
    if n == 1 {
        lemma_mod_bound(start + m, 1);
        lemma_mod_bound(1, 1);
        lemma_mod_bound(start + m + 1, 1);
    } else {
        lemma_small_mod(1nat, n as nat);
    }
}

/// Law: over a set of `n` candidates, advancing from index 0 visits every
/// index — after `m < n` advances the cursor stands at index `m` — and the
/// `n`-th advance returns it to index 0.
pub proof fn lemma_rotation_cycles(n: int)
    requires
        1 <= n,
    ensures
        forall|m: nat| m < n ==> index_after_advances(0, m, n) == m,
        index_after_advances(0, n as nat, n) == 0,
{
    assert forall|m: nat| m < n implies index_after_advances(0, m, n) == m by {
        lemma_small_mod(m, n as nat);
    }
    lemma_mod_self_0(n);
}

} // verus!
