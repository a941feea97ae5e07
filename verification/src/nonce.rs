//! Nonce allocation: a strictly increasing, gap-free sequence of nonces
//! starting from a known baseline.

use vstd::prelude::*;

verus! {

/// Produces the nonces `baseline, baseline + 1, ...`, one per submission,
/// in submission order. The ghost sequence records every issued nonce.
pub struct NonceAllocator {
    baseline: u64,
    next: u64,
    issued: Ghost<Seq<u64>>,
}

impl NonceAllocator {
    /// The baseline the counter started from.
    pub closed spec fn baseline_spec(&self) -> u64 {
        self.baseline
    }

    /// The next nonce to be issued.
    pub closed spec fn next_spec(&self) -> u64 {
        self.next
    }

    /// Every nonce issued so far, in order of issuance.
    pub closed spec fn issued_seq(&self) -> Seq<u64> {
        self.issued@
    }

    /// The counter never moves below the baseline, and the record of issued
    /// nonces is exactly the gap-free ascending range from the baseline to
    /// the counter.
    pub closed spec fn wf(&self) -> bool {
        &&& self.baseline <= self.next
        &&& self.issued@.len() == self.next - self.baseline
        &&& forall|i: int|
            0 <= i < self.issued@.len() ==> #[trigger] self.issued@[i] == self.baseline + i
    }

    /// A well-formed allocator's record is the gap-free ascending range
    /// from the baseline to the counter.
    pub proof fn lemma_issued_range(&self)
        requires
            self.wf(),
        ensures
            self.issued_seq().len() == self.next_spec() - self.baseline_spec(),
            forall|i: int|
                0 <= i < self.issued_seq().len() ==> #[trigger] self.issued_seq()[i]
                    == self.baseline_spec() + i,
    {
    }

    /// A fresh allocator that will issue `baseline` first.
    pub fn new(baseline: u64) -> (r: Self)
        ensures
            r.wf(),
            r.baseline_spec() == baseline,
            r.next_spec() == baseline,
            r.issued_seq() == Seq::<u64>::empty(),
    {
        NonceAllocator { baseline, next: baseline, issued: Ghost(Seq::empty()) }
    }

    /// Returns the next unused nonce and advances the counter by exactly
    /// one.
    pub fn allocate(&mut self) -> (n: u64)
        requires
            old(self).wf(),
            old(self).next_spec() < u64::MAX,
        ensures
            final(self).wf(),
            n == old(self).next_spec(),
            final(self).next_spec() == n + 1,
            final(self).baseline_spec() == old(self).baseline_spec(),
            final(self).issued_seq() == old(self).issued_seq().push(n),
    {
        let n = self.next;
        self.next = n + 1;
        proof {
            self.issued@ = self.issued@.push(n);
        }
        n
    }
}

} // verus!
