//! A cell whose payload can be claimed exactly once.
//!
//! A producer publishes a resource by building the cell; a consumer later
//! claims it. Exclusive access (`&mut self`) stands for the lock that a
//! concurrent holder puts around the cell: every operation below is one
//! critical section, and the contracts describe the cell before and after it.

use vstd::prelude::*;

verus! {

/// Holds a payload until the first claim removes it.
pub struct TakeOnce<T: Send + Sync> {
    value: Option<T>,
}

impl<T: Send + Sync> View for TakeOnce<T> {
    type V = Option<T>;

    /// `Some(payload)` while the cell is unclaimed, `None` afterwards.
    closed spec fn view(&self) -> Option<T> {
        self.value
    }
}

/// One claim on a cell whose contents are `cell`: what the claimant receives,
/// and what the cell holds afterwards.
pub open spec fn claim<T>(cell: Option<T>) -> (Option<T>, Option<T>) {
    (cell, None)
}

/// What `attempts` successive claims yield on a cell whose contents are `cell`.
pub open spec fn claim_results<T>(cell: Option<T>, attempts: nat) -> Seq<Option<T>>
    decreases attempts,
{
    if attempts == 0 {
        Seq::empty()
    } else {
        seq![claim(cell).0] + claim_results(claim(cell).1, (attempts - 1) as nat)
    }
}

/// How many entries of `results` carry a payload.
pub open spec fn successes<T>(results: Seq<Option<T>>) -> nat
    decreases results.len(),
{
    if results.len() == 0 {
        0
    } else {
        successes(results.drop_last()) + if results.last() is Some {
            1nat
        } else {
            0nat
        }
    }
}

impl<T> TakeOnce<T> where T: Send + Sync {
    /// Builds an unclaimed cell around `value`.
    pub fn new(value: T) -> (cell: Self)
        ensures
            cell@ == Some(value),
    {
        TakeOnce { value: Some(value) }
    }

    /// Tells whether the payload has already been claimed.
    pub fn is_taken(&self) -> (taken: bool)
        ensures
            taken == (self@ is None),
    {
        self.value.is_none()
    }

    /// Applies `f` to the payload without claiming it.
    pub fn peek<F, R>(&self, f: F) -> (r: R) where F: FnOnce(&T) -> R
        requires
            self@ is Some,
            call_requires(f, (&self@->0,)),
        ensures
            call_ensures(f, (&self@->0,), r),
    {
        let payload: &T = self.value.as_ref().unwrap();
        f(payload)
    }

    /// Claims the payload of an unclaimed cell and leaves the cell empty.
    pub fn take(&mut self) -> (v: T)
        requires
            old(self)@ is Some,
        ensures
            (Some(v), final(self)@) == claim(old(self)@),
    {
        self.value.take().unwrap()
    }

    /// One claim attempt on a cell in any state: yields the payload if the
    /// cell still holds it, and leaves the cell empty either way.
    pub fn try_take(&mut self) -> (r: Option<T>)
        ensures
            (r, final(self)@) == claim(old(self)@),
    {
        self.value.take()
    }
}

/// Among any number of successive claims on a freshly built cell, exactly one
/// succeeds: the first, and it yields the payload the cell was built with.
/// Every later claim yields nothing.
pub proof fn lemma_exactly_one_claim<T>(value: T, attempts: nat)
    requires
        attempts >= 1,
    ensures
        claim_results(Some(value), attempts).len() == attempts,
        claim_results(Some(value), attempts)[0] == Some(value),
        forall|i: int| 1 <= i < attempts ==> claim_results(Some(value), attempts)[i] is None,
        successes(claim_results(Some(value), attempts)) == 1,
    decreases attempts,
{
    lemma_claims_on_empty::<T>((attempts - 1) as nat);
    let rest = claim_results(None::<T>, (attempts - 1) as nat);
    let all = claim_results(Some(value), attempts);
    assert(all == seq![Some(value)] + rest);
    if attempts == 1 {
        assert(all.drop_last() =~= Seq::<Option<T>>::empty());
        assert(successes(all.drop_last()) == 0);
    } else {
        lemma_exactly_one_claim(value, (attempts - 1) as nat);
        let shorter = claim_results(Some(value), (attempts - 1) as nat);
        lemma_claims_on_empty::<T>((attempts - 2) as nat);
        lemma_empty_claims_extend::<T>((attempts - 2) as nat);
        assert(all.drop_last() =~= shorter);
        assert(all.last() is None);
    }
}

/// Claims on an empty cell never yield a payload.
pub proof fn lemma_claims_on_empty<T>(attempts: nat)
    ensures
        claim_results(None::<T>, attempts).len() == attempts,
        forall|i: int| 0 <= i < attempts ==> claim_results(None::<T>, attempts)[i] is None,
        successes(claim_results(None::<T>, attempts)) == 0,
    decreases attempts,
{
    if attempts > 0 {
        lemma_claims_on_empty::<T>((attempts - 1) as nat);
        lemma_empty_claims_extend::<T>((attempts - 1) as nat);
        let all = claim_results(None::<T>, attempts);
        let shorter = claim_results(None::<T>, (attempts - 1) as nat);
        assert(all.drop_last() =~= shorter);
    }
}

proof fn lemma_empty_claims_extend<T>(attempts: nat)
    ensures
        claim_results(None::<T>, attempts + 1) =~= claim_results(None::<T>, attempts).push(
            None::<T>,
        ),
    decreases attempts,
{
    reveal_with_fuel(claim_results, 2);
    if attempts > 0 {
        lemma_empty_claims_extend::<T>((attempts - 1) as nat);
        let prev = claim_results(None::<T>, (attempts - 1) as nat);
        assert(claim_results(None::<T>, attempts) =~= seq![None::<T>] + prev);
        assert(claim_results(None::<T>, attempts + 1) =~= seq![None::<T>] + claim_results(
            None::<T>,
            attempts,
        ));
    }
}

} // verus!
