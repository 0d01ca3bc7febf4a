//! A cancellation signal that carries a value to whoever observes it.
//!
//! The token starts unfired, holding a default value. Firing records a value
//! and sets the signal for good; observers of a fired token all read the value
//! recorded last. Suspending a task until the signal is set is the caller's
//! business: this type answers what an observer sees at any given moment.

use vstd::prelude::*;

verus! {

/// A one-way signal together with the value delivered on it.
pub struct CancelWithValue<T> {
    fired: bool,
    value: T,
}

/// What a token amounts to: whether it has fired, and the value in its slot.
pub struct TokenState<T> {
    pub fired: bool,
    pub value: T,
}

impl<T> TokenState<T> {
    /// The token after `cancel(value)`: fired, with `value` in the slot.
    pub open spec fn fire(self, value: T) -> Self {
        TokenState { fired: true, value }
    }

    /// What an observer reads: the slot once the token has fired, and nothing
    /// before that.
    pub open spec fn observe(self) -> Option<T> {
        if self.fired {
            Some(self.value)
        } else {
            None
        }
    }

    /// The token after firing with each value of `values` in turn.
    pub open spec fn fire_all(self, values: Seq<T>) -> Self
        decreases values.len(),
    {
        if values.len() == 0 {
            self
        } else {
            self.fire_all(values.drop_last()).fire(values.last())
        }
    }
}

impl<T> View for CancelWithValue<T> {
    type V = TokenState<T>;

    closed spec fn view(&self) -> TokenState<T> {
        TokenState { fired: self.fired, value: self.value }
    }
}

impl<T: Clone + Default> CancelWithValue<T> {
    /// Builds an unfired token whose slot holds `T::default()`.
    pub fn new() -> (token: Self)
        ensures
            !token@.fired,
            token@.observe() is None,
            call_ensures(T::default, (), token@.value),
    {
        CancelWithValue { fired: false, value: T::default() }
    }
}

impl<T: Clone> CancelWithValue<T> {
    /// Fires the token with `value`. Firing again overwrites the value; the
    /// signal stays set.
    pub fn cancel(&mut self, value: T)
        ensures
            final(self)@ == old(self)@.fire(value),
    {
        self.value = value;
        self.fired = true;
    }

    /// Tells whether the token has fired.
    pub fn is_cancelled(&self) -> (fired: bool)
        ensures
            fired == self@.fired,
    {
        self.fired
    }

    /// What a waiter is woken with: a clone of the recorded value once the
    /// token has fired, `None` while it has not.
    pub fn cancelled(&self) -> (seen: Option<T>)
        ensures
            (seen is Some) == (self@.observe() is Some),
            seen matches Some(v) ==> cloned(self@.observe()->0, v),
    {
        if self.fired {
            Some(self.value.clone())
        } else {
            None
        }
    }
}

/// Once a token has been fired with `value`, every observation yields `value`,
/// whatever the token held before and however often it is observed.
pub proof fn lemma_observe_after_fire<T>(before: TokenState<T>, value: T)
    ensures
        before.fire(value).fired,
        before.fire(value).observe() == Some(value),
{
}

/// Firing is idempotent in effect: after any non-empty series of firings the
/// token is fired and observers read the value of the last one.
pub proof fn lemma_last_fire_wins<T>(before: TokenState<T>, values: Seq<T>)
    requires
        values.len() > 0,
    ensures
        before.fire_all(values).fired,
        before.fire_all(values).observe() == Some(values.last()),
{
}

/// A fired token never returns to the unfired state, whatever is fired next.
pub proof fn lemma_fired_stays_fired<T>(before: TokenState<T>, values: Seq<T>)
    requires
        before.fired,
    ensures
        before.fire_all(values).fired,
    decreases values.len(),
{
    if values.len() > 0 {
        lemma_fired_stays_fired(before, values.drop_last());
    }
}

} // verus!
