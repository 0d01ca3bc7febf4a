//! The unclaimed form of a stream: its two halves, each in a cell of its own.
//!
//! A pairing is built when a stream is discovered and claimed once by the
//! consumer. A receive-only stream has no write half; its write cell holds an
//! explicit `None` so that the absence can be read off before the claim.

use crate::take_once::TakeOnce;
use vstd::prelude::*;

verus! {

/// The halves of a stream before it is claimed. `S` is the write half, `R`
/// the read half.
pub struct PartialStream<S: Send + Sync, R: Send + Sync> {
    send: TakeOnce<Option<S>>,
    recv: TakeOnce<R>,
}

/// What a pairing holds: each cell's contents, `None` once claimed.
pub struct Halves<S, R> {
    pub send: Option<Option<S>>,
    pub recv: Option<R>,
}

impl<S, R> Halves<S, R> {
    /// Neither half has been claimed yet.
    pub open spec fn unclaimed(self) -> bool {
        self.send is Some && self.recv is Some
    }

    /// The stream has no write half.
    pub open spec fn unidirectional(self) -> bool {
        self.send == Some(None::<S>)
    }
}

impl<S: Send + Sync, R: Send + Sync> View for PartialStream<S, R> {
    type V = Halves<S, R>;

    closed spec fn view(&self) -> Halves<S, R> {
        Halves { send: self.send@, recv: self.recv@ }
    }
}

impl<S: Send + Sync, R: Send + Sync> PartialStream<S, R> {
    /// The pairing of a stream that carries data both ways.
    pub fn bidirectional(send: S, recv: R) -> (stream: Self)
        ensures
            stream@ == (Halves { send: Some(Some(send)), recv: Some(recv) }),
    {
        PartialStream { send: TakeOnce::new(Some(send)), recv: TakeOnce::new(recv) }
    }

    /// The pairing of a receive-only stream: the write half is marked absent.
    pub fn unidirectional(recv: R) -> (stream: Self)
        ensures
            stream@ == (Halves { send: Some(None::<S>), recv: Some(recv) }),
    {
        PartialStream { send: TakeOnce::new(None), recv: TakeOnce::new(recv) }
    }

    /// Tells whether either half has been claimed.
    pub fn is_claimed(&self) -> (claimed: bool)
        ensures
            claimed == !self@.unclaimed(),
    {
        self.send.is_taken() || self.recv.is_taken()
    }

    /// Tells, without claiming anything, whether the stream lacks a write half.
    pub fn is_unidirectional(&self) -> (uni: bool)
        requires
            self@.send is Some,
        ensures
            uni == self@.unidirectional(),
    {
        let absent = |half: &Option<S>| -> (none: bool)
            ensures
                none == (*half is None),
            { half.is_none() };
        self.send.peek(absent)
    }

    /// Claims both halves of an unclaimed pairing. Afterwards the pairing is
    /// empty and cannot be claimed again.
    pub fn claim(&mut self) -> (halves: (Option<S>, R))
        requires
            old(self)@.unclaimed(),
        ensures
            old(self)@ == (Halves { send: Some(halves.0), recv: Some(halves.1) }),
            final(self)@ == (Halves::<S, R> { send: None, recv: None }),
    {
        let send = self.send.take();
        let recv = self.recv.take();
        (send, recv)
    }
}

} // verus!
