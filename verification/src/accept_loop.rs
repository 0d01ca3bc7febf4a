//! The decisions of a connection's accept loop.
//!
//! The loop waits for the peer to offer streams, bidirectional or
//! unidirectional, whichever comes first. Every offer becomes an unclaimed
//! pairing that is announced to the consumer. The first failure of the
//! connection ends the loop: an orderly end in silence, a fault with one
//! report on the error channel. Nothing is announced after that.
//!
//! Waiting is the caller's part. It hands each result to the loop, delivers
//! the notice that comes back, and stops once `is_running` turns false.

use crate::pairing::{Halves, PartialStream};
use crate::transport::{
    connection_error_text,
    connection_failure_kind,
    connection_kind,
    connection_text,
    ConnectionFailure,
};
use vstd::prelude::*;

verus! {

/// What the loop can be woken with.
pub enum AcceptEvent<S, R> {
    /// The peer offered a stream with both halves.
    Bidirectional(S, R),
    /// The peer offered a receive-only stream.
    Unidirectional(R),
    /// The connection failed, with the failure's kind and text.
    Failed(ConnectionFailure, String),
}

/// An event with its text as a sequence of characters.
pub enum AcceptEventView<S, R> {
    Bidirectional(S, R),
    Unidirectional(R),
    Failed(ConnectionFailure, Seq<char>),
}

impl<S, R> View for AcceptEvent<S, R> {
    type V = AcceptEventView<S, R>;

    open spec fn view(&self) -> AcceptEventView<S, R> {
        match *self {
            AcceptEvent::Bidirectional(send, recv) => AcceptEventView::Bidirectional(send, recv),
            AcceptEvent::Unidirectional(recv) => AcceptEventView::Unidirectional(recv),
            AcceptEvent::Failed(kind, text) => AcceptEventView::Failed(kind, text@),
        }
    }
}

/// What the loop asks the caller to deliver to the consumer.
pub enum AcceptNotice<S: Send + Sync, R: Send + Sync> {
    /// A new stream, unclaimed, and whether it is receive-only.
    NewStream { stream: PartialStream<S, R>, unidirectional: bool },
    /// A fault of the connection, for the error channel.
    Error(String),
}

/// A notice by what it holds.
pub enum AcceptNoticeView<S, R> {
    NewStream { halves: Halves<S, R>, unidirectional: bool },
    Error(Seq<char>),
}

impl<S: Send + Sync, R: Send + Sync> View for AcceptNotice<S, R> {
    type V = AcceptNoticeView<S, R>;

    open spec fn view(&self) -> AcceptNoticeView<S, R> {
        match *self {
            AcceptNotice::NewStream { stream, unidirectional } => AcceptNoticeView::NewStream {
                halves: stream@,
                unidirectional,
            },
            AcceptNotice::Error(text) => AcceptNoticeView::Error(text@),
        }
    }
}

/// The view of a notice that may be absent.
pub open spec fn notice_view<S: Send + Sync, R: Send + Sync>(notice: Option<AcceptNotice<S, R>>) -> Option<
    AcceptNoticeView<S, R>,
> {
    match notice {
        Some(n) => Some(n@),
        None => None,
    }
}

/// The pairing announced for an offer: both halves unclaimed, the write half
/// marked absent for a receive-only stream.
pub open spec fn announced<S, R>(send: Option<S>, recv: R) -> AcceptNoticeView<S, R> {
    AcceptNoticeView::NewStream {
        halves: Halves { send: Some(send), recv: Some(recv) },
        unidirectional: send is None,
    }
}

/// The failure event that an error of the transport stands for: its kind and
/// the text it displays as.
pub open spec fn failure_event<S, R>(error: quinn::ConnectionError) -> AcceptEventView<S, R> {
    AcceptEventView::Failed(connection_kind(error), connection_text(error))
}

/// One turn of the loop: the notice to deliver, if any, and whether the loop
/// goes on. A loop that has stopped ignores every event.
pub open spec fn accept_step<S, R>(running: bool, event: AcceptEventView<S, R>) -> (
    Option<AcceptNoticeView<S, R>>,
    bool,
) {
    if !running {
        (None, false)
    } else {
        match event {
            AcceptEventView::Bidirectional(send, recv) => (
                Some(announced(Some(send), recv)),
                true,
            ),
            AcceptEventView::Unidirectional(recv) => (Some(announced(None::<S>, recv)), true),
            AcceptEventView::Failed(kind, text) => (
                if kind.is_benign() {
                    None
                } else {
                    Some(AcceptNoticeView::Error(text))
                },
                false,
            ),
        }
    }
}

/// The loop run over `events` in order: the notice of each turn, and whether
/// the loop is still going at the end.
pub open spec fn accept_run<S, R>(running: bool, events: Seq<AcceptEventView<S, R>>) -> (
    Seq<Option<AcceptNoticeView<S, R>>>,
    bool,
)
    decreases events.len(),
{
    if events.len() == 0 {
        (Seq::empty(), running)
    } else {
        let before = accept_run(running, events.drop_last());
        let turn = accept_step(before.1, events.last());
        (before.0.push(turn.0), turn.1)
    }
}

/// No event among the first `upto` of `events` is a failure.
pub open spec fn no_failure_before<S, R>(events: Seq<AcceptEventView<S, R>>, upto: int) -> bool {
    forall|j: int| 0 <= j < upto && j < events.len() ==> !(#[trigger] events[j] is Failed)
}

/// The state of one connection's accept loop.
pub struct AcceptLoop {
    running: bool,
}

impl AcceptLoop {
    /// Whether the loop still accepts offers.
    pub closed spec fn running(&self) -> bool {
        self.running
    }

    /// A loop that has just been started.
    pub fn new() -> (accept: Self)
        ensures
            accept.running(),
    {
        AcceptLoop { running: true }
    }

    /// Tells whether the loop still accepts offers.
    pub fn is_running(&self) -> (running: bool)
        ensures
            running == self.running(),
    {
        self.running
    }

    /// Takes one event and says what to deliver.
    pub fn step<S: Send + Sync, R: Send + Sync>(&mut self, event: AcceptEvent<S, R>) -> (notice: Option<AcceptNotice<S, R>>)
        ensures
            (notice_view(notice), final(self).running()) == accept_step(
                old(self).running(),
                event@,
            ),
    {
        if !self.running {
            return None;
        }
        match event {
            AcceptEvent::Bidirectional(send, recv) => {
                let stream = PartialStream::bidirectional(send, recv);
                let unidirectional = stream.is_unidirectional();
                Some(AcceptNotice::NewStream { stream, unidirectional })
            },
            AcceptEvent::Unidirectional(recv) => {
                let stream = PartialStream::unidirectional(recv);
                let unidirectional = stream.is_unidirectional();
                Some(AcceptNotice::NewStream { stream, unidirectional })
            },
            AcceptEvent::Failed(kind, text) => {
                self.running = false;
                if kind.benign() {
                    None
                } else {
                    Some(AcceptNotice::Error(text))
                }
            },
        }
    }

    /// Takes the result of waiting for a bidirectional offer. An offer is
    /// announced as by `step`; an error of the transport is taken as the
    /// failure event of its kind and text.
    pub fn handle_bidi<S: Send + Sync, R: Send + Sync>(
        &mut self,
        result: Result<(S, R), quinn::ConnectionError>,
    ) -> (notice: Option<AcceptNotice<S, R>>)
        ensures
            (notice_view(notice), final(self).running()) == accept_step(
                old(self).running(),
                match result {
                    Ok(offer) => AcceptEventView::Bidirectional(offer.0, offer.1),
                    Err(error) => failure_event(error),
                },
            ),
    {
        match result {
            Ok((send, recv)) => self.step(AcceptEvent::Bidirectional(send, recv)),
            Err(error) => self.fail(&error),
        }
    }

    /// Takes the result of waiting for a unidirectional offer; see
    /// `handle_bidi`.
    pub fn handle_uni<S: Send + Sync, R: Send + Sync>(
        &mut self,
        result: Result<R, quinn::ConnectionError>,
    ) -> (notice: Option<AcceptNotice<S, R>>)
        ensures
            (notice_view(notice), final(self).running()) == accept_step(
                old(self).running(),
                match result {
                    Ok(recv) => AcceptEventView::<S, R>::Unidirectional(recv),
                    Err(error) => failure_event(error),
                },
            ),
    {
        match result {
            Ok(recv) => self.step(AcceptEvent::Unidirectional(recv)),
            Err(error) => self.fail(&error),
        }
    }

    /// Reads kind and text off an error of the transport and takes them as a
    /// failure event.
    fn fail<S: Send + Sync, R: Send + Sync>(&mut self, error: &quinn::ConnectionError) -> (notice:
        Option<AcceptNotice<S, R>>)
        ensures
            (notice_view(notice), final(self).running()) == accept_step(
                old(self).running(),
                failure_event::<S, R>(*error),
            ),
    {
        let kind = connection_failure_kind(error);
        let text = connection_error_text(error);
        self.step(AcceptEvent::Failed(kind, text))
    }
}

/// A run of the loop announces every offer that arrives before the first
/// failure, reports that failure if and only if it is a fault, and delivers
/// nothing from then on; the loop is still going exactly when no failure
/// arrived.
pub proof fn lemma_accept_run<S, R>(events: Seq<AcceptEventView<S, R>>)
    ensures
        accept_run(true, events).0.len() == events.len(),
        accept_run(true, events).1 == no_failure_before(events, events.len() as int),
        forall|i: int|
            0 <= i < events.len() && no_failure_before(events, i) ==> #[trigger] accept_run(
                true,
                events,
            ).0[i] == accept_step(true, events[i]).0,
        forall|i: int|
            0 <= i < events.len() && !no_failure_before(events, i) ==> #[trigger] accept_run(
                true,
                events,
            ).0[i] is None,
    decreases events.len(),
{
    if events.len() > 0 {
        let head = events.drop_last();
        lemma_accept_run(head);
        let n = head.len() as int;
        let run = accept_run(true, events);
        assert forall|i: int| 0 <= i <= n implies no_failure_before(head, i) == no_failure_before(
            events,
            i,
        ) by {
            lemma_prefix_failures(events, i);
        }
        assert forall|i: int| 0 <= i < events.len() && no_failure_before(events, i) implies run.0[i]
            == accept_step(true, events[i]).0 by {
            if i < n {
                assert(run.0[i] == accept_run(true, head).0[i]);
                assert(head[i] == events[i]);
            }
        }
        assert forall|i: int|
            0 <= i < events.len() && !no_failure_before(events, i) implies run.0[i] is None by {
            if i < n {
                assert(run.0[i] == accept_run(true, head).0[i]);
            }
        }
        if no_failure_before(events, n) && !(events[n] is Failed) {
            assert(no_failure_before(events, n + 1));
        } else if no_failure_before(events, n) {
            assert(!no_failure_before(events, n + 1));
        } else {
            let j = choose|j: int| 0 <= j < n && j < events.len() && events[j] is Failed;
            assert(events[j] is Failed);
            assert(!no_failure_before(events, n + 1));
        }
    }
}

/// Dropping the last event changes nothing about the failures before it.
proof fn lemma_prefix_failures<S, R>(events: Seq<AcceptEventView<S, R>>, upto: int)
    requires
        events.len() > 0,
        0 <= upto < events.len(),
    ensures
        no_failure_before(events.drop_last(), upto) == no_failure_before(events, upto),
{
    let head = events.drop_last();
    if no_failure_before(head, upto) {
        assert forall|j: int| 0 <= j < upto && j < events.len() implies !(
        #[trigger] events[j] is Failed) by {
            assert(head[j] == events[j]);
        }
    }
    if no_failure_before(events, upto) {
        assert forall|j: int| 0 <= j < upto && j < head.len() implies !(
        #[trigger] head[j] is Failed) by {
            assert(head[j] == events[j]);
        }
    }
}

/// Every offer that a running loop takes is announced with both halves
/// unclaimed, and flagged receive-only exactly when it has no write half.
pub proof fn lemma_offer_announced<S, R>(event: AcceptEventView<S, R>)
    requires
        !(event is Failed),
    ensures
        accept_step(true, event).1,
        accept_step(true, event).0 matches Some(AcceptNoticeView::NewStream { halves, unidirectional })
            && halves.unclaimed() && unidirectional == halves.unidirectional() && unidirectional
            == (event is Unidirectional),
{
}

} // verus!
