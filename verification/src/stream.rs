//! The claimed form of a stream: its write half, its identity, and the token
//! by which the receive side is asked to stop.
//!
//! Exclusive access (`&mut self`) stands for the lock that serialises the use
//! of the write half. Reading is the business of the stream's read loop, which
//! owns the read half from the moment the stream is claimed.

use crate::cancel_with_value::{CancelWithValue, TokenState};
use crate::pairing::{Halves, PartialStream};
use crate::transport::{
    finish_send,
    send_finish_requested,
    write_error_text,
    write_text,
    ErrorCode,
    ERROR_CODE_LIMIT,
};
use vstd::prelude::*;
use vstd::string::StringExecFns;

verus! {

/// What the rules ask of a write half besides writing: to be half-closed.
pub trait SendHalf {
    /// Whether this half has been asked to finish.
    spec fn finish_requested(&self) -> bool;

    /// Tells the peer that no more data will be written. Reports `false` if
    /// the half had been closed before; either way the half has been asked.
    fn finish(&mut self) -> (fresh: bool)
        ensures
            final(self).finish_requested(),
    ;
}

impl SendHalf for quinn::SendStream {
    open spec fn finish_requested(&self) -> bool {
        send_finish_requested(*self)
    }

    fn finish(&mut self) -> (fresh: bool) {
        finish_send(self)
    }
}

/// What identifies a stream to the consumer.
#[derive(Clone, Copy, Debug, PartialEq, Eq, Structural)]
pub struct StreamDetails {
    /// The stream's number among those of the same initiator and direction.
    pub id: u64,
    /// Whether the stream was opened on early data, before the handshake had
    /// completed.
    pub is_0rtt: bool,
}

impl StreamDetails {
    /// The details of the stream numbered `id`.
    pub fn new(id: u64, is_0rtt: bool) -> (details: Self)
        ensures
            details == (StreamDetails { id, is_0rtt }),
    {
        StreamDetails { id, is_0rtt }
    }
}

/// Why an operation on a stream's write side failed.
#[derive(Debug, PartialEq, Eq)]
pub enum StreamError {
    /// The stream is receive-only: it has no write half.
    NoWriteHalf,
    /// The transport refused, with its reason as text.
    Transport(String),
    /// The error code is too large to be sent, with the complaint as text.
    InvalidCode(String),
}

/// An error of the write side by what it holds.
pub enum StreamErrorView {
    NoWriteHalf,
    Transport(Seq<char>),
    InvalidCode(Seq<char>),
}

impl View for StreamError {
    type V = StreamErrorView;

    open spec fn view(&self) -> StreamErrorView {
        match *self {
            StreamError::NoWriteHalf => StreamErrorView::NoWriteHalf,
            StreamError::Transport(text) => StreamErrorView::Transport(text@),
            StreamError::InvalidCode(text) => StreamErrorView::InvalidCode(text@),
        }
    }
}

impl StreamErrorView {
    /// The text shown to the consumer.
    pub open spec fn text(self) -> Seq<char> {
        match self {
            StreamErrorView::NoWriteHalf => "no write half"@,
            StreamErrorView::Transport(text) => text,
            StreamErrorView::InvalidCode(text) => text,
        }
    }
}

impl StreamError {
    /// The text shown to the consumer.
    pub fn to_string(&self) -> (text: String)
        ensures
            text@ == self@.text(),
    {
        match self {
            StreamError::NoWriteHalf => String::from_str("no write half"),
            StreamError::Transport(text) => text.clone(),
            StreamError::InvalidCode(text) => text.clone(),
        }
    }
}

/// A claimed stream. `S` is the write half.
pub struct Stream<S> {
    send: Option<S>,
    write_closed: bool,
    details: StreamDetails,
    close_requested: CancelWithValue<ErrorCode>,
}

/// What a claimed stream amounts to.
pub struct StreamView<S> {
    /// The write half, absent on a receive-only stream.
    pub send: Option<S>,
    /// Whether this side has half-closed the write half.
    pub write_closed: bool,
    pub details: StreamDetails,
    /// The token that asks the read loop to stop the receive side.
    pub close_requested: TokenState<ErrorCode>,
}

/// The write side of a stream, as far as closing it goes.
pub struct WriteSide {
    /// Whether the stream has a write half at all.
    pub present: bool,
    /// Whether this side has half-closed it.
    pub closed: bool,
}

impl WriteSide {
    /// A half-close: whether it succeeds, and the write side afterwards. It
    /// succeeds whenever there is a write half, closed already or not.
    pub open spec fn close_write(self) -> (bool, WriteSide) {
        (self.present, WriteSide { present: self.present, closed: self.closed || self.present })
    }
}

impl<S> StreamView<S> {
    /// The write side of this stream.
    pub open spec fn write_side(self) -> WriteSide {
        WriteSide { present: self.send is Some, closed: self.write_closed }
    }

    /// Whether closing the stream with `code` is accepted, and what it does to
    /// the write side and to the token: the write side is half-closed as far
    /// as there is one, and the token is fired with `code`. A code that is
    /// too large changes nothing.
    pub open spec fn close_stream(self, code: u64) -> (bool, WriteSide, TokenState<u64>) {
        if code < ERROR_CODE_LIMIT {
            (true, self.write_side().close_write().1, token_codes(self.close_requested).fire(code))
        } else {
            (false, self.write_side(), token_codes(self.close_requested))
        }
    }
}

/// A token of error codes, with the code in its slot as a number.
pub open spec fn token_codes(token: TokenState<ErrorCode>) -> TokenState<u64> {
    TokenState { fired: token.fired, value: token.value@ }
}

impl<S> View for Stream<S> {
    type V = StreamView<S>;

    closed spec fn view(&self) -> StreamView<S> {
        StreamView {
            send: self.send,
            write_closed: self.write_closed,
            details: self.details,
            close_requested: self.close_requested@,
        }
    }
}

/// Claims an unclaimed pairing: takes both halves out of their cells, records
/// what `describe` reads off the read half, and sets up a token that has not
/// fired. The read half comes back beside the stream, for the read loop.
pub fn initialize_stream<S: Send + Sync, R: Send + Sync, F>(partial: &mut PartialStream<S, R>, describe: F) -> (claimed: (
    Stream<S>,
    R,
)) where F: FnOnce(&R) -> StreamDetails
    requires
        old(partial)@.unclaimed(),
        call_requires(describe, (&old(partial)@.recv->0,)),
    ensures
        final(partial)@ == (Halves::<S, R> { send: None, recv: None }),
        old(partial)@.send == Some(claimed.0@.send),
        old(partial)@.recv == Some(claimed.1),
        call_ensures(describe, (&claimed.1,), claimed.0@.details),
        !claimed.0@.write_closed,
        token_codes(claimed.0@.close_requested) == (TokenState { fired: false, value: 0u64 }),
{
    let (send, recv) = partial.claim();
    let details = describe(&recv);
    let close_requested = CancelWithValue::new();
    (Stream { send, write_closed: false, details, close_requested }, recv)
}

/// The view of what the caller of a write is told.
pub open spec fn outcome_view(outcome: Result<(), StreamError>) -> Result<(), StreamErrorView> {
    match outcome {
        Ok(()) => Ok(()),
        Err(error) => Err(error@),
    }
}

/// What the caller of a write is told once the transport has answered:
/// success, or the text that the transport's error displays as.
pub fn write_outcome(result: Result<(), quinn::WriteError>) -> (outcome: Result<(), StreamError>)
    ensures
        outcome_view(outcome) == match result {
            Ok(()) => Ok::<(), StreamErrorView>(()),
            Err(error) => Err(StreamErrorView::Transport(write_text(error))),
        },
{
    match result {
        Ok(()) => Ok(()),
        Err(error) => Err(StreamError::Transport(write_error_text(&error))),
    }
}

impl<S: SendHalf> Stream<S> {
    /// The stream's identity.
    pub fn stream_details(&self) -> (details: StreamDetails)
        ensures
            details == self@.details,
    {
        self.details
    }

    /// The token by which the read loop learns that it should stop.
    pub fn close_requested(&self) -> (token: &CancelWithValue<ErrorCode>)
        ensures
            token@ == self@.close_requested,
    {
        &self.close_requested
    }

    /// Tells whether this side has half-closed the write half.
    pub fn is_write_closed(&self) -> (closed: bool)
        ensures
            closed == self@.write_closed,
    {
        self.write_closed
    }

    /// The half to write to, or the error that a receive-only stream earns.
    /// Nothing but the half itself can change through the reference.
    pub fn write_stream(&mut self) -> (target: Result<&mut S, StreamError>)
        ensures
            target is Ok <==> old(self)@.send is Some,
            target matches Err(e) ==> e@ is NoWriteHalf && *final(self) == *old(self),
            target matches Ok(send) ==> old(self)@.send == Some(*send) && final(self)@ == (
            StreamView { send: Some(*final(send)), ..old(self)@ }),
    {
        match &mut self.send {
            Some(send) => Ok(send),
            None => Err(StreamError::NoWriteHalf),
        }
    }

    /// Half-closes the write side: the write half is asked to finish.
    /// Closing a half that is closed already is no error: the call succeeds
    /// whenever the stream has a write half, and changes nothing where it has
    /// none.
    pub fn close_write(&mut self) -> (outcome: Result<(), StreamError>)
        ensures
            (outcome is Ok, final(self)@.write_side()) == old(self)@.write_side().close_write(),
            outcome is Ok ==> final(self)@.send is Some
                && final(self)@.send->0.finish_requested(),
            outcome matches Err(e) ==> e@ is NoWriteHalf && *final(self) == *old(self),
            final(self)@.details == old(self)@.details,
            final(self)@.close_requested == old(self)@.close_requested,
    {
        match &mut self.send {
            Some(send) => {
                let _ = send.finish();
                self.write_closed = true;
                Ok(())
            },
            None => Err(StreamError::NoWriteHalf),
        }
    }

    /// Closes the stream with `code`: the write half, if there is one, is
    /// asked to finish, whatever comes of it, and the token is fired with the
    /// code. A code that is too large is refused before anything is done. A
    /// stream without a write half keeps none.
    pub fn close_stream(&mut self, code: u64) -> (outcome: Result<(), StreamError>)
        ensures
            (outcome is Ok, final(self)@.write_side(), token_codes(final(self)@.close_requested))
                == old(self)@.close_stream(code),
            outcome is Ok && old(self)@.send is Some ==> final(self)@.send is Some
                && final(self)@.send->0.finish_requested(),
            outcome matches Err(e) ==> e@ is InvalidCode && *final(self) == *old(self),
            final(self)@.details == old(self)@.details,
    {
        let code = match ErrorCode::from_u64(code) {
            Ok(code) => code,
            Err(text) => {
                return Err(StreamError::InvalidCode(text));
            },
        };
        match &mut self.send {
            Some(send) => {
                let _ = send.finish();
                self.write_closed = true;
            },
            None => {},
        }
        self.close_requested.cancel(code);
        Ok(())
    }
}

/// Half-closing is idempotent: on a stream with a write half it succeeds the
/// first time and every time after, and a second half-close changes nothing.
pub proof fn lemma_close_write_twice(side: WriteSide)
    requires
        side.present,
    ensures
        side.close_write().0,
        side.close_write().1.close_write().0,
        side.close_write().1.close_write().1 == side.close_write().1,
{
}

/// Closing a stream with a code that fits fires the token with that code,
/// whatever the state of the write side: absent, open, or half-closed
/// already. Every observer of the token then reads the code.
pub proof fn lemma_close_stream_fires<S>(stream: StreamView<S>, code: u64)
    requires
        code < ERROR_CODE_LIMIT,
    ensures
        stream.close_stream(code).0,
        stream.close_stream(code).2.fired,
        stream.close_stream(code).2.observe() == Some(code),
        stream.close_stream(code).1.present == stream.write_side().present,
        stream.write_side().present ==> stream.close_stream(code).1.closed,
{
}

} // verus!
