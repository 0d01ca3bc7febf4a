//! The decisions of a stream's read loop.
//!
//! The loop waits for the next chunk of data or for the stream's cancellation
//! token, whichever comes first. Data goes to the consumer and the loop goes
//! on. The end of the stream, a fatal failure and a cancellation end the loop,
//! each with one closure notice; a cancellation first stops the receive side
//! with the code that the token delivered. A failure that is not fatal is
//! reported on the error channel and the loop goes on.
//!
//! Waiting is the caller's part. It hands each result to the loop, carries out
//! the actions that come back in order, and stops once `is_running` turns
//! false.

use crate::transport::{
    connection_error_text,
    connection_text,
    lost_connection,
    read_error_text,
    read_failure_kind,
    read_kind,
    read_lost_connection,
    read_text,
    ErrorCode,
    ReadFailure,
};
use vstd::prelude::*;
use vstd::slice::{slice_subrange, slice_to_vec};
use vstd::string::StringExecFns;

verus! {

/// What the loop can be woken with.
#[derive(Debug, PartialEq, Eq)]
pub enum ReadEvent {
    /// A read completed with these bytes.
    Chunk(Vec<u8>),
    /// A read found the stream finished: no more data, no error.
    Finished,
    /// A read failed, with the failure's kind and text.
    Failed(ReadFailure, String),
    /// The cancellation token fired and delivered this code.
    Cancelled(ErrorCode),
}

/// An event by what it holds.
pub enum ReadEventView {
    Chunk(Seq<u8>),
    Finished,
    Failed(ReadFailure, Seq<char>),
    Cancelled(u64),
}

impl View for ReadEvent {
    type V = ReadEventView;

    open spec fn view(&self) -> ReadEventView {
        match *self {
            ReadEvent::Chunk(bytes) => ReadEventView::Chunk(bytes@),
            ReadEvent::Finished => ReadEventView::Finished,
            ReadEvent::Failed(kind, text) => ReadEventView::Failed(kind, text@),
            ReadEvent::Cancelled(code) => ReadEventView::Cancelled(code@),
        }
    }
}

/// What the loop asks the caller to do.
#[derive(Debug, PartialEq, Eq)]
pub enum StreamAction {
    /// Deliver a chunk of data to the consumer.
    Data(Vec<u8>),
    /// Report a failure on the consumer's error channel.
    Error(String),
    /// Tell the consumer that the stream is closed, and why.
    Closed(String),
    /// Tell the transport to stop the receive side with this code.
    StopReceive(ErrorCode),
}

/// An action by what it holds.
pub enum StreamActionView {
    Data(Seq<u8>),
    Error(Seq<char>),
    Closed(Seq<char>),
    StopReceive(u64),
}

impl View for StreamAction {
    type V = StreamActionView;

    open spec fn view(&self) -> StreamActionView {
        match *self {
            StreamAction::Data(bytes) => StreamActionView::Data(bytes@),
            StreamAction::Error(text) => StreamActionView::Error(text@),
            StreamAction::Closed(text) => StreamActionView::Closed(text@),
            StreamAction::StopReceive(code) => StreamActionView::StopReceive(code@),
        }
    }
}

/// The views of a list of actions, in order.
pub open spec fn action_views(actions: Seq<StreamAction>) -> Seq<StreamActionView> {
    actions.map_values(|a: StreamAction| a@)
}

/// The reason given when a stream closes without a failure.
pub open spec fn closed_reason() -> Seq<char> {
    "closed"@
}

/// The text that a read error is reported with: that of the connection's
/// error where the connection was lost, its own otherwise.
pub open spec fn failure_text(error: quinn::ReadError) -> Seq<char> {
    match read_lost_connection(error) {
        Some(inner) => connection_text(inner),
        None => read_text(error),
    }
}

/// The event that the result of one read into a buffer holding `buf` stands
/// for.
pub open spec fn read_event(result: Result<Option<usize>, quinn::ReadError>, buf: Seq<u8>) ->
    ReadEventView {
    match result {
        Ok(Some(n)) => ReadEventView::Chunk(buf.subrange(0, n as int)),
        Ok(None) => ReadEventView::Finished,
        Err(error) => ReadEventView::Failed(read_kind(error), failure_text(error)),
    }
}

/// One turn of the loop: the actions to carry out, in order, and whether the
/// loop goes on. A loop that has stopped ignores every event.
pub open spec fn read_step(running: bool, event: ReadEventView) -> (Seq<StreamActionView>, bool) {
    if !running {
        (Seq::empty(), false)
    } else {
        match event {
            ReadEventView::Chunk(bytes) => (seq![StreamActionView::Data(bytes)], true),
            ReadEventView::Finished => (seq![StreamActionView::Closed(closed_reason())], false),
            ReadEventView::Failed(kind, text) => if kind.is_fatal() {
                (seq![StreamActionView::Closed(text)], false)
            } else {
                (seq![StreamActionView::Error(text)], true)
            },
            ReadEventView::Cancelled(code) => (
                seq![
                    StreamActionView::StopReceive(code),
                    StreamActionView::Closed(closed_reason()),
                ],
                false,
            ),
        }
    }
}

/// The loop run over `events` in order: all actions, in the order in which
/// they are to be carried out, and whether the loop is still going at the end.
pub open spec fn read_run(running: bool, events: Seq<ReadEventView>) -> (
    Seq<StreamActionView>,
    bool,
)
    decreases events.len(),
{
    if events.len() == 0 {
        (Seq::empty(), running)
    } else {
        let before = read_run(running, events.drop_last());
        let turn = read_step(before.1, events.last());
        (before.0 + turn.0, turn.1)
    }
}

/// The chunks among `events`, in order, up to the first event that ends the
/// loop.
pub open spec fn chunks_read(events: Seq<ReadEventView>) -> Seq<Seq<u8>>
    decreases events.len(),
{
    if events.len() == 0 {
        Seq::empty()
    } else {
        let before = chunks_read(events.drop_last());
        if read_run(true, events.drop_last()).1 && events.last() is Chunk {
            before.push(events.last()->Chunk_0)
        } else {
            before
        }
    }
}

/// The chunks that `actions` deliver to the consumer, in order.
pub open spec fn chunks_delivered(actions: Seq<StreamActionView>) -> Seq<Seq<u8>>
    decreases actions.len(),
{
    if actions.len() == 0 {
        Seq::empty()
    } else {
        let before = chunks_delivered(actions.drop_last());
        if actions.last() is Data {
            before.push(actions.last()->Data_0)
        } else {
            before
        }
    }
}

/// The state of one stream's read loop.
pub struct ReadLoop {
    running: bool,
}

impl ReadLoop {
    /// Whether the loop still reads.
    pub closed spec fn running(&self) -> bool {
        self.running
    }

    /// A loop that has just been started.
    pub fn new() -> (read: Self)
        ensures
            read.running(),
    {
        ReadLoop { running: true }
    }

    /// Tells whether the loop still reads.
    pub fn is_running(&self) -> (running: bool)
        ensures
            running == self.running(),
    {
        self.running
    }

    /// Takes one event and says what to do, in order.
    pub fn step(&mut self, event: ReadEvent) -> (actions: Vec<StreamAction>)
        ensures
            (action_views(actions@), final(self).running()) == read_step(
                old(self).running(),
                event@,
            ),
    {
        let mut actions: Vec<StreamAction> = Vec::new();
        if !self.running {
            assert(action_views(actions@) =~= Seq::empty());
            return actions;
        }
        match event {
            ReadEvent::Chunk(bytes) => {
                actions.push(StreamAction::Data(bytes));
            },
            ReadEvent::Finished => {
                self.running = false;
                actions.push(StreamAction::Closed(String::from_str("closed")));
            },
            ReadEvent::Failed(kind, text) => {
                if kind.fatal() {
                    self.running = false;
                    actions.push(StreamAction::Closed(text));
                } else {
                    actions.push(StreamAction::Error(text));
                }
            },
            ReadEvent::Cancelled(code) => {
                self.running = false;
                actions.push(StreamAction::StopReceive(code));
                actions.push(StreamAction::Closed(String::from_str("closed")));
            },
        }
        assert(action_views(actions@) =~= read_step(old(self).running(), event@).0);
        actions
    }

    /// Takes the result of one read into `buf`. A count of bytes is taken as
    /// the chunk at the front of `buf`, and `None` as the end of the stream.
    /// An error of the transport is taken as the failure event of its kind;
    /// a lost connection is described by the text of the connection's own
    /// error, every other failure by its own text.
    pub fn handle_read(
        &mut self,
        result: Result<Option<usize>, quinn::ReadError>,
        buf: &[u8],
    ) -> (actions: Vec<StreamAction>)
        requires
            result matches Ok(Some(n)) ==> n <= buf@.len(),
        ensures
            (action_views(actions@), final(self).running()) == read_step(
                old(self).running(),
                read_event(result, buf@),
            ),
    {
        match result {
            Ok(Some(n)) => {
                let bytes = slice_to_vec(slice_subrange(buf, 0, n));
                self.step(ReadEvent::Chunk(bytes))
            },
            Ok(None) => self.step(ReadEvent::Finished),
            Err(error) => {
                let kind = read_failure_kind(&error);
                let own_text = read_error_text(&error);
                let text = match lost_connection(error) {
                    Some(inner) => connection_error_text(&inner),
                    None => own_text,
                };
                self.step(ReadEvent::Failed(kind, text))
            },
        }
    }
}

/// Whatever the loop is woken with, the consumer is told at most once that
/// the stream is closed, and nothing follows that notice. The notice has been
/// given exactly when the loop has stopped.
pub proof fn lemma_one_closure_last(events: Seq<ReadEventView>)
    ensures
        forall|i: int|
            0 <= i < read_run(true, events).0.len() && #[trigger] read_run(true, events).0[i]
                is Closed ==> i == read_run(true, events).0.len() - 1,
        forall|i: int, j: int|
            0 <= i < read_run(true, events).0.len() && 0 <= j < read_run(true, events).0.len()
                && #[trigger] read_run(true, events).0[i] is Closed && #[trigger] read_run(
                true,
                events,
            ).0[j] is Closed ==> i == j,
        !read_run(true, events).1 <==> read_run(true, events).0.len() > 0 && read_run(
            true,
            events,
        ).0.last() is Closed,
    decreases events.len(),
{
    if events.len() > 0 {
        lemma_one_closure_last(events.drop_last());
        let before = read_run(true, events.drop_last());
        let turn = read_step(before.1, events.last());
        let all = read_run(true, events).0;
        assert(all == before.0 + turn.0);
        if before.1 {
            assert forall|i: int| 0 <= i < before.0.len() implies !(before.0[i] is Closed) by {
                if before.0[i] is Closed {
                    assert(i == before.0.len() - 1);
                    assert(before.0.last() is Closed);
                }
            }
            assert forall|i: int| 0 <= i < all.len() && all[i] is Closed implies i == all.len()
                - 1 by {
                if i < before.0.len() {
                    assert(all[i] == before.0[i]);
                } else {
                    assert(all[i] == turn.0[i - before.0.len()]);
                }
            }
        } else {
            assert(turn.0 =~= Seq::empty());
            assert(all =~= before.0);
        }
    }
}

/// The consumer receives the chunks in the order in which they were read,
/// each once, and none that was read after the loop stopped.
pub proof fn lemma_data_in_order(events: Seq<ReadEventView>)
    ensures
        chunks_delivered(read_run(true, events).0) == chunks_read(events),
    decreases events.len(),
{
    if events.len() > 0 {
        lemma_data_in_order(events.drop_last());
        let before = read_run(true, events.drop_last());
        let turn = read_step(before.1, events.last());
        lemma_chunks_of_concat(before.0, turn.0);
        if turn.0.len() == 1 {
            assert(turn.0.drop_last() =~= Seq::empty());
            assert(chunks_delivered(turn.0.drop_last()) =~= Seq::empty());
        } else if turn.0.len() == 2 {
            assert(turn.0.drop_last().drop_last() =~= Seq::empty());
            assert(chunks_delivered(turn.0.drop_last().drop_last()) =~= Seq::empty());
            assert(chunks_delivered(turn.0.drop_last()) =~= Seq::empty());
        }
    }
}

/// The chunks of two lists of actions in a row are the chunks of the first
/// followed by those of the second.
proof fn lemma_chunks_of_concat(first: Seq<StreamActionView>, second: Seq<StreamActionView>)
    ensures
        chunks_delivered(first + second) == chunks_delivered(first) + chunks_delivered(second),
    decreases second.len(),
{
    if second.len() == 0 {
        assert(first + second =~= first);
        assert(chunks_delivered(first) + chunks_delivered(second) =~= chunks_delivered(first));
    } else {
        lemma_chunks_of_concat(first, second.drop_last());
        assert((first + second).drop_last() =~= first + second.drop_last());
        assert((first + second).last() == second.last());
        if second.last() is Data {
            assert(chunks_delivered(first + second) =~= chunks_delivered(first)
                + chunks_delivered(second));
        }
    }
}

/// A cancellation that reaches a running loop stops the receive side with the
/// delivered code, closes the stream, and ends the loop: no data is delivered
/// for any event that follows.
pub proof fn lemma_cancel_ends_delivery(code: u64, later: Seq<ReadEventView>)
    ensures
        read_step(true, ReadEventView::Cancelled(code)).0 == seq![
            StreamActionView::StopReceive(code),
            StreamActionView::Closed(closed_reason()),
        ],
        read_run(false, later) == (Seq::<StreamActionView>::empty(), false),
        read_step(true, ReadEventView::Cancelled(code)).1 == false,
    decreases later.len(),
{
    if later.len() > 0 {
        lemma_cancel_ends_delivery(code, later.drop_last());
        assert(read_run(false, later).0 =~= Seq::<StreamActionView>::empty());
    }
}

} // verus!
