use quic_bridge::read_loop::{ReadEvent, ReadLoop, StreamAction};
use quic_bridge::transport::{ErrorCode, ReadFailure};

fn closed(reason: &str) -> StreamAction {
    StreamAction::Closed(String::from(reason))
}

fn run(events: Vec<ReadEvent>) -> (Vec<StreamAction>, bool) {
    let mut read = ReadLoop::new();
    let mut all = Vec::new();
    for event in events {
        all.extend(read.step(event));
    }
    (all, read.is_running())
}

#[test]
fn a_new_read_loop_is_running() {
    assert!(ReadLoop::new().is_running());
}

#[test]
fn a_chunk_is_delivered_and_the_loop_goes_on() {
    let mut read = ReadLoop::new();
    assert_eq!(read.step(ReadEvent::Chunk(vec![1, 2, 3])), vec![StreamAction::Data(vec![1, 2, 3])]);
    assert!(read.is_running());
}

#[test]
fn the_end_of_the_stream_closes_with_the_generic_reason() {
    let mut read = ReadLoop::new();
    assert_eq!(read.step(ReadEvent::Finished), vec![closed("closed")]);
    assert!(!read.is_running());
}

#[test]
fn a_fatal_failure_closes_with_its_own_reason() {
    for kind in [ReadFailure::Reset, ReadFailure::ConnectionLost, ReadFailure::ClosedStream] {
        let mut read = ReadLoop::new();
        assert_eq!(read.step(ReadEvent::Failed(kind, String::from("lost"))), vec![closed("lost")]);
        assert!(!read.is_running());
    }
}

#[test]
fn a_recoverable_failure_is_reported_and_the_loop_goes_on() {
    for kind in [ReadFailure::IllegalOrderedRead, ReadFailure::ZeroRttRejected] {
        let mut read = ReadLoop::new();
        assert_eq!(
            read.step(ReadEvent::Failed(kind, String::from("odd"))),
            vec![StreamAction::Error(String::from("odd"))]
        );
        assert!(read.is_running());
        assert_eq!(read.step(ReadEvent::Chunk(vec![9])), vec![StreamAction::Data(vec![9])]);
    }
}

#[test]
fn a_cancellation_stops_the_receive_side_with_the_code_and_closes() {
    let mut read = ReadLoop::new();
    let code = ErrorCode::from_u32(42);
    assert_eq!(
        read.step(ReadEvent::Cancelled(code)),
        vec![StreamAction::StopReceive(code), closed("closed")]
    );
    assert!(!read.is_running());
}

#[test]
fn a_stopped_loop_does_nothing() {
    let mut read = ReadLoop::new();
    read.step(ReadEvent::Finished);
    assert_eq!(read.step(ReadEvent::Chunk(vec![1])), vec![]);
    assert_eq!(read.step(ReadEvent::Finished), vec![]);
    assert_eq!(read.step(ReadEvent::Cancelled(ErrorCode::from_u32(1))), vec![]);
    assert_eq!(read.step(ReadEvent::Failed(ReadFailure::Reset, String::from("x"))), vec![]);
    assert!(!read.is_running());
}

#[test]
fn written_bytes_arrive_as_one_data_event_followed_by_one_closure() {
    let (actions, running) = run(vec![ReadEvent::Chunk(vec![1, 2, 3]), ReadEvent::Finished]);
    assert_eq!(actions, vec![StreamAction::Data(vec![1, 2, 3]), closed("closed")]);
    assert!(!running);
}

#[test]
fn cancelling_with_a_pending_read_stops_with_the_code_and_delivers_no_more_data() {
    let code = ErrorCode::from_u64(42).unwrap();
    let (actions, running) = run(vec![
        ReadEvent::Cancelled(code),
        ReadEvent::Chunk(vec![4, 5]),
        ReadEvent::Chunk(vec![6]),
    ]);
    assert_eq!(actions, vec![StreamAction::StopReceive(code), closed("closed")]);
    assert!(!running);
    match &actions[0] {
        StreamAction::StopReceive(sent) => assert_eq!(sent.value(), 42),
        _ => panic!("the receive side was not stopped"),
    }
}

#[test]
fn at_most_one_closure_and_it_comes_last() {
    let traces = vec![
        vec![ReadEvent::Chunk(vec![1]), ReadEvent::Finished, ReadEvent::Finished],
        vec![
            ReadEvent::Failed(ReadFailure::ZeroRttRejected, String::from("r")),
            ReadEvent::Failed(ReadFailure::Reset, String::from("reset")),
            ReadEvent::Cancelled(ErrorCode::from_u32(3)),
        ],
        vec![
            ReadEvent::Cancelled(ErrorCode::from_u32(3)),
            ReadEvent::Failed(ReadFailure::ConnectionLost, String::from("lost")),
            ReadEvent::Finished,
        ],
        vec![ReadEvent::Chunk(vec![1]), ReadEvent::Chunk(vec![2])],
    ];
    for events in traces {
        let (actions, running) = run(events);
        let closures: Vec<usize> = actions
            .iter()
            .enumerate()
            .filter(|(_, a)| matches!(a, StreamAction::Closed(_)))
            .map(|(i, _)| i)
            .collect();
        assert!(closures.len() <= 1);
        if let Some(&at) = closures.first() {
            assert_eq!(at, actions.len() - 1);
        }
        assert_eq!(running, closures.is_empty());
    }
}

#[test]
fn chunks_are_delivered_in_the_order_read() {
    let (actions, running) = run(vec![
        ReadEvent::Chunk(vec![1]),
        ReadEvent::Failed(ReadFailure::IllegalOrderedRead, String::from("o")),
        ReadEvent::Chunk(vec![2, 3]),
        ReadEvent::Chunk(vec![]),
        ReadEvent::Finished,
        ReadEvent::Chunk(vec![4]),
    ]);
    assert_eq!(
        actions,
        vec![
            StreamAction::Data(vec![1]),
            StreamAction::Error(String::from("o")),
            StreamAction::Data(vec![2, 3]),
            StreamAction::Data(vec![]),
            closed("closed"),
        ]
    );
    assert!(!running);
}

#[test]
fn handle_read_takes_the_front_of_the_buffer() {
    let mut read = ReadLoop::new();
    let buf = [10u8, 20, 30, 40, 50];
    assert_eq!(read.handle_read(Ok(Some(3)), &buf), vec![StreamAction::Data(vec![10, 20, 30])]);
    assert_eq!(read.handle_read(Ok(Some(0)), &buf), vec![StreamAction::Data(vec![])]);
    assert_eq!(
        read.handle_read(Ok(Some(5)), &buf),
        vec![StreamAction::Data(vec![10, 20, 30, 40, 50])]
    );
    assert!(read.is_running());
}

#[test]
fn handle_read_closes_at_the_end_of_the_stream() {
    let mut read = ReadLoop::new();
    assert_eq!(read.handle_read(Ok(None), &[0u8; 8]), vec![closed("closed")]);
    assert!(!read.is_running());
    assert_eq!(read.handle_read(Ok(Some(2)), &[0u8; 8]), vec![]);
}

#[test]
fn handle_read_closes_on_a_reset_with_the_transport_text() {
    let mut read = ReadLoop::new();
    let error = quinn::ReadError::Reset(quinn::VarInt::from_u32(9));
    assert_eq!(read.handle_read(Err(error), &[]), vec![closed("stream reset by peer: error 9")]);
    assert!(!read.is_running());
}

#[test]
fn handle_read_closes_on_a_closed_stream() {
    let mut read = ReadLoop::new();
    assert_eq!(
        read.handle_read(Err(quinn::ReadError::ClosedStream), &[]),
        vec![closed("closed stream")]
    );
    assert!(!read.is_running());
}

#[test]
fn handle_read_describes_a_lost_connection_by_the_connection_error() {
    let mut read = ReadLoop::new();
    let error = quinn::ReadError::ConnectionLost(quinn::ConnectionError::TimedOut);
    assert_eq!(read.handle_read(Err(error), &[]), vec![closed("timed out")]);
    assert!(!read.is_running());

    let mut read = ReadLoop::new();
    let error = quinn::ReadError::ConnectionLost(quinn::ConnectionError::LocallyClosed);
    assert_eq!(read.handle_read(Err(error), &[]), vec![closed("closed")]);
    assert!(!read.is_running());
}

#[test]
fn handle_read_reports_recoverable_errors_and_goes_on() {
    let mut read = ReadLoop::new();
    assert_eq!(
        read.handle_read(Err(quinn::ReadError::IllegalOrderedRead), &[]),
        vec![StreamAction::Error(String::from("ordered read after unordered read"))]
    );
    assert!(read.is_running());
    assert_eq!(
        read.handle_read(Err(quinn::ReadError::ZeroRttRejected), &[]),
        vec![StreamAction::Error(String::from("0-RTT rejected"))]
    );
    assert!(read.is_running());
    assert_eq!(read.handle_read(Ok(Some(1)), &[7u8]), vec![StreamAction::Data(vec![7])]);
}
