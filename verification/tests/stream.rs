use bytes::Bytes;
use clashrsctl::config::ConfigLogLevel;
use clashrsctl::record::DecodeError;
use clashrsctl::stream::log::Log;
use clashrsctl::stream::model::StreamState;
use clashrsctl::stream::traffic::Traffic;
use clashrsctl::stream::{ChunkSource, ClashStream, Pull, SourceEvent, BUFFERSIZE};
use std::cell::Cell;
use std::collections::VecDeque;
use std::rc::Rc;

/// A source that answers from a list and counts how often it is asked. Once
/// the list is used up it has nothing for now.
struct Script {
    answers: VecDeque<SourceEvent>,
    asked: Rc<Cell<usize>>,
}

impl Script {
    fn new(answers: Vec<SourceEvent>) -> (Script, Rc<Cell<usize>>) {
        let asked = Rc::new(Cell::new(0));
        (Script { answers: VecDeque::from(answers), asked: asked.clone() }, asked)
    }
}

impl ChunkSource for Script {
    fn next_chunk(&mut self) -> SourceEvent {
        self.asked.set(self.asked.get() + 1);
        self.answers.pop_front().unwrap_or(SourceEvent::Pending)
    }
}

fn chunk(text: &str) -> SourceEvent {
    SourceEvent::Chunk(Bytes::copy_from_slice(text.as_bytes()))
}

fn traffic_chunk(up: usize, down: usize) -> SourceEvent {
    chunk(&format!("{{\"up\":{},\"down\":{}}}", up, down))
}

fn traffic_stream(answers: Vec<SourceEvent>) -> ClashStream<Traffic, Script> {
    ClashStream::new(Script::new(answers).0)
}

fn expect_traffic(pull: Pull<Traffic>, up: usize, down: usize) {
    match pull {
        Pull::Ready(Ok(t)) => assert_eq!(t, Traffic { up, down }),
        Pull::Ready(Err(e)) => panic!("decode error {:?}", e),
        Pull::NotYetReady => panic!("not yet ready"),
        Pull::EndOfSequence => panic!("end of sequence"),
    }
}

fn expect_error<T>(pull: Pull<T>, error: DecodeError) {
    match pull {
        Pull::Ready(Err(e)) => assert_eq!(e, error),
        Pull::Ready(Ok(_)) => panic!("a record"),
        Pull::NotYetReady => panic!("not yet ready"),
        Pull::EndOfSequence => panic!("end of sequence"),
    }
}

#[test]
fn test_parse_log_from_stream() {
    let (source, _) = Script::new(vec![chunk("{\"type\":\"info\",\"payload\":\"nothing\"}")]);
    let mut stream: ClashStream<Log, Script> = ClashStream::new(source);
    let log = match stream.next_item() {
        Pull::Ready(item) => item.unwrap(),
        _ => panic!("expected a log line"),
    };
    println!("log: {:?}", log);
    assert_eq!(log, Log { level: ConfigLogLevel::Info, payload: "nothing".to_string() });
}

#[test]
fn two_traffic_records_then_end_of_body() {
    let mut stream =
        traffic_stream(vec![traffic_chunk(10, 5), traffic_chunk(12, 5), SourceEvent::EndOfBody]);
    expect_traffic(stream.next_item(), 10, 5);
    expect_traffic(stream.next_item(), 12, 5);
    assert!(matches!(stream.next_item(), Pull::EndOfSequence));
    assert_eq!(stream.state(), StreamState::Closed);
}

#[test]
fn log_then_malformed_chunk_then_source_error() {
    let (source, asked) = Script::new(vec![
        chunk("{\"type\":\"info\",\"payload\":\"nothing\"}"),
        chunk("not-json"),
        SourceEvent::SourceError,
        chunk("{\"type\":\"info\",\"payload\":\"after the failure\"}"),
    ]);
    let mut stream: ClashStream<Log, Script> = ClashStream::new(source);
    match stream.next_item() {
        Pull::Ready(Ok(log)) => {
            assert_eq!(log.level, ConfigLogLevel::Info);
            assert_eq!(log.payload, "nothing");
        }
        _ => panic!("expected a log line"),
    }
    assert_eq!(asked.get(), 3);
    assert_eq!(stream.state(), StreamState::SourceExhausted);
    expect_error(stream.next_item(), DecodeError::Syntax);
    assert!(matches!(stream.next_item(), Pull::EndOfSequence));
    assert!(matches!(stream.next_item(), Pull::EndOfSequence));
    assert_eq!(asked.get(), 3);
}

#[test]
fn forty_chunks_at_once_come_out_in_order() {
    let mut answers: Vec<SourceEvent> = (0..40).map(|i| traffic_chunk(i, 2 * i)).collect();
    answers.push(SourceEvent::EndOfBody);
    let (source, asked) = Script::new(answers);
    let mut stream: ClashStream<Traffic, Script> = ClashStream::new(source);
    assert_eq!(stream.capacity(), 16);
    assert_eq!(BUFFERSIZE, 16);

    expect_traffic(stream.next_item(), 0, 0);
    assert_eq!(asked.get(), 16);
    assert_eq!(stream.buffered(), 15);
    for i in 1..40 {
        expect_traffic(stream.next_item(), i, 2 * i);
        assert!(stream.buffered() <= 16);
        assert!(asked.get() <= 16 + i);
    }
    assert_eq!(asked.get(), 41);
    assert!(matches!(stream.next_item(), Pull::EndOfSequence));
    assert!(matches!(stream.next_item(), Pull::EndOfSequence));
    assert_eq!(asked.get(), 41);
}

#[test]
fn items_keep_the_order_of_arrival_valid_or_not() {
    let mut stream = traffic_stream(vec![
        traffic_chunk(1, 1),
        chunk("{\"up\":1}"),
        traffic_chunk(2, 2),
        SourceEvent::Chunk(Bytes::from(vec![0xff, 0xfe])),
        chunk("[1, 2"),
        traffic_chunk(3, 3),
        SourceEvent::EndOfBody,
    ]);
    expect_traffic(stream.next_item(), 1, 1);
    expect_error(stream.next_item(), DecodeError::Schema);
    expect_traffic(stream.next_item(), 2, 2);
    expect_error(stream.next_item(), DecodeError::Encoding);
    expect_error(stream.next_item(), DecodeError::Syntax);
    expect_traffic(stream.next_item(), 3, 3);
    assert!(matches!(stream.next_item(), Pull::EndOfSequence));
}

#[test]
fn no_chunks_at_all() {
    let mut stream = traffic_stream(vec![SourceEvent::EndOfBody]);
    assert!(matches!(stream.next_item(), Pull::EndOfSequence));
    assert_eq!(stream.state(), StreamState::Closed);
}

#[test]
fn an_empty_chunk_is_a_decode_error() {
    let mut stream = traffic_stream(vec![chunk(""), traffic_chunk(4, 4)]);
    expect_error(stream.next_item(), DecodeError::Syntax);
    expect_traffic(stream.next_item(), 4, 4);
}

#[test]
fn the_buffer_stays_within_its_bound() {
    let answers: Vec<SourceEvent> = (0..10).map(|i| traffic_chunk(i, i)).collect();
    let (source, asked) = Script::new(answers);
    let mut stream: ClashStream<Traffic, Script> = ClashStream::with_capacity(source, 3);
    assert_eq!(stream.capacity(), 3);
    assert_eq!(stream.buffered(), 0);
    expect_traffic(stream.next_item(), 0, 0);
    assert_eq!(asked.get(), 3);
    assert_eq!(stream.buffered(), 2);
    expect_traffic(stream.next_item(), 1, 1);
    assert_eq!(asked.get(), 4);
    assert_eq!(stream.buffered(), 2);
    for i in 2..10 {
        expect_traffic(stream.next_item(), i, i);
        assert!(stream.buffered() <= 3);
    }
    assert!(matches!(stream.next_item(), Pull::NotYetReady));
    assert_eq!(stream.state(), StreamState::Open);
}

#[test]
fn buffered_chunks_are_drained_before_the_end() {
    for k in [0usize, 1, 2, 4] {
        let mut answers: Vec<SourceEvent> = (0..k).map(|i| traffic_chunk(i, 7)).collect();
        answers.push(SourceEvent::EndOfBody);
        let (source, _) = Script::new(answers);
        let mut stream: ClashStream<Traffic, Script> = ClashStream::with_capacity(source, 4);
        for i in 0..k {
            expect_traffic(stream.next_item(), i, 7);
        }
        assert!(matches!(stream.next_item(), Pull::EndOfSequence));
    }
}

#[test]
fn the_end_of_body_is_seen_with_a_full_buffer_only_later() {
    let mut answers: Vec<SourceEvent> = (0..6).map(|i| traffic_chunk(i, 0)).collect();
    answers.push(SourceEvent::SourceError);
    let (source, _) = Script::new(answers);
    let mut stream: ClashStream<Traffic, Script> = ClashStream::with_capacity(source, 4);
    expect_traffic(stream.next_item(), 0, 0);
    assert_eq!(stream.state(), StreamState::Open);
    expect_traffic(stream.next_item(), 1, 0);
    expect_traffic(stream.next_item(), 2, 0);
    assert_eq!(stream.state(), StreamState::Open);
    expect_traffic(stream.next_item(), 3, 0);
    assert_eq!(stream.state(), StreamState::SourceExhausted);
    assert_eq!(stream.buffered(), 2);
    expect_traffic(stream.next_item(), 4, 0);
    expect_traffic(stream.next_item(), 5, 0);
    assert_eq!(stream.state(), StreamState::SourceExhausted);
    assert!(matches!(stream.next_item(), Pull::EndOfSequence));
    assert_eq!(stream.state(), StreamState::Closed);
}

#[test]
fn the_end_is_final() {
    let (source, asked) = Script::new(vec![
        traffic_chunk(1, 2),
        SourceEvent::EndOfBody,
        traffic_chunk(3, 4),
        traffic_chunk(5, 6),
    ]);
    let mut stream: ClashStream<Traffic, Script> = ClashStream::new(source);
    expect_traffic(stream.next_item(), 1, 2);
    for _ in 0..5 {
        assert!(matches!(stream.next_item(), Pull::EndOfSequence));
        assert_eq!(stream.state(), StreamState::Closed);
        assert_eq!(stream.buffered(), 0);
    }
    assert_eq!(asked.get(), 2);
}

#[test]
fn a_source_with_nothing_for_now_is_asked_again() {
    let (source, asked) = Script::new(vec![
        SourceEvent::Pending,
        traffic_chunk(1, 1),
        SourceEvent::Pending,
        SourceEvent::Pending,
        traffic_chunk(2, 2),
        traffic_chunk(3, 3),
        SourceEvent::Pending,
        SourceEvent::EndOfBody,
    ]);
    let mut stream: ClashStream<Traffic, Script> = ClashStream::new(source);
    assert!(matches!(stream.next_item(), Pull::NotYetReady));
    assert_eq!(asked.get(), 1);
    expect_traffic(stream.next_item(), 1, 1);
    assert_eq!(asked.get(), 3);
    assert!(matches!(stream.next_item(), Pull::NotYetReady));
    assert_eq!(asked.get(), 4);
    expect_traffic(stream.next_item(), 2, 2);
    assert_eq!(asked.get(), 7);
    assert_eq!(stream.buffered(), 1);
    expect_traffic(stream.next_item(), 3, 3);
    assert_eq!(asked.get(), 8);
    assert_eq!(stream.state(), StreamState::SourceExhausted);
    assert!(matches!(stream.next_item(), Pull::EndOfSequence));
}

#[test]
fn offer_and_deliver_step_by_step() {
    let (source, asked) = Script::new(vec![]);
    let mut stream: ClashStream<Traffic, Script> = ClashStream::with_capacity(source, 2);
    assert!(stream.wants_chunk());
    assert!(matches!(stream.deliver(), Pull::NotYetReady));
    assert!(stream.offer(SourceEvent::Pending).is_ok());
    assert_eq!(stream.buffered(), 0);
    assert!(stream.offer(traffic_chunk(1, 1)).is_ok());
    assert!(stream.offer(traffic_chunk(2, 2)).is_ok());
    assert_eq!(stream.buffered(), 2);
    assert!(!stream.wants_chunk());
    match stream.offer(traffic_chunk(3, 3)) {
        Err(SourceEvent::Chunk(bytes)) => assert_eq!(&bytes[..], b"{\"up\":3,\"down\":3}"),
        _ => panic!("a full stream takes no chunk"),
    }
    assert!(matches!(stream.offer(SourceEvent::EndOfBody), Err(SourceEvent::EndOfBody)));
    assert_eq!(stream.state(), StreamState::Open);
    expect_traffic(stream.deliver(), 1, 1);
    assert!(stream.offer(SourceEvent::SourceError).is_ok());
    assert_eq!(stream.state(), StreamState::SourceExhausted);
    assert!(!stream.wants_chunk());
    assert!(matches!(stream.offer(traffic_chunk(4, 4)), Err(SourceEvent::Chunk(_))));
    expect_traffic(stream.deliver(), 2, 2);
    assert!(matches!(stream.deliver(), Pull::EndOfSequence));
    assert_eq!(stream.state(), StreamState::Closed);
    assert!(matches!(stream.offer(SourceEvent::Pending), Err(SourceEvent::Pending)));
    assert_eq!(asked.get(), 0);
}

#[test]
fn close_lets_go_of_everything_and_may_be_repeated() {
    let (source, asked) = Script::new((0..5).map(|i| traffic_chunk(i, i)).collect());
    let mut stream: ClashStream<Traffic, Script> = ClashStream::new(source);
    expect_traffic(stream.next_item(), 0, 0);
    assert_eq!(stream.buffered(), 4);
    stream.close();
    assert_eq!(stream.buffered(), 0);
    assert_eq!(stream.state(), StreamState::Closed);
    assert_eq!(stream.capacity(), 16);
    assert_eq!(Rc::strong_count(&asked), 1);
    assert!(matches!(stream.next_item(), Pull::EndOfSequence));
    stream.close();
    assert_eq!(stream.state(), StreamState::Closed);
    assert!(matches!(stream.next_item(), Pull::EndOfSequence));
}

#[test]
fn a_stream_without_room_never_asks() {
    let (source, asked) = Script::new(vec![traffic_chunk(1, 1)]);
    let mut stream: ClashStream<Traffic, Script> = ClashStream::with_capacity(source, 0);
    assert!(!stream.wants_chunk());
    assert!(matches!(stream.next_item(), Pull::NotYetReady));
    assert!(matches!(stream.next_item(), Pull::NotYetReady));
    assert_eq!(asked.get(), 0);
}

#[test]
fn answers_written_down_beforehand_are_a_source() {
    let mut answers: VecDeque<SourceEvent> = VecDeque::new();
    answers.push_back(traffic_chunk(1, 2));
    answers.push_back(SourceEvent::Pending);
    answers.push_back(traffic_chunk(3, 4));
    answers.push_back(SourceEvent::EndOfBody);

    let mut copy: VecDeque<SourceEvent> = VecDeque::new();
    copy.push_back(SourceEvent::SourceError);
    assert_eq!(copy.next_chunk(), SourceEvent::SourceError);
    assert_eq!(copy.next_chunk(), SourceEvent::Pending);
    assert_eq!(copy.next_chunk(), SourceEvent::Pending);

    let mut stream: ClashStream<Traffic, VecDeque<SourceEvent>> = ClashStream::new(answers);
    assert_eq!(stream.next_item(), Pull::Ready(Ok(Traffic { up: 1, down: 2 })));
    assert_eq!(stream.next_item(), Pull::Ready(Ok(Traffic { up: 3, down: 4 })));
    assert_eq!(stream.next_item(), Pull::EndOfSequence);
}
