use transport_session::event_log::{EventLogEntry, Severity};
use transport_session::inbound::{InboundStream, LoopControl};
use transport_session::outbound::SendStep;
use transport_session::session::{SessionEvent, SessionState, WasmCtx};

fn log_entry(message: &str, severity: Severity) -> EventLogEntry {
    EventLogEntry { message: message.to_string(), severity }
}

fn ready_manager() -> WasmCtx {
    let mut ctx = WasmCtx::new();
    ctx.connect(SessionEvent::ConnectRequested { url: "https://localhost:4433/".to_string() })
        .unwrap();
    ctx.connect(SessionEvent::Created).unwrap();
    ctx.connect(SessionEvent::HandshakeCompleted).unwrap();
    ctx
}

fn accepted_stream(ctx: &mut WasmCtx) -> InboundStream {
    ctx.accept_unidirectional_streams(Ok(())).unwrap()
}

#[test]
fn datagram_is_logged_as_text_and_loop_goes_on() {
    let mut ctx = ready_manager();
    let control = ctx.read_datagrams(Ok(b"hello"));
    assert_eq!(control, LoopControl::Continue);
    assert_eq!(
        ctx.logger().entries().last(),
        Some(&log_entry("Datagram received: hello", Severity::Info))
    );
    assert_eq!(ctx.logger().entries().len(), 3);
}

#[test]
fn empty_datagram_is_logged_with_empty_text() {
    let mut ctx = ready_manager();
    assert_eq!(ctx.read_datagrams(Ok(b"")), LoopControl::Continue);
    assert_eq!(
        ctx.logger().entries().last(),
        Some(&log_entry("Datagram received: ", Severity::Info))
    );
}

#[test]
fn malformed_datagram_is_repaired_not_refused() {
    let mut ctx = ready_manager();
    let control = ctx.read_datagrams(Ok(&[0x68, 0x69, 0xff, 0x21]));
    assert_eq!(control, LoopControl::Continue);
    assert_eq!(
        ctx.logger().entries().last(),
        Some(&log_entry("Datagram received: hi\u{fffd}!", Severity::Info))
    );
}

#[test]
fn datagram_error_is_logged_and_ends_the_loop_only() {
    let mut ctx = ready_manager();
    let control = ctx.read_datagrams(Err("session closed".to_string()));
    assert_eq!(control, LoopControl::Stop);
    assert_eq!(
        ctx.logger().entries().last(),
        Some(&log_entry("Error while reading datagrams: session closed", Severity::Error))
    );
    assert_eq!(ctx.state(), SessionState::Ready);
    assert_eq!(ctx.next_stream_number(), 1);
}

#[test]
fn several_datagrams_are_logged_in_order_of_arrival() {
    let mut ctx = ready_manager();
    ctx.read_datagrams(Ok(b"one"));
    ctx.read_datagrams(Ok(b"two"));
    ctx.read_datagrams(Ok(b"three"));
    let messages: Vec<&str> =
        ctx.logger().entries().iter().skip(2).map(|e| e.message.as_str()).collect();
    assert_eq!(
        messages,
        vec!["Datagram received: one", "Datagram received: two", "Datagram received: three"]
    );
}

#[test]
fn accepted_stream_gets_next_number_and_is_logged() {
    let mut ctx = ready_manager();
    let stream = ctx.accept_unidirectional_streams(Ok(())).unwrap();
    assert_eq!(stream.number(), 1);
    assert!(stream.data().is_empty());
    assert_eq!(ctx.next_stream_number(), 2);
    assert_eq!(
        ctx.logger().entries().last(),
        Some(&log_entry("New incoming unidirectional stream #1", Severity::Info))
    );
    let second = ctx.accept_unidirectional_streams(Ok(())).unwrap();
    assert_eq!(second.number(), 2);
    assert_eq!(
        ctx.logger().entries().last(),
        Some(&log_entry("New incoming unidirectional stream #2", Severity::Info))
    );
}

#[test]
fn accept_error_is_logged_and_ends_the_loop_only() {
    let mut ctx = ready_manager();
    let stream = ctx.accept_unidirectional_streams(Err("session closed".to_string()));
    assert_eq!(stream, None);
    assert_eq!(ctx.next_stream_number(), 1);
    assert_eq!(ctx.state(), SessionState::Ready);
    assert_eq!(
        ctx.logger().entries().last(),
        Some(&log_entry("Error while accepting uni streams: session closed", Severity::Error))
    );
}

#[test]
fn stream_numbers_reach_two_digits() {
    let mut ctx = ready_manager();
    for _ in 0..11 {
        accepted_stream(&mut ctx);
    }
    let twelfth = accepted_stream(&mut ctx);
    assert_eq!(twelfth.number(), 12);
    assert_eq!(
        ctx.logger().entries().last(),
        Some(&log_entry("New incoming unidirectional stream #12", Severity::Info))
    );
}

#[test]
fn stream_that_ends_at_once_is_closed_once_with_empty_data() {
    let mut ctx = ready_manager();
    let stream = accepted_stream(&mut ctx);
    let before = ctx.logger().entries().len();
    let buf = [0u8; 1024];
    let rest = ctx.read_from_incoming_stream(stream, &buf, Ok(None));
    assert_eq!(rest, None);
    let entries = ctx.logger().entries();
    assert_eq!(entries.len(), before + 2);
    assert_eq!(entries[before], log_entry("Stream #1 closed", Severity::Info));
    assert_eq!(entries[before + 1], log_entry("Data received: ", Severity::Info));
    assert_eq!(entries.iter().filter(|e| e.message == "Stream #1 closed").count(), 1);
}

#[test]
fn stream_bytes_are_gathered_and_logged_at_the_end_only() {
    let mut ctx = ready_manager();
    let stream = accepted_stream(&mut ctx);
    let before = ctx.logger().entries().len();
    let mut buf = [0u8; 8];
    buf[..5].copy_from_slice(b"hello");
    let stream = ctx.read_from_incoming_stream(stream, &buf, Ok(Some(5))).unwrap();
    assert_eq!(stream.data(), &b"hello".to_vec());
    assert_eq!(stream.number(), 1);
    assert_eq!(ctx.logger().entries().len(), before);
    buf[..7].copy_from_slice(b", world");
    let stream = ctx.read_from_incoming_stream(stream, &buf, Ok(Some(7))).unwrap();
    assert_eq!(stream.data(), &b"hello, world".to_vec());
    assert_eq!(ctx.logger().entries().len(), before);
    let rest = ctx.read_from_incoming_stream(stream, &buf, Ok(None));
    assert_eq!(rest, None);
    let entries = ctx.logger().entries();
    assert_eq!(entries.len(), before + 2);
    assert_eq!(entries[before], log_entry("Stream #1 closed", Severity::Info));
    assert_eq!(entries[before + 1], log_entry("Data received: hello, world", Severity::Info));
}

#[test]
fn read_of_no_bytes_keeps_the_stream_open() {
    let mut ctx = ready_manager();
    let stream = accepted_stream(&mut ctx);
    let buf = [7u8; 4];
    let stream = ctx.read_from_incoming_stream(stream, &buf, Ok(Some(0))).unwrap();
    assert!(stream.data().is_empty());
    let stream = ctx.read_from_incoming_stream(stream, &buf, Ok(Some(4))).unwrap();
    assert_eq!(stream.data(), &vec![7u8, 7, 7, 7]);
}

#[test]
fn character_split_over_two_reads_is_decoded_whole() {
    let mut ctx = ready_manager();
    let stream = accepted_stream(&mut ctx);
    let stream = ctx.read_from_incoming_stream(stream, &[0xc3], Ok(Some(1))).unwrap();
    let stream = ctx.read_from_incoming_stream(stream, &[0xa9], Ok(Some(1))).unwrap();
    assert_eq!(ctx.read_from_incoming_stream(stream, &[], Ok(None)), None);
    assert_eq!(
        ctx.logger().entries().last(),
        Some(&log_entry("Data received: \u{e9}", Severity::Info))
    );
}

#[test]
fn malformed_stream_data_is_repaired() {
    let mut ctx = ready_manager();
    let stream = accepted_stream(&mut ctx);
    let stream = ctx.read_from_incoming_stream(stream, &[0x61, 0x80, 0x62], Ok(Some(3))).unwrap();
    assert_eq!(ctx.read_from_incoming_stream(stream, &[], Ok(None)), None);
    assert_eq!(
        ctx.logger().entries().last(),
        Some(&log_entry("Data received: a\u{fffd}b", Severity::Info))
    );
}

#[test]
fn read_error_is_logged_with_the_stream_number() {
    let mut ctx = ready_manager();
    accepted_stream(&mut ctx);
    let stream = accepted_stream(&mut ctx);
    let before = ctx.logger().entries().len();
    let stream = ctx.read_from_incoming_stream(stream, b"partial", Ok(Some(7))).unwrap();
    let rest = ctx.read_from_incoming_stream(stream, b"partial", Err("reset".to_string()));
    assert_eq!(rest, None);
    let entries = ctx.logger().entries();
    assert_eq!(entries.len(), before + 1);
    assert_eq!(entries[before], log_entry("Error while reading stream 2: reset", Severity::Error));
    assert_eq!(ctx.state(), SessionState::Ready);
}

#[test]
fn interleaved_requests_get_distinct_consecutive_numbers() {
    let mut ctx = ready_manager();
    let mut numbers = Vec::new();
    for round in 0..6 {
        if round % 2 == 0 {
            numbers.push(accepted_stream(&mut ctx).number());
        } else {
            let operation = match ctx.send_data("bidi", "x").unwrap() {
                SendStep::Perform(operation, _) => operation,
                other => panic!("unexpected step {:?}", other),
            };
            let writing = match ctx.send_progress(operation, Ok(())).unwrap() {
                SendStep::Perform(operation, _) => operation,
                other => panic!("unexpected step {:?}", other),
            };
            numbers.push(accepted_stream(&mut ctx).number());
            let closing = match ctx.send_progress(writing, Ok(())).unwrap() {
                SendStep::Perform(operation, _) => operation,
                other => panic!("unexpected step {:?}", other),
            };
            match ctx.send_progress(closing, Ok(())).unwrap() {
                SendStep::Opened(stream) => numbers.push(stream.number()),
                other => panic!("unexpected step {:?}", other),
            }
        }
    }
    let mut sorted = numbers.clone();
    sorted.sort();
    let expected: Vec<u32> = (1..=9).collect();
    assert_eq!(sorted, expected);
    assert_eq!(ctx.next_stream_number(), 10);
}
