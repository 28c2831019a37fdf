use recognizer_core::bridge::RecvOutcome;
use recognizer_core::bridge::SendOutcome;
use recognizer_core::errors::ErrorKind;
use recognizer_core::messages::InboundMessage;
use recognizer_core::messages::OutboundMessage;
use recognizer_core::messages::RecognitionConfig;
use recognizer_core::messages::StreamEnd;
use recognizer_core::session::AuthToken;
use recognizer_core::session::FactoryAction;
use recognizer_core::session::Recognizer;
use recognizer_core::session::SessionFactory;
use recognizer_core::session::TransportChannel;

fn test_config() -> RecognitionConfig {
    RecognitionConfig { sample_rate_hertz: 8000, audio_channel_count: 1 }
}

fn ready_session(buffer_size: Option<usize>) -> Recognizer {
    let mut factory = SessionFactory::new(test_config(), buffer_size);
    assert!(matches!(factory.next_action(), FactoryAction::ResolveCredentials));
    factory
        .supply_credentials(Ok(AuthToken { header_value: "Bearer test".to_owned() }))
        .expect("credentials accepted");
    assert!(matches!(factory.next_action(), FactoryAction::Connect));
    factory.supply_transport(Ok(TransportChannel { id: 1 })).expect("transport accepted")
}

fn inbound(payload: &[u8], is_terminal: bool) -> InboundMessage {
    InboundMessage { payload: payload.to_vec(), is_terminal }
}

#[test]
fn full_streaming_scenario_delivers_config_then_chunks() {
    let mut session = ready_session(None);
    let sink = session.take_audio_sink().expect("the factory leaves the handle in place");
    let first = Recognizer::streaming_request_from_bytes(b"AAAA".to_vec());
    let second = Recognizer::streaming_request_from_bytes(b"BBBB".to_vec());
    assert!(matches!(session.send_audio(&sink, first), SendOutcome::Sent));
    assert!(matches!(session.send_audio(&sink, second), SendOutcome::Sent));
    session.release_audio_sink(sink);
    let receiver = session.get_streaming_result_receiver(None);
    // the transport double emits its terminal item only after end-of-input
    let report = session
        .streaming_recognize(true, vec![inbound(b"done", true)], StreamEnd::Closed)
        .expect("the drive completes without error");
    assert!(report.attempted);
    assert!(report.end_of_input, "end-of-input must be observed before the terminal item");
    assert_eq!(report.sent.len(), 3, "config plus two chunks");
    assert_eq!(report.sent[0], OutboundMessage::Configuration(test_config()));
    assert_eq!(report.sent[1], OutboundMessage::DataChunk(b"AAAA".to_vec()));
    assert_eq!(report.sent[2], OutboundMessage::DataChunk(b"BBBB".to_vec()));
    assert_eq!(report.forwarded, 1);
    match session.recv_result(&receiver) {
        RecvOutcome::Received(m) => {
            assert_eq!(m.payload, b"done".to_vec());
            assert!(m.is_terminal);
        }
        _ => panic!("the forwarded terminal item must be delivered"),
    }
    assert!(matches!(session.recv_result(&receiver), RecvOutcome::WouldBlock));
}

#[test]
fn credential_failure_prevents_any_connection_attempt() {
    let mut factory = SessionFactory::new(test_config(), None);
    let err = factory
        .supply_credentials(Err("invalid credentials file".to_owned()))
        .expect_err("resolution failed");
    assert_eq!(err.kind, Some(ErrorKind::ConfigurationError));
    assert_eq!(err.message, "invalid credentials file".to_owned());
    assert!(
        matches!(factory.next_action(), FactoryAction::Halt),
        "no connection attempt may be observable after a credential failure"
    );
}

#[test]
fn transport_failure_is_a_transport_error() {
    let mut factory = SessionFactory::new(test_config(), None);
    factory
        .supply_credentials(Ok(AuthToken { header_value: "Bearer test".to_owned() }))
        .expect("credentials accepted");
    let err = factory
        .supply_transport(Err("connection refused".to_owned()))
        .expect_err("connect failed");
    assert_eq!(err.kind, Some(ErrorKind::TransportError));
    assert!(matches!(factory.next_action(), FactoryAction::Halt));
}

#[test]
fn capacity_zero_fails_the_initial_enqueue() {
    let mut factory = SessionFactory::new(test_config(), Some(0));
    factory
        .supply_credentials(Ok(AuthToken { header_value: "Bearer test".to_owned() }))
        .expect("credentials accepted");
    let err = factory
        .supply_transport(Ok(TransportChannel { id: 1 }))
        .expect_err("no room for the configuration message");
    assert_eq!(err.kind, Some(ErrorKind::ConfigurationError));
}

#[test]
fn second_drive_is_a_noop() {
    let mut session = ready_session(None);
    let sink = session.take_audio_sink().expect("handle present");
    session.release_audio_sink(sink);
    let first = session
        .streaming_recognize(true, vec![], StreamEnd::Closed)
        .expect("first drive completes");
    assert!(first.attempted);
    let second = session
        .streaming_recognize(true, vec![inbound(b"late", false)], StreamEnd::Closed)
        .expect("a repeated drive must succeed without doing anything");
    assert!(!second.attempted);
    assert!(second.sent.is_empty());
    assert_eq!(second.forwarded, 0);
}

#[test]
fn dropping_the_taken_sink_terminates_outbound() {
    let mut session = ready_session(None);
    let sink = session.take_audio_sink().expect("handle present");
    assert!(session.take_audio_sink().is_none(), "the handle moves out exactly once");
    session.release_audio_sink(sink);
    let report = session
        .streaming_recognize(true, vec![], StreamEnd::Closed)
        .expect("drive completes");
    assert!(report.end_of_input, "all handles gone: the drive drains and finishes");
}

#[test]
fn cloned_sink_alone_cannot_signal_end_of_input() {
    let mut session = ready_session(None);
    let clone = session.get_audio_sink().expect("cloning keeps the session's own handle");
    session.release_audio_sink(clone);
    let report = session
        .streaming_recognize(true, vec![], StreamEnd::Closed)
        .expect("drive completes");
    assert!(
        !report.end_of_input,
        "the session's live reference keeps the remote waiting: the idle-input failure mode"
    );
}

#[test]
fn result_delivery_replacement_starves_the_first_receiver() {
    let mut session = ready_session(None);
    let sink = session.take_audio_sink().expect("handle present");
    session.release_audio_sink(sink);
    let first_receiver = session.get_streaming_result_receiver(None);
    let second_receiver = session.get_streaming_result_receiver(None);
    session
        .streaming_recognize(
            true,
            vec![inbound(b"one", false), inbound(b"two", true)],
            StreamEnd::Closed,
        )
        .expect("drive completes");
    assert!(matches!(session.recv_result(&first_receiver), RecvOutcome::Disconnected));
    match session.recv_result(&second_receiver) {
        RecvOutcome::Received(m) => assert_eq!(m.payload, b"one".to_vec()),
        _ => panic!("the current receiver gets every subsequent message"),
    }
    match session.recv_result(&second_receiver) {
        RecvOutcome::Received(m) => assert_eq!(m.payload, b"two".to_vec()),
        _ => panic!("no message may be lost or duplicated"),
    }
    assert!(matches!(session.recv_result(&first_receiver), RecvOutcome::Disconnected));
}

#[test]
fn forwarding_stalls_on_a_full_result_channel() {
    let mut session = ready_session(None);
    let sink = session.take_audio_sink().expect("handle present");
    session.release_audio_sink(sink);
    let receiver = session.get_streaming_result_receiver(Some(1));
    let report = session
        .streaming_recognize(
            true,
            vec![inbound(b"first", false), inbound(b"second", false)],
            StreamEnd::Closed,
        )
        .expect("a stalled drive reports rather than fails");
    assert!(report.stalled, "the second message exceeds the capacity");
    assert_eq!(report.forwarded, 1);
    match session.recv_result(&receiver) {
        RecvOutcome::Received(m) => assert_eq!(m.payload, b"first".to_vec()),
        _ => panic!("the first message was delivered before the stall"),
    }
}

#[test]
fn transport_fault_ends_the_drive_with_an_error() {
    let mut session = ready_session(None);
    let sink = session.take_audio_sink().expect("handle present");
    session.release_audio_sink(sink);
    let receiver = session.get_streaming_result_receiver(None);
    let err = session
        .streaming_recognize(
            true,
            vec![inbound(b"partial", false)],
            StreamEnd::Fault("stream reset".to_owned()),
        )
        .expect_err("the fault propagates");
    assert_eq!(err.kind, Some(ErrorKind::TransportError));
    assert_eq!(err.message, "stream reset".to_owned());
    match session.recv_result(&receiver) {
        RecvOutcome::Received(m) => assert_eq!(m.payload, b"partial".to_vec()),
        _ => panic!("messages delivered before the fault are not retracted"),
    }
}

#[test]
fn refused_call_is_a_transport_error() {
    let mut session = ready_session(None);
    let err = session
        .streaming_recognize(false, vec![], StreamEnd::Closed)
        .expect_err("the call was refused");
    assert_eq!(err.kind, Some(ErrorKind::TransportError));
}

#[test]
fn send_after_drive_returns_the_item_as_terminal() {
    let mut session = ready_session(None);
    let sink = session.take_audio_sink().expect("handle present");
    session
        .streaming_recognize(true, vec![], StreamEnd::Closed)
        .expect("drive completes");
    let late = Recognizer::streaming_request_from_bytes(b"late".to_vec());
    match session.send_audio(&sink, late) {
        SendOutcome::Closed(m) => assert_eq!(m, OutboundMessage::DataChunk(b"late".to_vec())),
        _ => panic!("a send after the consumer was taken is terminal and hands the item back"),
    }
    session.release_audio_sink(sink);
}

#[test]
fn pull_stream_yields_messages_and_then_the_fault() {
    let mut session = ready_session(None);
    let sink = session.take_audio_sink().expect("handle present");
    assert!(matches!(
        session.send_audio(&sink, Recognizer::streaming_request_from_bytes(b"CC".to_vec())),
        SendOutcome::Sent
    ));
    session.release_audio_sink(sink);
    let out = session.streaming_recognize_async_stream(
        true,
        vec![inbound(b"r1", false), inbound(b"r2", true)],
        StreamEnd::Fault("deadline exceeded".to_owned()),
    );
    assert!(out.report.attempted);
    assert_eq!(out.report.sent.len(), 2);
    assert!(out.report.end_of_input);
    assert_eq!(out.yielded.len(), 2);
    assert_eq!(out.yielded[0].payload, b"r1".to_vec());
    assert_eq!(out.yielded[1].payload, b"r2".to_vec());
    let fault = out.fault.expect("the stream ended in a fault");
    assert_eq!(fault.kind, Some(ErrorKind::TransportError));
    // the same underlying call cannot be driven a second time
    let again = session.streaming_recognize_async_stream(true, vec![], StreamEnd::Closed);
    assert!(!again.report.attempted);
    assert!(again.yielded.is_empty());
    assert!(again.fault.is_none());
}

#[test]
fn recognize_is_independent_of_streaming_state() {
    let mut session = Recognizer::create_synchronous_recognizer(TransportChannel { id: 9 });
    let ok = session
        .recognize(Ok(inbound(b"transcript", true)))
        .expect("a successful call passes the response through");
    assert_eq!(ok.payload, b"transcript".to_vec());
    let err = session
        .recognize(Err("unavailable".to_owned()))
        .expect_err("a failed call propagates");
    assert_eq!(err.kind, Some(ErrorKind::TransportError));
    assert_eq!(err.message, "unavailable".to_owned());
    let mut long_running = Recognizer::create_asynchronous_recognizer(TransportChannel { id: 10 });
    let report = long_running
        .streaming_recognize(true, vec![], StreamEnd::Closed)
        .expect("no outbound queue: the drive is a no-op");
    assert!(!report.attempted);
}

#[test]
fn clone_accessor_returns_nothing_once_the_handle_was_taken() {
    let mut session = ready_session(None);
    let extra = session.get_audio_sink().expect("cloning works while the handle is held");
    let sink = session.take_audio_sink().expect("the handle itself can still be moved out");
    assert!(session.get_audio_sink().is_none(), "after the transfer nothing is left to clone");
    assert!(session.take_audio_sink().is_none());
    session.release_audio_sink(extra);
    session.release_audio_sink(sink);
    let report = session
        .streaming_recognize(true, vec![], StreamEnd::Closed)
        .expect("drive completes");
    assert!(report.end_of_input, "both handles were released");
}

#[test]
fn channel_drive_and_pull_drive_exclude_each_other() {
    let mut session = ready_session(None);
    let sink = session.take_audio_sink().expect("handle present");
    session.release_audio_sink(sink);
    session
        .streaming_recognize(true, vec![], StreamEnd::Closed)
        .expect("the channel drive runs first");
    let pull = session.streaming_recognize_async_stream(
        true,
        vec![inbound(b"late", false)],
        StreamEnd::Closed,
    );
    assert!(!pull.report.attempted, "the call is consumed: the pull path observes nothing");
    assert!(pull.yielded.is_empty());

    let mut other = ready_session(None);
    let sink2 = other.take_audio_sink().expect("handle present");
    other.release_audio_sink(sink2);
    let pull_first = other.streaming_recognize_async_stream(true, vec![], StreamEnd::Closed);
    assert!(pull_first.report.attempted);
    let report = other
        .streaming_recognize(true, vec![inbound(b"late", false)], StreamEnd::Closed)
        .expect("a drive after the pull path must be the no-op");
    assert!(!report.attempted);
    assert_eq!(report.forwarded, 0);
}

#[test]
fn drop_audio_sink_alone_closes_when_no_clones_exist() {
    let mut session = ready_session(None);
    session.drop_audio_sink();
    assert!(session.take_audio_sink().is_none(), "the session's handle is gone");
    let report = session
        .streaming_recognize(true, vec![], StreamEnd::Closed)
        .expect("drive completes");
    assert!(report.end_of_input);
}
