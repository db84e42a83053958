use querent_synapse::comm::channel::{
    poll_result, polled_state, polled_tokens, send_outcome, ChannelHandler, ChannelInterface,
    PollError, PyMessageInterface, RecvFailure, SendFailure, SendOutcome,
};
use querent_synapse::comm::types::ingested_tokens::IngestedTokens;
use querent_synapse::comm::types::message::{MessageState, MessageType};
use querent_synapse::cross::clrepr_python::{ExtractError, PyValue};

fn s(text: &str) -> PyValue {
    PyValue::Str(text.to_string())
}

fn message(kind: MessageType, payload: &str) -> MessageState {
    MessageState { message_type: kind, timestamp: 1.5f64.to_bits(), payload: payload.to_string() }
}

fn tokens(file: &str) -> IngestedTokens {
    IngestedTokens {
        data: Some(vec!["a".to_string(), "b".to_string()]),
        file: file.to_string(),
        is_token_stream: Some(true),
        doc_source: "src".to_string(),
    }
}

#[test]
fn message_type_names_are_lower_case_and_closed() {
    let names = [
        ("start", MessageType::Start),
        ("stop", MessageType::Stop),
        ("pause", MessageType::Pause),
        ("resume", MessageType::Resume),
        ("restart", MessageType::Restart),
        ("status", MessageType::Status),
        ("metrics", MessageType::Metrics),
    ];
    for (name, kind) in names {
        assert_eq!(MessageType::extract(&s(name)), Ok(kind));
    }
    for bad in ["Start", "START", "", "stopp", "start "] {
        assert_eq!(MessageType::extract(&s(bad)), Err(ExtractError::InvalidMessageType));
    }
    assert_eq!(MessageType::extract(&PyValue::Bool(true)), Err(ExtractError::InvalidMessageType));
}

#[test]
fn message_type_is_shown_by_its_label() {
    assert_eq!(MessageType::Start.into_py(), s("Start"));
    assert_eq!(MessageType::Stop.into_py(), s("Stop"));
    assert_eq!(MessageType::Pause.into_py(), s("Pause"));
    assert_eq!(MessageType::Resume.into_py(), s("Resume"));
    assert_eq!(MessageType::Restart.into_py(), s("Restart"));
    assert_eq!(MessageType::Status.into_py(), s("Status"));
    assert_eq!(MessageType::Metrics.into_py(), s("Metrics"));
}

#[test]
fn message_state_extract_and_into_py() {
    let d = PyValue::Dict(vec![
        (s("message_type"), s("pause")),
        (s("timestamp"), PyValue::Float(2.0f64.to_bits())),
        (s("payload"), s("p")),
    ]);
    let got = MessageState::extract(&d).unwrap();
    assert_eq!(
        got,
        MessageState {
            message_type: MessageType::Pause,
            timestamp: 2.0f64.to_bits(),
            payload: "p".to_string()
        }
    );
    assert_eq!(
        got.into_py(),
        PyValue::Dict(vec![
            (s("message_type"), s("Pause")),
            (s("timestamp"), PyValue::Float(2.0f64.to_bits())),
            (s("payload"), s("p")),
        ])
    );
    assert_eq!(MessageState::extract(&s("x")), Err(ExtractError::NotADict));
    assert_eq!(MessageState::extract(&PyValue::Dict(vec![])), Err(ExtractError::MissingKey));
    let bad = PyValue::Dict(vec![(s("message_type"), s("Pause"))]);
    assert_eq!(MessageState::extract(&bad), Err(ExtractError::InvalidMessageType));
    let bad = PyValue::Dict(vec![
        (s("message_type"), s("pause")),
        (s("timestamp"), PyValue::Int(2)),
        (s("payload"), s("p")),
    ]);
    assert_eq!(MessageState::extract(&bad), Err(ExtractError::WrongType));
}

#[test]
fn ingested_tokens_to_object_and_back() {
    let t = tokens("file.txt");
    let image = t.to_object();
    assert_eq!(
        image,
        PyValue::Dict(vec![
            (s("data"), PyValue::List(vec![s("a"), s("b")])),
            (s("file"), s("file.txt")),
            (s("is_token_stream"), PyValue::Bool(true)),
            (s("doc_source"), s("src")),
        ])
    );
    assert_eq!(IngestedTokens::extract(&image), Ok(t.clone()));
    assert_eq!(t.clone().into_py(), image);

    let empty = IngestedTokens {
        data: None,
        file: "".to_string(),
        is_token_stream: None,
        doc_source: "".to_string(),
    };
    let image = empty.to_object();
    assert_eq!(
        image,
        PyValue::Dict(vec![
            (s("data"), PyValue::NoneValue),
            (s("file"), s("")),
            (s("is_token_stream"), PyValue::NoneValue),
            (s("doc_source"), s("")),
        ])
    );
    assert_eq!(IngestedTokens::extract(&image), Ok(empty));
}

#[test]
fn ingested_tokens_extract_errors() {
    assert_eq!(IngestedTokens::extract(&PyValue::NoneValue), Err(ExtractError::NotADict));
    let base = tokens("f").to_object();
    let PyValue::Dict(items) = base else { panic!("not a dictionary") };
    for missing in 0..4 {
        let mut d = items.iter().map(|(k, v)| (clone(k), clone(v))).collect::<Vec<_>>();
        d.remove(missing);
        assert_eq!(IngestedTokens::extract(&PyValue::Dict(d)), Err(ExtractError::MissingKey));
    }
    let mut d = items.iter().map(|(k, v)| (clone(k), clone(v))).collect::<Vec<_>>();
    d[0].1 = PyValue::List(vec![s("a"), PyValue::Int(1)]);
    assert_eq!(IngestedTokens::extract(&PyValue::Dict(d)), Err(ExtractError::WrongType));
    let mut d = items.iter().map(|(k, v)| (clone(k), clone(v))).collect::<Vec<_>>();
    d[2].1 = s("yes");
    assert_eq!(IngestedTokens::extract(&PyValue::Dict(d)), Err(ExtractError::WrongType));
}

fn clone(p: &PyValue) -> PyValue {
    match p {
        PyValue::NoneValue => PyValue::NoneValue,
        PyValue::Bool(b) => PyValue::Bool(*b),
        PyValue::Int(i) => PyValue::Int(*i),
        PyValue::Float(f) => PyValue::Float(*f),
        PyValue::Str(t) => PyValue::Str(t.clone()),
        PyValue::SafeStr(t) => PyValue::SafeStr(t.clone()),
        PyValue::Tuple(xs) => PyValue::Tuple(xs.iter().map(clone).collect()),
        PyValue::List(xs) => PyValue::List(xs.iter().map(clone).collect()),
        PyValue::Dict(xs) => PyValue::Dict(xs.iter().map(|(k, v)| (clone(k), clone(v))).collect()),
        PyValue::Object(h) => PyValue::Object(*h),
    }
}

#[test]
fn handler_without_endpoints_gives_nothing() {
    let mut h = ChannelHandler::new(None, None, None, None);
    assert!(h.receive_tokens_in_python().is_none());
    assert!(h.receive_in_python().is_none());
    h.send_in_rust(MessageType::Start, message(MessageType::Start, "x"));
    assert_eq!(h.poll_tokens(), Err(PollError::NoChannel));
    assert_eq!(h.poll_message(), Err(PollError::NoChannel));
    assert_eq!(
        h.try_send_in_rust(MessageType::Start, message(MessageType::Start, "x")),
        SendOutcome::NoChannel
    );
}

#[test]
fn tokens_are_received_in_order_and_never_block() {
    let (tx, rx) = crossbeam_channel::unbounded();
    let mut h = ChannelHandler::new(Some(rx), None, None, None);
    assert!(h.receive_tokens_in_python().is_none());
    assert_eq!(h.poll_tokens(), Err(PollError::Empty));
    tx.send(tokens("one")).unwrap();
    tx.send(tokens("two")).unwrap();
    assert_eq!(h.receive_tokens_in_python().unwrap().file, "one");
    assert_eq!(h.poll_tokens().unwrap().file, "two");
    assert!(h.receive_tokens_in_python().is_none());
    drop(tx);
    assert_eq!(h.poll_tokens(), Err(PollError::Disconnected));
    assert!(h.receive_tokens_in_python().is_none());
}

#[test]
fn messages_from_the_host_reach_the_embedded_side() {
    let (py_tx, py_rx) = crossbeam_channel::unbounded();
    let mut h = ChannelHandler::new(None, Some(py_tx.clone()), Some(py_rx), None);
    assert!(h.receive_in_python().is_none());
    py_tx.send((MessageType::Stop, message(MessageType::Stop, "halt"))).unwrap();
    let got = h.receive_in_python().unwrap();
    assert_eq!(got, message(MessageType::Stop, "halt"));
    assert!(h.receive_in_python().is_none());
    py_tx.send((MessageType::Status, message(MessageType::Status, "s"))).unwrap();
    let (kind, state) = h.poll_message().unwrap();
    assert_eq!(kind, MessageType::Status);
    assert_eq!(state.payload, "s");
}

#[test]
fn messages_to_the_host_are_sent_or_dropped_without_blocking() {
    let (tx, rx) = crossbeam_channel::bounded(1);
    let mut h = ChannelHandler::new(None, None, None, Some(tx));
    assert_eq!(
        h.try_send_in_rust(MessageType::Metrics, message(MessageType::Metrics, "1")),
        SendOutcome::Sent
    );
    assert_eq!(
        h.try_send_in_rust(MessageType::Metrics, message(MessageType::Metrics, "2")),
        SendOutcome::Full
    );
    h.send_in_rust(MessageType::Metrics, message(MessageType::Metrics, "3"));
    let got = rx.try_recv().unwrap();
    assert_eq!(got.0, MessageType::Metrics);
    assert_eq!(got.1.payload, "1");
    assert!(rx.try_recv().is_err());
    drop(rx);
    assert_eq!(
        h.try_send_in_rust(MessageType::Metrics, message(MessageType::Metrics, "4")),
        SendOutcome::Disconnected
    );
    h.send_in_rust(MessageType::Metrics, message(MessageType::Metrics, "5"));
}

#[test]
fn message_interface_delegates_and_clones_share_queues() {
    let (tok_tx, tok_rx) = crossbeam_channel::unbounded();
    let (py_tx, py_rx) = crossbeam_channel::unbounded();
    let (tx, rx) = crossbeam_channel::unbounded();
    let handler = ChannelHandler::new(Some(tok_rx), Some(py_tx.clone()), Some(py_rx), Some(tx));
    let mut a = PyMessageInterface::new(handler.clone());
    let mut b = a.clone();
    tok_tx.send(tokens("t")).unwrap();
    py_tx.send((MessageType::Resume, message(MessageType::Resume, "go"))).unwrap();
    assert_eq!(a.receive_tokens_in_python().unwrap().file, "t");
    assert!(b.receive_tokens_in_python().is_none());
    assert_eq!(b.receive_in_python().unwrap().payload, "go");
    assert!(a.receive_in_python().is_none());
    assert_eq!(
        b.send_in_rust(MessageType::Start, message(MessageType::Start, "up")),
        SendOutcome::Sent
    );
    assert_eq!(rx.try_recv().unwrap().1.payload, "up");
    let mut none = PyMessageInterface::new(ChannelHandler::new(None, None, None, None));
    assert_eq!(
        none.send_in_rust(MessageType::Start, message(MessageType::Start, "up")),
        SendOutcome::NoChannel
    );
    assert!(none.receive_in_python().is_none());
    assert!(none.receive_tokens_in_python().is_none());
}

#[test]
fn poll_and_send_reports_follow_the_queue() {
    assert_eq!(poll_result(Ok(5u8)), Ok(5u8));
    assert_eq!(poll_result::<u8>(Err(RecvFailure::Empty)), Err(PollError::Empty));
    assert_eq!(poll_result::<u8>(Err(RecvFailure::Disconnected)), Err(PollError::Disconnected));
    assert_eq!(send_outcome(Ok(())), SendOutcome::Sent);
    assert_eq!(send_outcome(Err(SendFailure::Full)), SendOutcome::Full);
    assert_eq!(send_outcome(Err(SendFailure::Disconnected)), SendOutcome::Disconnected);
}

#[test]
fn a_failed_poll_gives_the_embedded_side_nothing() {
    assert_eq!(polled_tokens(Ok(tokens("f"))), Some(tokens("f")));
    assert_eq!(
        polled_state(Ok((MessageType::Stop, message(MessageType::Stop, "halt")))),
        Some(message(MessageType::Stop, "halt"))
    );
    for why in [PollError::NoChannel, PollError::Empty, PollError::Disconnected] {
        assert_eq!(polled_tokens(Err(why)), None);
        assert_eq!(polled_state(Err(why)), None);
    }
}
