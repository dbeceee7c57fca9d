use mpv_web_remote::error::Error;
use mpv_web_remote::ipc::{
    classify, react, Arg, StreamReader, Client, Event, Frame, ReadAction, ReadEvent, Request, Response,
    ServerMessage,
};
use mpv_web_remote::messages::Messages;
use serde_json::Value;

fn frame() -> Frame {
    Frame { request_id: None, error: None, event: None, id: None, name: None, data: None }
}

fn texts(r: &Request) -> Vec<String> {
    r.command()
        .iter()
        .map(|a| match a {
            Arg::Text(s) => s.clone(),
            other => format!("{:?}", other),
        })
        .collect()
}

#[test]
fn success_without_data_is_missing_data() {
    let f = Frame { request_id: Some(5), error: Some("success".to_string()), ..frame() };
    match classify(f) {
        Some(ServerMessage::Response(r)) => {
            assert_eq!(r.request_id, 5);
            assert!(r.check_error().is_ok());
            assert!(matches!(r.into_data(), Err(Error::MissingData)));
        }
        other => panic!("not a response: {:?}", other),
    }
}

#[test]
fn server_error_carries_reason() {
    let r = Response { request_id: 1, data: None, error: "property unavailable".to_string() };
    match r.check_error() {
        Err(Error::ServerError(reason)) => assert_eq!(reason, "property unavailable"),
        other => panic!("unexpected: {:?}", other),
    }
    match r.into_data() {
        Err(Error::ServerError(reason)) => assert_eq!(reason, "property unavailable"),
        other => panic!("unexpected: {:?}", other),
    }
}

#[test]
fn data_of_successful_response() {
    let r = Response { request_id: 2, data: Some(Value::Bool(true)), error: "success".to_string() };
    assert_eq!(r.into_data().unwrap(), Value::Bool(true));
}

#[test]
fn event_frame_decodes_to_event() {
    let f = Frame {
        event: Some("property-change".to_string()),
        id: Some(3),
        name: Some("pause".to_string()),
        data: Some(Value::Bool(false)),
        ..frame()
    };
    match classify(f) {
        Some(ServerMessage::Event(e)) => {
            assert_eq!(e.event, "property-change");
            assert_eq!(e.id, Some(3));
            assert_eq!(e.name.as_deref(), Some("pause"));
            assert_eq!(e.data, Some(Value::Bool(false)));
        }
        other => panic!("not an event: {:?}", other),
    }
}

#[test]
fn response_shape_is_tried_first() {
    let f = Frame {
        request_id: Some(9),
        error: Some("success".to_string()),
        event: Some("idle".to_string()),
        ..frame()
    };
    assert!(matches!(classify(f), Some(ServerMessage::Response(r)) if r.request_id == 9));
}

#[test]
fn frame_of_neither_shape_is_rejected() {
    assert!(classify(frame()).is_none());
    let f = Frame { request_id: Some(4), ..frame() };
    assert!(classify(f).is_none());
    let f = Frame { error: Some("success".to_string()), ..frame() };
    assert!(classify(f).is_none());
}

#[test]
fn reader_decisions() {
    assert!(matches!(react(ReadEvent::Closed), ReadAction::Shutdown));
    assert!(matches!(react(ReadEvent::Failed), ReadAction::Skip));
    assert!(matches!(react(ReadEvent::Unparsable), ReadAction::Skip));
    assert!(matches!(react(ReadEvent::Parsed(frame())), ReadAction::Skip));
    let f = Frame { event: Some("seek".to_string()), ..frame() };
    assert!(matches!(
        react(ReadEvent::Parsed(f)),
        ReadAction::Deliver(ServerMessage::Event(e)) if e.event == "seek"
    ));
}

#[test]
fn request_commands() {
    assert_eq!(texts(&Request::get_property("pause")), vec!["get_property", "pause"]);
    assert_eq!(texts(&Request::playback_time()), vec!["get_property", "playback-time"]);
    assert_eq!(texts(&Request::show_text("Test")), vec!["show-text", "Test"]);
    assert_eq!(
        texts(&Request::screenshot("/tmp/mpv.jpg")),
        vec!["screenshot-to-file", "/tmp/mpv.jpg"]
    );
    let r = Request::set_property("pause", Arg::Bool(true));
    assert_eq!(r.command()[2], Arg::Bool(true));
    assert_eq!(texts(&r)[..2], ["set_property", "pause"]);
    let r = Request::observe_property(1, "duration");
    assert_eq!(r.command()[1], Arg::Int(1));
    assert_eq!(r.request_id(), 0);
}

#[test]
fn ids_start_at_one_and_increase() {
    let mut client = Client::new(Messages::new());
    assert_eq!(client.last_request_id(), 0);
    let a = client.prepare(Request::get_property("pause"));
    let b = client.prepare(Request::show_text("x"));
    let c = client.prepare(Request::playback_time());
    assert_eq!((a.request_id(), b.request_id(), c.request_id()), (1, 2, 3));
    assert_eq!(client.last_request_id(), 3);
    assert_eq!(texts(&b), vec!["show-text", "x"]);
}

#[test]
fn echoed_response_reaches_its_sender() {
    let messages = Messages::new();
    let mut client = Client::new(messages.clone());
    let request = client.prepare(Request::get_property("duration"));
    let other = Frame { request_id: Some(request.request_id() + 1), error: Some("success".to_string()), ..frame() };
    let echo = Frame {
        request_id: Some(request.request_id()),
        error: Some("success".to_string()),
        data: Some(Value::from(12)),
        ..frame()
    };
    messages.push(classify(other).unwrap());
    messages.push(classify(echo).unwrap());
    let r = client.await_response(request.request_id()).unwrap();
    assert_eq!(r.request_id, 1);
    assert_eq!(r.data, Some(Value::from(12)));
    assert_eq!(messages.len(), 1);
}

#[test]
fn failed_response_is_an_error() {
    let messages = Messages::new();
    let client = Client::new(messages.clone());
    let f = Frame { request_id: Some(1), error: Some("invalid parameter".to_string()), ..frame() };
    messages.push(classify(f).unwrap());
    assert!(matches!(client.await_response(1), Err(Error::ServerError(s)) if s == "invalid parameter"));
    assert!(messages.is_empty());
}

#[test]
fn wait_event_takes_the_matching_event() {
    let messages = Messages::new();
    let client = Client::new(messages.clone());
    let restart = Frame { event: Some("playback-restart".to_string()), ..frame() };
    messages.push(classify(restart).unwrap());
    let e: Event = client.wait_event(|e| e.event == "playback-restart");
    assert_eq!(e.event, "playback-restart");
    assert!(messages.is_empty());
}

#[test]
fn wait_event_leaves_responses_and_other_events() {
    let messages = Messages::new();
    let client = Client::new(messages.clone());
    messages.push(classify(Frame { event: Some("pause".to_string()), ..frame() }).unwrap());
    messages.push(classify(Frame { request_id: Some(1), error: Some("success".to_string()), ..frame() }).unwrap());
    messages.push(classify(Frame { event: Some("playback-restart".to_string()), ..frame() }).unwrap());
    let e = client.wait_event(|e| e.event == "playback-restart");
    assert_eq!(e.event, "playback-restart");
    assert_eq!(messages.len(), 2);
}

#[test]
fn reader_terminates_only_on_close() {
    let mut reader = StreamReader::new();
    assert!(!reader.terminated());
    assert!(matches!(reader.step(ReadEvent::Failed), ReadAction::Skip));
    assert!(matches!(reader.step(ReadEvent::Unparsable), ReadAction::Skip));
    let f = Frame { request_id: Some(2), error: Some("success".to_string()), ..frame() };
    assert!(matches!(
        reader.step(ReadEvent::Parsed(f)),
        ReadAction::Deliver(ServerMessage::Response(r)) if r.request_id == 2
    ));
    assert!(!reader.terminated());
    assert!(matches!(reader.step(ReadEvent::Closed), ReadAction::Shutdown));
    assert!(reader.terminated());
}
