//! The messages exchanged with the player, how an inbound frame is told to be
//! a response or an event, and the request bookkeeping of one connection.
use serde_json::Value;
use vstd::prelude::*;

use crate::error::Error;
use crate::messages::Messages;
use crate::pending::{accepts, total_filter};

verus! {

/// serde_json's JSON value, carried opaque: payloads pass through unread.
#[verifier::external_type_specification]
#[verifier::external_body]
pub struct ExValue(Value);

/// One argument of a command.
#[derive(Debug, PartialEq)]
pub enum Arg {
    Text(String),
    Int(i64),
    Bool(bool),
    /// Any other JSON value, passed on as it is.
    Json(Value),
}

/// Whether `a` is the text `s`.
pub open spec fn is_text(a: Arg, s: Seq<char>) -> bool {
    match a {
        Arg::Text(t) => t@ == s,
        _ => false,
    }
}

/// Whether `command` is the command `name` with the text argument `arg`.
pub open spec fn text_command(command: Seq<Arg>, name: Seq<char>, arg: Seq<char>) -> bool {
    &&& command.len() == 2
    &&& is_text(command[0], name)
    &&& is_text(command[1], arg)
}

fn text_arg(s: &str) -> (r: Arg)
    ensures
        is_text(r, s@),
{
    Arg::Text(s.to_owned())
}

/// Request to send to the player: a command name followed by its arguments,
/// and the id that its response will carry (0 until the request is sent).
#[derive(Debug)]
pub struct Request {
    command: Vec<Arg>,
    request_id: i64,
}

impl Request {
    /// The command name and its arguments.
    pub closed spec fn words(&self) -> Seq<Arg> {
        self.command@
    }

    /// The id of the request.
    pub closed spec fn id(&self) -> i64 {
        self.request_id
    }

    /// A request of `command`, with no id yet.
    pub fn new(command: Vec<Arg>) -> (r: Self)
        ensures
            r.words() == command@,
            r.id() == 0,
    {
        Request { command, request_id: 0 }
    }

    /// The command name and its arguments.
    pub fn command(&self) -> (r: &Vec<Arg>)
        ensures
            r@ == self.words(),
    {
        &self.command
    }

    /// The id of the request.
    pub fn request_id(&self) -> (r: i64)
        ensures
            r == self.id(),
    {
        self.request_id
    }

    /// Reads the `playback-time` property.
    pub fn playback_time() -> (r: Self)
        ensures
            text_command(r.words(), "get_property"@, "playback-time"@),
            r.id() == 0,
    {
        Self::get_property("playback-time")
    }

    /// Reads the value of `property`.
    pub fn get_property(property: &str) -> (r: Self)
        ensures
            text_command(r.words(), "get_property"@, property@),
            r.id() == 0,
    {
        let mut command: Vec<Arg> = Vec::new();
        command.push(text_arg("get_property"));
        command.push(text_arg(property));
        Request { command, request_id: 0 }
    }

    /// Sets `property` to `value`.
    pub fn set_property(property: &str, value: Arg) -> (r: Self)
        ensures
            r.words().len() == 3,
            is_text(r.words()[0], "set_property"@),
            is_text(r.words()[1], property@),
            r.words()[2] == value,
            r.id() == 0,
    {
        let mut command: Vec<Arg> = Vec::new();
        command.push(text_arg("set_property"));
        command.push(text_arg(property));
        command.push(value);
        Request { command, request_id: 0 }
    }

    /// Displays `text` on the screen.
    pub fn show_text(text: &str) -> (r: Self)
        ensures
            text_command(r.words(), "show-text"@, text@),
            r.id() == 0,
    {
        let mut command: Vec<Arg> = Vec::new();
        command.push(text_arg("show-text"));
        command.push(text_arg(text));
        Request { command, request_id: 0 }
    }

    /// Subscribes to changes of `property`; the events carry `id`.
    pub fn observe_property(id: i64, property: &str) -> (r: Self)
        ensures
            r.words().len() == 3,
            is_text(r.words()[0], "observe_property"@),
            r.words()[1] == Arg::Int(id),
            is_text(r.words()[2], property@),
            r.id() == 0,
    {
        let mut command: Vec<Arg> = Vec::new();
        command.push(text_arg("observe_property"));
        command.push(Arg::Int(id));
        command.push(text_arg(property));
        Request { command, request_id: 0 }
    }

    /// Writes a screenshot to the file `filename`.
    pub fn screenshot(filename: &str) -> (r: Self)
        ensures
            text_command(r.words(), "screenshot-to-file"@, filename@),
            r.id() == 0,
    {
        let mut command: Vec<Arg> = Vec::new();
        command.push(text_arg("screenshot-to-file"));
        command.push(text_arg(filename));
        Request { command, request_id: 0 }
    }
}

/// Response of the player to a request.
#[derive(Debug)]
pub struct Response {
    pub request_id: i64,
    pub data: Option<Value>,
    /// `success`, or the reason of the failure.
    pub error: String,
}

/// Whether the status `error` of a response reports success.
pub open spec fn is_success(error: Seq<char>) -> bool {
    error == "success"@
}

/// Whether `e` is the server error with reason `reason`.
pub open spec fn is_server_error(e: Error, reason: Seq<char>) -> bool {
    match e {
        Error::ServerError(r) => r@ == reason,
        _ => false,
    }
}

impl Response {
    /// Fails with the reported reason unless the response reports success.
    pub fn check_error(&self) -> (r: Result<(), Error>)
        ensures
            match r {
                Ok(_) => is_success(self.error@),
                Err(e) => !is_success(self.error@) && is_server_error(e, self.error@),
            },
    {
        let ok = "success".to_owned();
        if self.error != ok {
            return Err(Error::ServerError(self.error.clone()));
        }
        Ok(())
    }

    /// The data of a successful response: fails as `check_error` does, and
    /// with `MissingData` where the response carries none.
    pub fn into_data(self) -> (r: Result<Value, Error>)
        ensures
            !is_success(self.error@) ==> r is Err && is_server_error(r->Err_0, self.error@),
            is_success(self.error@) ==> match self.data {
                Some(v) => r == Ok::<Value, Error>(v),
                None => r matches Err(Error::MissingData),
            },
    {
        match self.check_error() {
            Err(e) => Err(e),
            Ok(_) => match self.data {
                Some(v) => Ok(v),
                None => Err(Error::MissingData),
            },
        }
    }
}

/// Notification that the player sends on its own.
#[derive(Debug)]
pub struct Event {
    pub event: String,
    pub id: Option<i64>,
    pub name: Option<String>,
    pub data: Option<Value>,
}

/// A decoded inbound frame.
#[derive(Debug)]
pub enum ServerMessage {
    Response(Response),
    Event(Event),
}

/// The fields of an inbound frame that tell its kind, each present or not.
#[derive(Debug)]
pub struct Frame {
    pub request_id: Option<i64>,
    pub error: Option<String>,
    pub event: Option<String>,
    pub id: Option<i64>,
    pub name: Option<String>,
    pub data: Option<Value>,
}

/// What a frame decodes to: a response where it has a request id and a
/// status, else an event where it has an event name, else nothing.
pub open spec fn decoded(f: Frame) -> Option<ServerMessage> {
    if f.request_id is Some && f.error is Some {
        Some(
            ServerMessage::Response(
                Response { request_id: f.request_id->Some_0, data: f.data, error: f.error->Some_0 },
            ),
        )
    } else if f.event is Some {
        Some(
            ServerMessage::Event(
                Event { event: f.event->Some_0, id: f.id, name: f.name, data: f.data },
            ),
        )
    } else {
        None
    }
}

/// Tells a frame to be a response or an event; `None` where it is neither.
pub fn classify(frame: Frame) -> (r: Option<ServerMessage>)
    ensures
        r == decoded(frame),
{
    let Frame { request_id, error, event, id, name, data } = frame;
    match (request_id, error) {
        (Some(request_id), Some(error)) => Some(
            ServerMessage::Response(Response { request_id, data, error }),
        ),
        _ => match event {
            Some(event) => Some(ServerMessage::Event(Event { event, id, name, data })),
            None => None,
        },
    }
}

/// Whether `m` is the response to the request with id `id`.
pub open spec fn answers(m: ServerMessage, id: i64) -> bool {
    match m {
        ServerMessage::Response(r) => r.request_id == id,
        _ => false,
    }
}

/// Decoding the response that the player sends back to a sent request gives
/// a response that carries that request's id, and that the sender's wait for
/// an answer to that id accepts.
pub proof fn lemma_echo_answers_request(request: Request, error: String, data: Option<Value>)
    ensures
        ({
            let echo = Frame {
                request_id: Some(request.id()),
                error: Some(error),
                event: None,
                id: None,
                name: None,
                data,
            };
            &&& decoded(echo) matches Some(ServerMessage::Response(r))
            &&& r.request_id == request.id()
            &&& answers(decoded(echo)->Some_0, request.id())
        }),
{
}

/// What the stream reader learned from one attempt to read a frame.
#[derive(Debug)]
pub enum ReadEvent {
    /// The player closed the connection.
    Closed,
    /// The read failed, but the connection is still open.
    Failed,
    /// A line was read that is not JSON of the frame shape.
    Unparsable,
    /// A line was read and parsed.
    Parsed(Frame),
}

/// What the stream reader does next.
#[derive(Debug)]
pub enum ReadAction {
    /// Hand the message to the broker and read on.
    Deliver(ServerMessage),
    /// Report the problem and read on.
    Skip,
    /// Run the shutdown callback and stop reading.
    Shutdown,
}

/// What the stream reader does after one read.
pub open spec fn react_spec(event: ReadEvent) -> ReadAction {
    match event {
        ReadEvent::Closed => ReadAction::Shutdown,
        ReadEvent::Failed => ReadAction::Skip,
        ReadEvent::Unparsable => ReadAction::Skip,
        ReadEvent::Parsed(f) => match decoded(f) {
            Some(m) => ReadAction::Deliver(m),
            None => ReadAction::Skip,
        },
    }
}

/// The stream reader's decision after one read: only a closed connection
/// ends the loop; a frame that decodes is delivered; anything else is
/// skipped.
pub fn react(event: ReadEvent) -> (r: ReadAction)
    ensures
        r == react_spec(event),
{
    match event {
        ReadEvent::Closed => ReadAction::Shutdown,
        ReadEvent::Failed => ReadAction::Skip,
        ReadEvent::Unparsable => ReadAction::Skip,
        ReadEvent::Parsed(f) => match classify(f) {
            Some(m) => ReadAction::Deliver(m),
            None => ReadAction::Skip,
        },
    }
}

/// The stream reader's state: running until the connection closes, then
/// terminated for good.
pub struct StreamReader {
    terminated: bool,
}

impl StreamReader {
    /// Whether the reader has stopped.
    pub closed spec fn is_terminated(&self) -> bool {
        self.terminated
    }

    /// A running reader.
    pub fn new() -> (r: Self)
        ensures
            !r.is_terminated(),
    {
        StreamReader { terminated: false }
    }

    /// Whether the reader has stopped.
    pub fn terminated(&self) -> (r: bool)
        ensures
            r == self.is_terminated(),
    {
        self.terminated
    }

    /// One step of a running reader: decides as `react` does, and terminates
    /// exactly when the decision is to shut down, so that the shutdown runs
    /// once and nothing is delivered after it.
    pub fn step(&mut self, event: ReadEvent) -> (r: ReadAction)
        requires
            !old(self).is_terminated(),
        ensures
            r == react_spec(event),
            final(self).is_terminated() == (r is Shutdown),
    {
        let r = react(event);
        if let ReadAction::Shutdown = r {
            self.terminated = true;
        }
        r
    }
}

/// Whether `m` is an event that `filter` accepts.
pub open spec fn is_accepted_event<F: Fn(&Event) -> bool>(filter: &F, m: ServerMessage) -> bool {
    match m {
        ServerMessage::Event(e) => accepts(filter, e),
        _ => false,
    }
}

/// The request side of one connection: the broker that the stream reader
/// fills, and the id of the last request sent.
pub struct Client {
    messages: Messages<ServerMessage>,
    request_id: i64,
}

impl Client {
    /// The id of the last request sent; 0 before the first.
    pub closed spec fn last_id(&self) -> i64 {
        self.request_id
    }

    /// A client over `messages`, with no request sent yet.
    pub fn new(messages: Messages<ServerMessage>) -> (r: Self)
        ensures
            r.last_id() == 0,
    {
        Client { messages, request_id: 0 }
    }

    /// The id of the last request sent; 0 before the first.
    pub fn last_request_id(&self) -> (r: i64)
        ensures
            r == self.last_id(),
    {
        self.request_id
    }

    /// Gives `request` the next id: one more than the last, so that ids
    /// start at 1 and strictly increase.
    pub fn prepare(&mut self, request: Request) -> (r: Request)
        requires
            old(self).last_id() < i64::MAX,
        ensures
            final(self).last_id() == old(self).last_id() + 1,
            r.id() == final(self).last_id(),
            r.words() == request.words(),
    {
        self.request_id = self.request_id + 1;
        let Request { command, request_id: _ } = request;
        Request { command, request_id: self.request_id }
    }

    /// Blocks until the response to the request with id `id` arrives and
    /// claims it; fails with the reported reason unless it reports success.
    pub fn await_response(&self, id: i64) -> (r: Result<Response, Error>)
        ensures
            match r {
                Ok(resp) => resp.request_id == id && is_success(resp.error@),
                Err(e) => e is ServerError,
            },
    {
        let pick = |s: &ServerMessage| -> (b: bool)
            ensures
                b == answers(*s, id),
            {
                match s {
                    ServerMessage::Response(resp) => resp.request_id == id,
                    ServerMessage::Event(_) => false,
                }
            };
        let m = self.messages.wait(pick);
        match m {
            ServerMessage::Response(resp) => match resp.check_error() {
                Ok(_) => Ok(resp),
                Err(e) => Err(e),
            },
            ServerMessage::Event(_) => vstd::pervasive::unreached(),
        }
    }

    /// Blocks until an event that `filter` accepts arrives, and claims it.
    pub fn wait_event<F: Fn(&Event) -> bool>(&self, filter: F) -> (r: Event)
        requires
            total_filter(&filter),
        ensures
            accepts(&filter, r),
    {
        let f = &filter;
        let pick = |s: &ServerMessage| -> (b: bool)
            requires
                total_filter(f),
            ensures
                b ==> is_accepted_event(f, *s),
            {
                match s {
                    ServerMessage::Event(e) => f(e),
                    ServerMessage::Response(_) => false,
                }
            };
        let m = self.messages.wait(pick);
        match m {
            ServerMessage::Event(e) => e,
            ServerMessage::Response(_) => vstd::pervasive::unreached(),
        }
    }
}

} // verus!
