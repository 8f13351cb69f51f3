//! The listener that the plugin calls back into.
//!
//! The listener here is the part that decides: which callback a request is,
//! whether it belongs to this session, what it is answered with and which
//! event it puts on the queue. The queue is strictly first in, first out.
//! Sockets and waiting are the caller's business; every function in this
//! module is a plain computation on the listener's state.

use std::collections::VecDeque;
use vstd::prelude::*;

verus! {

/// The header in which a caller names the session it belongs to.
pub const SESSION_HEADER: &'static str = "Run-In-Roblox-Server-Id";

/// How Studio classified one line of output.
#[derive(Debug, Clone, Copy, PartialEq, Eq, Structural)]
pub enum OutputLevel {
    Print,
    Info,
    Warning,
    Error,
}

/// One thing the running script reported.
#[derive(Debug, Clone, PartialEq, Eq)]
pub enum RobloxMessage {
    Output { level: OutputLevel, body: String },
}

/// What a listener puts on its queue.
#[derive(Debug, Clone, PartialEq, Eq)]
pub enum Message {
    Start,
    Stop,
    Messages(Vec<RobloxMessage>),
}

/// The settings a listener is started with.
#[derive(Debug, PartialEq, Eq)]
pub struct MessageReceiverOptions {
    pub port: u16,
    pub server_id: String,
}

/// A `RobloxMessage` as a mathematical value.
pub struct OutputView {
    pub level: OutputLevel,
    pub body: Seq<char>,
}

/// A `Message` as a mathematical value.
pub enum MessageView {
    Start,
    Stop,
    Messages(Seq<OutputView>),
}

impl View for RobloxMessage {
    type V = OutputView;

    open spec fn view(&self) -> OutputView {
        match self {
            RobloxMessage::Output { level, body } => OutputView { level: *level, body: body@ },
        }
    }
}

/// The views of a batch of messages, in order.
pub open spec fn output_views(batch: Seq<RobloxMessage>) -> Seq<OutputView> {
    Seq::new(batch.len(), |i: int| batch[i]@)
}

impl View for Message {
    type V = MessageView;

    open spec fn view(&self) -> MessageView {
        match self {
            Message::Start => MessageView::Start,
            Message::Stop => MessageView::Stop,
            Message::Messages(batch) => MessageView::Messages(output_views(batch@)),
        }
    }
}

/// The views of a run of queued events, oldest first.
pub open spec fn message_views(events: Seq<Message>) -> Seq<MessageView> {
    Seq::new(events.len(), |i: int| events[i]@)
}

impl RobloxMessage {
    /// The level of the message.
    pub fn level(&self) -> (level: OutputLevel)
        ensures
            level == self@.level,
    {
        match self {
            RobloxMessage::Output { level, .. } => *level,
        }
    }

    /// The text of the message.
    pub fn body(&self) -> (body: &String)
        ensures
            body@ == self@.body,
    {
        match self {
            RobloxMessage::Output { body, .. } => body,
        }
    }
}

/// The request methods the callback protocol tells apart.
#[derive(Debug, Clone, Copy, PartialEq, Eq, Structural)]
pub enum Method {
    Get,
    Post,
    Other,
}

/// The callbacks of the protocol.
#[derive(Debug, Clone, Copy, PartialEq, Eq, Structural)]
pub enum Route {
    /// `GET /`: asks which session this listener serves.
    Probe,
    /// `POST /start`: the script is about to run.
    Start,
    /// `POST /stop`: the script has finished.
    Stop,
    /// `POST /messages`: a batch of output.
    Messages,
    /// Anything else.
    NotFound,
}

/// How a request was answered.
#[derive(Debug, Clone, Copy, PartialEq, Eq, Structural)]
pub enum Status {
    /// The request was served.
    Served,
    /// The body of an output batch could not be decoded.
    BadRequest,
    /// The request came from another session.
    Forbidden,
    /// No such callback.
    NotFound,
    /// The listener has been stopped.
    Unavailable,
}

/// One callback, already read off the wire.
#[derive(Debug, PartialEq, Eq)]
pub struct Request {
    pub method: Method,
    pub path: String,
    /// The session the caller claims to belong to, if it named one.
    pub server_id: Option<String>,
    /// The decoded body of an output batch; `None` when the request had no
    /// body or the body was not a well-formed batch.
    pub messages: Option<Vec<RobloxMessage>>,
}

/// The answer to one callback.
#[derive(Debug, PartialEq, Eq)]
pub struct Response {
    pub status: Status,
    pub body: String,
}

/// A `Request` as a mathematical value.
pub struct RequestView {
    pub method: Method,
    pub path: Seq<char>,
    pub server_id: Option<Seq<char>>,
    pub messages: Option<Seq<OutputView>>,
}

/// A `Response` as a mathematical value.
pub struct ResponseView {
    pub status: Status,
    pub body: Seq<char>,
}

impl View for Request {
    type V = RequestView;

    open spec fn view(&self) -> RequestView {
        RequestView {
            method: self.method,
            path: self.path@,
            server_id: match self.server_id {
                Some(id) => Some(id@),
                None => None,
            },
            messages: match self.messages {
                Some(batch) => Some(output_views(batch@)),
                None => None,
            },
        }
    }
}

impl View for Response {
    type V = ResponseView;

    open spec fn view(&self) -> ResponseView {
        ResponseView { status: self.status, body: self.body@ }
    }
}

/// The state of a listener as a mathematical value.
pub struct ListenerView {
    pub port: u16,
    pub server_id: Seq<char>,
    /// The events not yet taken, oldest first.
    pub queue: Seq<MessageView>,
    pub stopped: bool,
}

/// The callback that a method and a path name.
pub open spec fn route_of(method: Method, path: Seq<char>) -> Route {
    if method == Method::Get && path == "/"@ {
        Route::Probe
    } else if method == Method::Post && path == "/start"@ {
        Route::Start
    } else if method == Method::Post && path == "/stop"@ {
        Route::Stop
    } else if method == Method::Post && path == "/messages"@ {
        Route::Messages
    } else {
        Route::NotFound
    }
}

/// Whether a caller that presents `presented` belongs to the session
/// `configured`: only if it names exactly that session.
pub open spec fn session_accepts(configured: Seq<char>, presented: Option<Seq<char>>) -> bool {
    presented == Some(configured)
}

/// The event that a request puts on the queue of a listener in state
/// `listener`, if any.
pub open spec fn enqueued_by(listener: ListenerView, request: RequestView) -> Option<MessageView> {
    if listener.stopped || !session_accepts(listener.server_id, request.server_id) {
        None
    } else {
        match route_of(request.method, request.path) {
            Route::Start => Some(MessageView::Start),
            Route::Stop => Some(MessageView::Stop),
            Route::Messages => match request.messages {
                Some(batch) => Some(MessageView::Messages(batch)),
                None => None,
            },
            _ => None,
        }
    }
}

/// The status with which a listener in state `listener` answers a request.
pub open spec fn status_for(listener: ListenerView, request: RequestView) -> Status {
    if listener.stopped {
        Status::Unavailable
    } else {
        match route_of(request.method, request.path) {
            Route::Probe => Status::Served,
            Route::NotFound => Status::NotFound,
            Route::Start | Route::Stop => if session_accepts(
                listener.server_id,
                request.server_id,
            ) {
                Status::Served
            } else {
                Status::Forbidden
            },
            Route::Messages => if !session_accepts(listener.server_id, request.server_id) {
                Status::Forbidden
            } else if request.messages is None {
                Status::BadRequest
            } else {
                Status::Served
            },
        }
    }
}

/// The text with which a listener in state `listener` answers a request.
pub open spec fn body_for(listener: ListenerView, request: RequestView) -> Seq<char> {
    match status_for(listener, request) {
        Status::Served => match route_of(request.method, request.path) {
            Route::Probe => listener.server_id,
            Route::Start => "Started"@,
            Route::Stop => "Finished"@,
            _ => "Got it!"@,
        },
        Status::BadRequest => "Malformed messages"@,
        Status::Forbidden => "Wrong session"@,
        Status::NotFound => "Not found"@,
        Status::Unavailable => "Stopped"@,
    }
}

/// The state of a listener after it has handled a request.
pub open spec fn after_request(listener: ListenerView, request: RequestView) -> ListenerView {
    match enqueued_by(listener, request) {
        Some(event) => ListenerView { queue: listener.queue.push(event), ..listener },
        None => listener,
    }
}

/// The state of a listener after it has handled `requests` one after the
/// other.
pub open spec fn after_requests(listener: ListenerView, requests: Seq<RequestView>) -> ListenerView
    decreases requests.len(),
{
    if requests.len() == 0 {
        listener
    } else {
        after_request(after_requests(listener, requests.drop_last()), requests.last())
    }
}

/// The events that `requests` put on the queue of a listener in state
/// `listener`, in the order of the requests.
pub open spec fn events_of(listener: ListenerView, requests: Seq<RequestView>) -> Seq<MessageView>
    decreases requests.len(),
{
    if requests.len() == 0 {
        Seq::empty()
    } else {
        let earlier = events_of(listener, requests.drop_last());
        match enqueued_by(listener, requests.last()) {
            Some(event) => earlier.push(event),
            None => earlier,
        }
    }
}

/// What taking an event from a listener in state `listener` hands out:
/// the oldest queued event, or nothing once the queue is empty or the
/// listener stopped.
pub open spec fn recv_of(listener: ListenerView) -> Option<MessageView> {
    if listener.stopped || listener.queue.len() == 0 {
        None
    } else {
        Some(listener.queue[0])
    }
}

/// The state of a listener after an event has been taken from it.
pub open spec fn after_recv(listener: ListenerView) -> ListenerView {
    if listener.stopped || listener.queue.len() == 0 {
        listener
    } else {
        ListenerView { queue: listener.queue.drop_first(), ..listener }
    }
}

/// The state of a listener after `n` events have been taken from it.
pub open spec fn after_recvs(listener: ListenerView, n: nat) -> ListenerView
    decreases n,
{
    if n == 0 {
        listener
    } else {
        after_recv(after_recvs(listener, (n - 1) as nat))
    }
}

/// A running listener with nothing queued.
pub open spec fn fresh_listener(port: u16, server_id: Seq<char>) -> ListenerView {
    ListenerView { port, server_id, queue: Seq::empty(), stopped: false }
}

/// Whether two pieces of text are the same, as `==` on `str` decides it.
#[verifier::external_body]
pub(crate) fn same_text(a: &str, b: &str) -> (same: bool)
    ensures
        same == (a@ == b@),
{
    a == b
}

/// Tells which callback a request is.
pub fn route(method: Method, path: &str) -> (r: Route)
    ensures
        r == route_of(method, path@),
{
    match method {
        Method::Get => {
            if same_text(path, "/") {
                Route::Probe
            } else {
                Route::NotFound
            }
        },
        Method::Post => {
            if same_text(path, "/start") {
                Route::Start
            } else if same_text(path, "/stop") {
                Route::Stop
            } else if same_text(path, "/messages") {
                Route::Messages
            } else {
                Route::NotFound
            }
        },
        Method::Other => Route::NotFound,
    }
}

/// Decides whether a caller belongs to a session.
pub fn accepts_session(configured: &str, presented: &Option<String>) -> (accepted: bool)
    ensures
        accepted == session_accepts(
            configured@,
            match *presented {
                Some(id) => Some(id@),
                None => None,
            },
        ),
{
    match presented {
        Some(id) => same_text(id.as_str(), configured),
        None => false,
    }
}

impl Status {
    /// The HTTP status code that stands for this status.
    pub open spec fn spec_code(self) -> u16 {
        match self {
            Status::Served => 200,
            Status::BadRequest => 400,
            Status::Forbidden => 403,
            Status::NotFound => 404,
            Status::Unavailable => 503,
        }
    }

    /// The HTTP status code that stands for this status.
    pub fn code(self) -> (code: u16)
        ensures
            code == self.spec_code(),
    {
        match self {
            Status::Served => 200,
            Status::BadRequest => 400,
            Status::Forbidden => 403,
            Status::NotFound => 404,
            Status::Unavailable => 503,
        }
    }
}

/// What a bounded wait for the next event came to.
#[derive(Debug, PartialEq, Eq)]
pub enum Received {
    /// The oldest queued event.
    Ready(Message),
    /// Nothing is queued and the bound has not run out.
    Pending,
    /// Nothing is queued and the bound has run out.
    TimedOut,
    /// The listener has been stopped.
    Closed,
}

/// A `Received` as a mathematical value.
pub enum ReceivedView {
    Ready(MessageView),
    Pending,
    TimedOut,
    Closed,
}

impl View for Received {
    type V = ReceivedView;

    open spec fn view(&self) -> ReceivedView {
        match self {
            Received::Ready(event) => ReceivedView::Ready(event@),
            Received::Pending => ReceivedView::Pending,
            Received::TimedOut => ReceivedView::TimedOut,
            Received::Closed => ReceivedView::Closed,
        }
    }
}

/// What a bounded wait on a listener in state `listener` comes to after
/// `waited` of at most `timeout` milliseconds.
pub open spec fn received_from(listener: ListenerView, timeout: u64, waited: u64) -> ReceivedView {
    if listener.stopped {
        ReceivedView::Closed
    } else if listener.queue.len() > 0 {
        ReceivedView::Ready(listener.queue[0])
    } else if waited >= timeout {
        ReceivedView::TimedOut
    } else {
        ReceivedView::Pending
    }
}

/// The listener of one session: its settings and the queue of events that
/// have been reported and not yet taken.
pub struct MessageReceiver {
    port: u16,
    server_id: String,
    queue: VecDeque<Message>,
    stopped: bool,
}

impl View for MessageReceiver {
    type V = ListenerView;

    closed spec fn view(&self) -> ListenerView {
        ListenerView {
            port: self.port,
            server_id: self.server_id@,
            queue: message_views(self.queue@),
            stopped: self.stopped,
        }
    }
}

impl MessageReceiver {
    /// A running listener for the given session, with nothing queued.
    pub fn start(options: MessageReceiverOptions) -> (receiver: MessageReceiver)
        ensures
            receiver@ == (ListenerView {
                port: options.port,
                server_id: options.server_id@,
                queue: Seq::empty(),
                stopped: false,
            }),
    {
        let receiver = MessageReceiver {
            port: options.port,
            server_id: options.server_id,
            queue: VecDeque::new(),
            stopped: false,
        };
        assert(message_views(receiver.queue@) =~= Seq::empty());
        receiver
    }

    /// The port the listener serves.
    pub fn port(&self) -> (port: u16)
        ensures
            port == self@.port,
    {
        self.port
    }

    /// The session the listener serves.
    pub fn server_id(&self) -> (id: &String)
        ensures
            id@ == self@.server_id,
    {
        &self.server_id
    }

    /// Whether the listener has been stopped.
    pub fn is_stopped(&self) -> (stopped: bool)
        ensures
            stopped == self@.stopped,
    {
        self.stopped
    }

    /// How many events wait to be taken.
    pub fn pending(&self) -> (n: usize)
        ensures
            n == self@.queue.len(),
    {
        self.queue.len()
    }

    /// Handles one callback: answers it and, where the protocol says so,
    /// puts its event at the end of the queue.
    pub fn handle_request(&mut self, request: Request) -> (response: Response)
        ensures
            final(self)@ == after_request(old(self)@, request@),
            response@.status == status_for(old(self)@, request@),
            response@.body == body_for(old(self)@, request@),
    {
        if self.stopped {
            return Response { status: Status::Unavailable, body: String::from_str("Stopped") };
        }
        let which = route(request.method, request.path.as_str());
        match which {
            Route::Probe => {
                return Response { status: Status::Served, body: self.server_id.clone() };
            },
            Route::NotFound => {
                return Response { status: Status::NotFound, body: String::from_str("Not found") };
            },
            _ => {},
        }
        if !accepts_session(self.server_id.as_str(), &request.server_id) {
            return Response { status: Status::Forbidden, body: String::from_str("Wrong session") };
        }
        match which {
            Route::Start => {
                self.enqueue(Message::Start);
                Response { status: Status::Served, body: String::from_str("Started") }
            },
            Route::Stop => {
                self.enqueue(Message::Stop);
                Response { status: Status::Served, body: String::from_str("Finished") }
            },
            _ => {
                match request.messages {
                    Some(batch) => {
                        self.enqueue(Message::Messages(batch));
                        Response { status: Status::Served, body: String::from_str("Got it!") }
                    },
                    None => Response {
                        status: Status::BadRequest,
                        body: String::from_str("Malformed messages"),
                    },
                }
            },
        }
    }

    /// Puts an event at the end of the queue.
    fn enqueue(&mut self, event: Message)
        ensures
            final(self)@ == (ListenerView {
                queue: old(self)@.queue.push(event@),
                ..old(self)@
            }),
    {
        self.queue.push_back(event);
        assert(message_views(self.queue@) =~= message_views(old(self).queue@).push(event@));
    }

    /// Takes the oldest queued event. `None` means that nothing is queued
    /// or that the listener has been stopped.
    pub fn recv(&mut self) -> (event: Option<Message>)
        ensures
            match event {
                Some(taken) => recv_of(old(self)@) == Some(taken@),
                None => recv_of(old(self)@) is None,
            },
            final(self)@ == after_recv(old(self)@),
    {
        if self.stopped {
            return None;
        }
        let event = self.queue.pop_front();
        proof {
            if event is Some {
                assert(message_views(self.queue@) =~= message_views(old(self).queue@).drop_first());
            }
        }
        event
    }

    /// Takes the oldest queued event, or tells why there is none: the
    /// listener was stopped, or `waited` milliseconds have gone by of the
    /// `timeout` allowed, or they have not yet.
    pub fn recv_timeout(&mut self, timeout: u64, waited: u64) -> (received: Received)
        ensures
            received@ == received_from(old(self)@, timeout, waited),
            final(self)@ == after_recv(old(self)@),
    {
        if self.stopped {
            return Received::Closed;
        }
        match self.recv() {
            Some(event) => Received::Ready(event),
            None => {
                if waited >= timeout {
                    Received::TimedOut
                } else {
                    Received::Pending
                }
            },
        }
    }

    /// Stops the listener: from now on it queues nothing and hands out
    /// nothing. Stopping a stopped listener changes nothing.
    pub fn stop(&mut self)
        ensures
            final(self)@ == (ListenerView { stopped: true, ..old(self)@ }),
    {
        self.stopped = true;
    }
}

/// Handling requests changes nothing of a listener but its queue, and
/// adds to the queue exactly the events of the requests, in the order in
/// which the requests were handled.
pub proof fn lemma_requests_extend_queue_in_order(listener: ListenerView, requests: Seq<RequestView>)
    ensures
        after_requests(listener, requests) == (ListenerView {
            queue: listener.queue + events_of(listener, requests),
            ..listener
        }),
    decreases requests.len(),
{
    if requests.len() == 0 {
        assert(listener.queue + events_of(listener, requests) =~= listener.queue);
    } else {
        let earlier = requests.drop_last();
        lemma_requests_extend_queue_in_order(listener, earlier);
        let before = after_requests(listener, earlier);
        assert(enqueued_by(before, requests.last()) == enqueued_by(listener, requests.last()));
        match enqueued_by(listener, requests.last()) {
            Some(event) => {
                assert((listener.queue + events_of(listener, earlier)).push(event)
                    =~= listener.queue + events_of(listener, earlier).push(event));
            },
            None => {},
        }
    }
}

/// Taking `n` events from a running listener that holds at least `n`
/// removes the `n` oldest and leaves the rest in order.
pub proof fn lemma_recvs_take_oldest_first(listener: ListenerView, n: nat)
    requires
        !listener.stopped,
        n <= listener.queue.len(),
    ensures
        after_recvs(listener, n) == (ListenerView {
            queue: listener.queue.skip(n as int),
            ..listener
        }),
    decreases n,
{
    if n == 0 {
        assert(listener.queue.skip(0) =~= listener.queue);
    } else {
        lemma_recvs_take_oldest_first(listener, (n - 1) as nat);
        assert(listener.queue.skip(n - 1).drop_first() =~= listener.queue.skip(n as int));
    }
}

/// Events come out in the order in which their callbacks came in: after a
/// fresh listener has handled `requests`, the `k`-th take hands out the
/// event of the `k`-th request that queued one, and the take after the last
/// of them hands out nothing.
pub proof fn lemma_events_come_out_in_call_order(
    port: u16,
    server_id: Seq<char>,
    requests: Seq<RequestView>,
    k: nat,
)
    requires
        k <= events_of(fresh_listener(port, server_id), requests).len(),
    ensures
        ({
            let fresh = fresh_listener(port, server_id);
            let events = events_of(fresh, requests);
            let taken = recv_of(after_recvs(after_requests(fresh, requests), k));
            if k < events.len() {
                taken == Some(events[k as int])
            } else {
                taken is None
            }
        }),
{
    let fresh = fresh_listener(port, server_id);
    let events = events_of(fresh, requests);
    lemma_requests_extend_queue_in_order(fresh, requests);
    assert(fresh.queue + events =~= events);
    lemma_recvs_take_oldest_first(after_requests(fresh, requests), k);
}

/// A request that does not name the listener's own session is never seen
/// on the queue: whatever callback it is, the listener's state after it is
/// the state before it, and it is not answered as served unless it is the
/// probe, which queues nothing either.
pub proof fn lemma_foreign_session_is_not_observed(listener: ListenerView, request: RequestView)
    requires
        request.server_id != Some(listener.server_id),
    ensures
        enqueued_by(listener, request) is None,
        after_request(listener, request) == listener,
        status_for(listener, request) == Status::Served ==> route_of(request.method, request.path)
            == Route::Probe,
{
}

/// The probe queues nothing, whoever asks.
pub proof fn lemma_probe_queues_nothing(listener: ListenerView, request: RequestView)
    requires
        route_of(request.method, request.path) == Route::Probe,
    ensures
        after_request(listener, request) == listener,
        !listener.stopped ==> body_for(listener, request) == listener.server_id,
{
}

} // verus!
