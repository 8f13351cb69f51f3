use run_in_roblox::message_receiver::{
    accepts_session, route, Message, MessageReceiver, MessageReceiverOptions, Method, OutputLevel,
    Received, Request, RobloxMessage, Route, Status,
};

fn listener(id: &str) -> MessageReceiver {
    MessageReceiver::start(MessageReceiverOptions { port: 9001, server_id: id.to_string() })
}

fn request(method: Method, path: &str, id: Option<&str>) -> Request {
    Request {
        method,
        path: path.to_string(),
        server_id: id.map(|id| id.to_string()),
        messages: None,
    }
}

fn output(level: OutputLevel, body: &str) -> RobloxMessage {
    RobloxMessage::Output { level, body: body.to_string() }
}

fn batch(id: Option<&str>, messages: Vec<RobloxMessage>) -> Request {
    Request {
        method: Method::Post,
        path: "/messages".to_string(),
        server_id: id.map(|id| id.to_string()),
        messages: Some(messages),
    }
}

#[test]
fn a_fresh_listener_is_running_and_empty() {
    let mut receiver = listener("abc");
    assert_eq!(receiver.port(), 9001);
    assert_eq!(receiver.server_id(), "abc");
    assert!(!receiver.is_stopped());
    assert_eq!(receiver.pending(), 0);
    assert_eq!(receiver.recv(), None);
}

#[test]
fn routes_follow_the_protocol() {
    assert_eq!(route(Method::Get, "/"), Route::Probe);
    assert_eq!(route(Method::Post, "/start"), Route::Start);
    assert_eq!(route(Method::Post, "/stop"), Route::Stop);
    assert_eq!(route(Method::Post, "/messages"), Route::Messages);
    assert_eq!(route(Method::Post, "/"), Route::NotFound);
    assert_eq!(route(Method::Get, "/start"), Route::NotFound);
    assert_eq!(route(Method::Get, "/stop"), Route::NotFound);
    assert_eq!(route(Method::Get, "/messages"), Route::NotFound);
    assert_eq!(route(Method::Other, "/"), Route::NotFound);
    assert_eq!(route(Method::Other, "/start"), Route::NotFound);
    assert_eq!(route(Method::Post, "/start/"), Route::NotFound);
    assert_eq!(route(Method::Post, "/Start"), Route::NotFound);
    assert_eq!(route(Method::Post, ""), Route::NotFound);
}

#[test]
fn status_codes_are_the_usual_ones() {
    assert_eq!(Status::Served.code(), 200);
    assert_eq!(Status::BadRequest.code(), 400);
    assert_eq!(Status::Forbidden.code(), 403);
    assert_eq!(Status::NotFound.code(), 404);
    assert_eq!(Status::Unavailable.code(), 503);
}

#[test]
fn a_session_accepts_only_its_own_name() {
    assert!(accepts_session("abc", &Some("abc".to_string())));
    assert!(!accepts_session("abc", &Some("abd".to_string())));
    assert!(!accepts_session("abc", &Some("ab".to_string())));
    assert!(!accepts_session("abc", &Some("abcd".to_string())));
    assert!(!accepts_session("abc", &Some(String::new())));
    assert!(!accepts_session("abc", &None));
    assert!(accepts_session("", &Some(String::new())));
}

#[test]
fn probe_answers_with_the_session() {
    let mut receiver = listener("abc");
    let response = receiver.handle_request(request(Method::Get, "/", None));
    assert_eq!(response.status, Status::Served);
    assert_eq!(response.body, "abc");
    assert_eq!(receiver.pending(), 0);
}

#[test]
fn probe_answers_a_foreign_caller_and_queues_nothing() {
    let mut receiver = listener("abc");
    let response = receiver.handle_request(request(Method::Get, "/", Some("stale")));
    assert_eq!(response.status, Status::Served);
    assert_eq!(response.body, "abc");
    assert_eq!(receiver.pending(), 0);
    assert_eq!(receiver.recv(), None);
}

#[test]
fn callbacks_are_answered_as_the_protocol_says() {
    let mut receiver = listener("abc");
    let started = receiver.handle_request(request(Method::Post, "/start", Some("abc")));
    assert_eq!(started.status, Status::Served);
    assert_eq!(started.body, "Started");
    let got = receiver.handle_request(batch(Some("abc"), vec![output(OutputLevel::Info, "x")]));
    assert_eq!(got.status, Status::Served);
    assert_eq!(got.body, "Got it!");
    let finished = receiver.handle_request(request(Method::Post, "/stop", Some("abc")));
    assert_eq!(finished.status, Status::Served);
    assert_eq!(finished.body, "Finished");
    assert_eq!(receiver.pending(), 3);
}

#[test]
fn events_come_out_in_call_order() {
    let mut receiver = listener("abc");
    receiver.handle_request(request(Method::Post, "/start", Some("abc")));
    receiver.handle_request(batch(Some("abc"), vec![output(OutputLevel::Print, "one")]));
    receiver.handle_request(request(Method::Get, "/", Some("abc")));
    receiver.handle_request(batch(
        Some("abc"),
        vec![output(OutputLevel::Warning, "two"), output(OutputLevel::Error, "three")],
    ));
    receiver.handle_request(batch(Some("abc"), vec![]));
    receiver.handle_request(request(Method::Post, "/stop", Some("abc")));
    assert_eq!(receiver.pending(), 5);
    assert_eq!(receiver.recv(), Some(Message::Start));
    assert_eq!(
        receiver.recv(),
        Some(Message::Messages(vec![output(OutputLevel::Print, "one")]))
    );
    assert_eq!(
        receiver.recv(),
        Some(Message::Messages(vec![
            output(OutputLevel::Warning, "two"),
            output(OutputLevel::Error, "three"),
        ]))
    );
    assert_eq!(receiver.recv(), Some(Message::Messages(vec![])));
    assert_eq!(receiver.recv(), Some(Message::Stop));
    assert_eq!(receiver.recv(), None);
    assert_eq!(receiver.pending(), 0);
}

#[test]
fn a_foreign_session_is_turned_away_at_every_submission() {
    let mut receiver = listener("abc");
    for path in ["/start", "/stop", "/messages"] {
        for id in [Some("stale"), Some(""), Some("abc "), None] {
            let mut foreign = request(Method::Post, path, id);
            foreign.messages = Some(vec![output(OutputLevel::Print, "leak")]);
            let response = receiver.handle_request(foreign);
            assert_eq!(response.status, Status::Forbidden);
            assert_eq!(response.body, "Wrong session");
            assert_eq!(receiver.pending(), 0);
        }
    }
    assert_eq!(receiver.recv(), None);
}

#[test]
fn a_foreign_submission_leaves_the_queue_as_it_was() {
    let mut receiver = listener("abc");
    receiver.handle_request(request(Method::Post, "/start", Some("abc")));
    assert_eq!(receiver.pending(), 1);
    let response =
        receiver.handle_request(batch(Some("other"), vec![output(OutputLevel::Print, "no")]));
    assert_eq!(response.status, Status::Forbidden);
    assert_eq!(receiver.pending(), 1);
    assert_eq!(receiver.recv(), Some(Message::Start));
    assert_eq!(receiver.recv(), None);
}

#[test]
fn a_malformed_batch_fails_its_own_request_only() {
    let mut receiver = listener("abc");
    receiver.handle_request(request(Method::Post, "/start", Some("abc")));
    let response = receiver.handle_request(request(Method::Post, "/messages", Some("abc")));
    assert_eq!(response.status, Status::BadRequest);
    assert_eq!(response.status.code(), 400);
    assert_eq!(response.body, "Malformed messages");
    assert_eq!(receiver.pending(), 1);
    let next = receiver.handle_request(batch(Some("abc"), vec![output(OutputLevel::Print, "ok")]));
    assert_eq!(next.status, Status::Served);
    assert_eq!(receiver.pending(), 2);
}

#[test]
fn an_unknown_callback_is_not_found() {
    let mut receiver = listener("abc");
    let response = receiver.handle_request(request(Method::Post, "/restart", Some("abc")));
    assert_eq!(response.status, Status::NotFound);
    assert_eq!(response.body, "Not found");
    let other = receiver.handle_request(request(Method::Other, "/start", Some("abc")));
    assert_eq!(other.status, Status::NotFound);
    let foreign = receiver.handle_request(request(Method::Get, "/nowhere", Some("stale")));
    assert_eq!(foreign.status, Status::NotFound);
    assert_eq!(receiver.pending(), 0);
}

#[test]
fn a_stopped_listener_queues_nothing_and_hands_out_nothing() {
    let mut receiver = listener("abc");
    receiver.handle_request(request(Method::Post, "/start", Some("abc")));
    receiver.stop();
    assert!(receiver.is_stopped());
    assert_eq!(receiver.recv(), None);
    let response = receiver.handle_request(request(Method::Post, "/stop", Some("abc")));
    assert_eq!(response.status, Status::Unavailable);
    assert_eq!(response.body, "Stopped");
    let probe = receiver.handle_request(request(Method::Get, "/", None));
    assert_eq!(probe.status, Status::Unavailable);
    assert_eq!(receiver.pending(), 1);
    assert_eq!(receiver.recv_timeout(10, 0), Received::Closed);
    assert_eq!(receiver.recv_timeout(10, 10), Received::Closed);
}

#[test]
fn stopping_twice_is_stopping_once() {
    let mut receiver = listener("abc");
    receiver.stop();
    receiver.stop();
    assert!(receiver.is_stopped());
    assert_eq!(receiver.pending(), 0);
    assert_eq!(receiver.recv(), None);
}

#[test]
fn a_bounded_wait_tells_why_nothing_came() {
    let mut receiver = listener("abc");
    assert_eq!(receiver.recv_timeout(60_000, 0), Received::Pending);
    assert_eq!(receiver.recv_timeout(60_000, 59_999), Received::Pending);
    assert_eq!(receiver.recv_timeout(60_000, 60_000), Received::TimedOut);
    assert_eq!(receiver.recv_timeout(60_000, 60_001), Received::TimedOut);
    assert_eq!(receiver.recv_timeout(0, 0), Received::TimedOut);
    receiver.handle_request(request(Method::Post, "/start", Some("abc")));
    assert_eq!(receiver.recv_timeout(60_000, 70_000), Received::Ready(Message::Start));
    assert_eq!(receiver.recv_timeout(60_000, 70_000), Received::TimedOut);
}

#[test]
fn messages_keep_level_and_body() {
    let message = output(OutputLevel::Warning, "careful\n\tnow");
    assert_eq!(message.level(), OutputLevel::Warning);
    assert_eq!(message.body(), "careful\n\tnow");
}
