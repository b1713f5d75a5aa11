use h3_axum::bridge::{Action, Event, Exchange, Failure, Header, ResponseHead, BAD_REQUEST};

/// Feeds `events` to a new exchange; returns every action asked for,
/// the first included, and whether the exchange ended.
fn drive(events: Vec<Event>) -> (Vec<Action>, bool) {
    let (mut ex, first) = Exchange::start();
    let mut actions = vec![first];
    for ev in events {
        assert!(ex.accepts(&ev));
        let (next, action) = ex.step(ev);
        ex = next;
        actions.push(action);
    }
    let done = ex.is_done();
    (actions, done)
}

fn text_head(status: u16, body_type: &str) -> ResponseHead {
    ResponseHead {
        status,
        headers: vec![Header { name: "content-type".to_string(), value: body_type.as_bytes().to_vec() }],
    }
}

fn kinds(actions: &[Action]) -> Vec<&'static str> {
    actions
        .iter()
        .map(|a| match a {
            Action::Resolve => "resolve",
            Action::ReadChunk => "read",
            Action::CallRouter(_) => "route",
            Action::SendHead(_) => "head",
            Action::CollectBody => "collect",
            Action::SendBody(_) => "body",
            Action::Finish => "finish",
            Action::Return(_) => "return",
        })
        .collect()
}

#[test]
fn get_with_text_response() {
    let (actions, done) = drive(vec![
        Event::Resolved,
        Event::BodyEnd,
        Event::Responded(text_head(200, "text/plain")),
        Event::Sent,
        Event::Collected(b"hi".to_vec()),
        Event::Sent,
        Event::Sent,
    ]);
    assert!(done);
    assert_eq!(
        kinds(&actions),
        vec!["resolve", "read", "route", "head", "collect", "body", "finish", "return"]
    );
    match &actions[2] {
        Action::CallRouter(b) => assert!(b.is_empty()),
        _ => panic!("expected a router call"),
    }
    match &actions[3] {
        Action::SendHead(h) => {
            assert_eq!(h.status, 200);
            assert_eq!(h.headers.len(), 1);
            assert_eq!(h.headers[0].name, "content-type");
            assert_eq!(h.headers[0].value, b"text/plain".to_vec());
        }
        _ => panic!("expected a head"),
    }
    match &actions[5] {
        Action::SendBody(b) => assert_eq!(b, &vec![b'h', b'i']),
        _ => panic!("expected a body"),
    }
    match &actions[7] {
        Action::Return(r) => assert_eq!(*r, Ok(())),
        _ => panic!("expected the end"),
    }
}

#[test]
fn post_body_is_echoed_whole() {
    let (mut ex, _) = Exchange::start();
    let mut body = Vec::new();
    for ev in vec![Event::Resolved, Event::Chunk(b"{\"a\":".to_vec()), Event::Chunk(b"1}".to_vec()), Event::BodyEnd] {
        let (next, action) = ex.step(ev);
        ex = next;
        if let Action::CallRouter(b) = action {
            body = b;
        }
    }
    assert_eq!(body, b"{\"a\":1}".to_vec());
    assert_eq!(body.len(), 7);
    let (ex, _) = ex.step(Event::Responded(text_head(200, "application/json")));
    let (ex, _) = ex.step(Event::Sent);
    let (_, action) = ex.step(Event::Collected(body.clone()));
    match action {
        Action::SendBody(b) => assert_eq!(b, b"{\"a\":1}".to_vec()),
        _ => panic!("expected the echoed body"),
    }
}

#[test]
fn chunks_are_concatenated_in_order() {
    let (actions, _) = drive(vec![
        Event::Resolved,
        Event::Chunk(vec![1, 2]),
        Event::Chunk(vec![]),
        Event::Chunk(vec![3]),
        Event::Chunk(vec![4, 5, 6]),
        Event::BodyEnd,
    ]);
    match actions.last() {
        Some(Action::CallRouter(b)) => assert_eq!(b, &vec![1, 2, 3, 4, 5, 6]),
        _ => panic!("expected a router call"),
    }
}

#[test]
fn empty_response_body_is_not_sent() {
    let (actions, done) = drive(vec![
        Event::Resolved,
        Event::BodyEnd,
        Event::Responded(ResponseHead { status: 204, headers: vec![] }),
        Event::Sent,
        Event::Collected(vec![]),
        Event::Sent,
    ]);
    assert!(done);
    assert_eq!(kinds(&actions), vec!["resolve", "read", "route", "head", "collect", "finish", "return"]);
}

#[test]
fn router_is_called_once_for_many_chunks() {
    let mut events = vec![Event::Resolved];
    for i in 0..100u8 {
        events.push(Event::Chunk(vec![i; 3]));
    }
    events.push(Event::BodyEnd);
    events.push(Event::Responded(text_head(200, "text/plain")));
    events.push(Event::Sent);
    events.push(Event::Collected(vec![7]));
    events.push(Event::Sent);
    events.push(Event::Sent);
    let (actions, done) = drive(events);
    assert!(done);
    assert_eq!(kinds(&actions).iter().filter(|k| **k == "route").count(), 1);
    match &actions[102] {
        Action::CallRouter(b) => assert_eq!(b.len(), 300),
        _ => panic!("expected a router call"),
    }
}

fn rejected_after(head_outcome: Event, finish_outcome: Event) {
    let (actions, done) = drive(vec![
        Event::Resolved,
        Event::Chunk(vec![1]),
        Event::ReadFailed,
        head_outcome,
        finish_outcome,
    ]);
    assert!(done);
    assert_eq!(kinds(&actions), vec!["resolve", "read", "read", "head", "finish", "return"]);
    match &actions[3] {
        Action::SendHead(h) => {
            assert_eq!(h.status, BAD_REQUEST);
            assert_eq!(h.status, 400);
            assert!(h.headers.is_empty());
        }
        _ => panic!("expected a bad request head"),
    }
    match &actions[5] {
        Action::Return(r) => assert_eq!(*r, Err(Failure::BodyRead)),
        _ => panic!("expected the read error"),
    }
}

#[test]
fn read_failure_sends_bad_request_when_sends_succeed() {
    rejected_after(Event::Sent, Event::Sent);
}

#[test]
fn read_failure_returns_read_error_when_sends_fail() {
    rejected_after(Event::SendFailed, Event::SendFailed);
}

#[test]
fn read_failure_with_mixed_send_outcomes() {
    rejected_after(Event::SendFailed, Event::Sent);
}

fn failure_of(events: Vec<Event>) -> (Failure, Vec<&'static str>) {
    let (actions, done) = drive(events);
    assert!(done);
    let k = kinds(&actions);
    match actions.last() {
        Some(Action::Return(Err(f))) => (*f, k),
        _ => panic!("expected a failure"),
    }
}

#[test]
fn resolve_failure_sends_nothing() {
    let (f, k) = failure_of(vec![Event::ResolveFailed]);
    assert_eq!(f, Failure::Resolve);
    assert_eq!(k, vec!["resolve", "return"]);
}

#[test]
fn router_failure_sends_nothing() {
    let (f, k) = failure_of(vec![Event::Resolved, Event::BodyEnd, Event::RouterFailed]);
    assert_eq!(f, Failure::Router);
    assert_eq!(k, vec!["resolve", "read", "route", "return"]);
}

#[test]
fn head_send_failure_stops_the_exchange() {
    let (f, k) = failure_of(vec![
        Event::Resolved,
        Event::BodyEnd,
        Event::Responded(text_head(200, "text/plain")),
        Event::SendFailed,
    ]);
    assert_eq!(f, Failure::SendHead);
    assert_eq!(k, vec!["resolve", "read", "route", "head", "return"]);
}

#[test]
fn collect_failure_stops_the_exchange() {
    let (f, _) = failure_of(vec![
        Event::Resolved,
        Event::BodyEnd,
        Event::Responded(text_head(200, "text/plain")),
        Event::Sent,
        Event::CollectFailed,
    ]);
    assert_eq!(f, Failure::CollectBody);
}

#[test]
fn body_send_failure_stops_the_exchange() {
    let (f, k) = failure_of(vec![
        Event::Resolved,
        Event::BodyEnd,
        Event::Responded(text_head(200, "text/plain")),
        Event::Sent,
        Event::Collected(vec![1]),
        Event::SendFailed,
    ]);
    assert_eq!(f, Failure::SendBody);
    assert_eq!(k, vec!["resolve", "read", "route", "head", "collect", "body", "return"]);
}

#[test]
fn finish_failure_is_returned() {
    let (f, _) = failure_of(vec![
        Event::Resolved,
        Event::BodyEnd,
        Event::Responded(text_head(200, "text/plain")),
        Event::Sent,
        Event::Collected(vec![]),
        Event::SendFailed,
    ]);
    assert_eq!(f, Failure::Finish);
}

#[test]
fn unexpected_events_are_refused() {
    let (ex, _) = Exchange::start();
    assert!(!ex.accepts(&Event::Sent));
    assert!(!ex.accepts(&Event::BodyEnd));
    let (ex, _) = ex.step(Event::Resolved);
    assert!(!ex.accepts(&Event::Responded(ResponseHead::bad_request())));
    assert!(ex.accepts(&Event::Chunk(vec![])));
    let (ex, _) = ex.step(Event::ReadFailed);
    assert!(!ex.is_done());
    let (ex, _) = ex.step(Event::Sent);
    let (ex, _) = ex.step(Event::Sent);
    assert!(ex.is_done());
    assert!(!ex.accepts(&Event::Sent));
}
