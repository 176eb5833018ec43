use resq_plugin_sdk::service::reply_to;
use resq_plugin_sdk::{
    Action, Event, Handler, Id, Message, PluginInfo, RpcError, Session, TransportError,
};
use resq_plugin_sdk::service::Phase;
use serde_json::Value;

struct Demo {
    notified: Vec<String>,
    called: Vec<String>,
}

impl Handler for Demo {
    fn info(&self) -> PluginInfo {
        PluginInfo { name: "demo".into(), version: "0.0.1".into() }
    }

    fn call(&mut self, method: &str, params: &Value) -> Result<Value, RpcError> {
        self.called.push(method.to_string());
        match method {
            "add" => {
                let a = params.get("a").and_then(Value::as_i64).unwrap_or(0);
                let b = params.get("b").and_then(Value::as_i64).unwrap_or(0);
                let mut sum = serde_json::Map::new();
                sum.insert("sum".to_string(), Value::from(a + b));
                Ok(Value::Object(sum))
            }
            "fail" => Err(RpcError::plugin("expected failure")),
            other => Err(RpcError::method_not_found(other)),
        }
    }

    fn notify(&mut self, method: &str, _params: &Value) {
        self.notified.push(method.to_string());
    }
}

fn json(text: &str) -> Value {
    serde_json::from_str(text).expect("json")
}

fn request(id: u64, method: &str, params: Value) -> Message {
    Message::Request { id: Id::Num(id), method: method.to_string(), params }
}

/// Runs a session over `input` (one read per message, then the end of
/// input), with every write succeeding; returns the replies and the outcome.
fn run(handler: &mut Demo, input: Vec<Message>) -> (Vec<Message>, Result<usize, TransportError>) {
    let mut session = Session::new();
    let mut input = input.into_iter();
    let mut replies = Vec::new();
    let mut action = Action::Read;
    loop {
        let event = match action {
            Action::Read => Event::Read(Ok(input.next())),
            Action::Call { method, params } => Event::Called(handler.call(&method, &params)),
            Action::Notify { method, params } => {
                handler.notify(&method, &params);
                Event::Notified
            }
            Action::Write(reply) => {
                replies.push(reply);
                Event::Wrote(Ok(()))
            }
            Action::Finish(r) => return (replies, r),
        };
        action = session.step(event);
    }
}

#[test]
fn serve_loop_requests_notifications_and_errors() {
    let input = vec![
        request(1, "add", json("{\"a\":2,\"b\":40}")),
        Message::Notification { method: "bye".to_string(), params: Value::Null },
        request(2, "fail", Value::Null),
        request(3, "nope", Value::Null),
    ];
    let mut demo = Demo { notified: Vec::new(), called: Vec::new() };
    let (replies, served) = run(&mut demo, input);
    assert_eq!(served.expect("serve"), 3);
    assert_eq!(replies.len(), 3);

    match &replies[0] {
        Message::Response { id, result: Some(r), error: None } => {
            assert_eq!(*id, Id::Num(1));
            assert_eq!(r["sum"], 42);
        }
        other => panic!("unexpected {other:?}"),
    }
    match &replies[1] {
        Message::Response { id, result: None, error: Some(e) } => {
            assert_eq!(*id, Id::Num(2));
            assert_eq!(e.code, -32000);
        }
        other => panic!("unexpected {other:?}"),
    }
    match &replies[2] {
        Message::Response { id, result: None, error: Some(e) } => {
            assert_eq!(*id, Id::Num(3));
            assert_eq!(e.code, -32601);
        }
        other => panic!("unexpected {other:?}"),
    }
    assert_eq!(demo.notified, vec!["bye".to_string()]);
    assert_eq!(demo.called, vec!["add".to_string(), "fail".to_string(), "nope".to_string()]);
}

#[test]
fn notifications_and_stray_responses_are_never_answered() {
    let input = vec![
        Message::Notification { method: "notifications/initialized".to_string(), params: Value::Null },
        Message::ok(Id::Num(5), Value::Null),
        Message::err(Id::Str("x".to_string()), RpcError::plugin("late")),
    ];
    let mut demo = Demo { notified: Vec::new(), called: Vec::new() };
    let (replies, served) = run(&mut demo, input);
    assert!(replies.is_empty());
    assert_eq!(served.expect("serve"), 0);
    assert_eq!(demo.notified, vec!["notifications/initialized".to_string()]);
    assert!(demo.called.is_empty());
}

#[test]
fn string_ids_are_echoed_in_replies() {
    let input = vec![Message::Request {
        id: Id::Str("abc-1".to_string()),
        method: "add".to_string(),
        params: Value::Null,
    }];
    let mut demo = Demo { notified: Vec::new(), called: Vec::new() };
    let (replies, served) = run(&mut demo, input);
    assert_eq!(served.expect("serve"), 1);
    match &replies[0] {
        Message::Response { id, result: Some(r), error: None } => {
            assert_eq!(*id, Id::Str("abc-1".to_string()));
            assert_eq!(r["sum"], 0);
        }
        other => panic!("unexpected {other:?}"),
    }
}

#[test]
fn a_read_failure_ends_the_session() {
    let mut demo = Demo { notified: Vec::new(), called: Vec::new() };
    let mut session = Session::new();
    let bad = TransportError::BadMessage { line: "not json".to_string(), reason: "r".to_string() };
    match session.step(Event::Read(Err(bad))) {
        Action::Finish(Err(TransportError::BadMessage { line, .. })) => assert_eq!(line, "not json"),
        other => panic!("unexpected {other:?}"),
    }
    assert_eq!(session.served(), 0);
}

#[test]
fn a_reply_counts_only_once_written() {
    let mut demo = Demo { notified: Vec::new(), called: Vec::new() };
    let mut session = Session::new();
    let action = session.step(Event::Read(Ok(Some(request(4, "add", Value::Null)))));
    let outcome = match action {
        Action::Call { method, params } => demo.call(&method, &params),
        other => panic!("unexpected {other:?}"),
    };
    assert_eq!(session.phase(), Phase::Calling);
    let action = session.step(Event::Called(outcome));
    assert!(matches!(action, Action::Write(_)));
    assert_eq!(session.phase(), Phase::Writing);
    assert_eq!(session.served(), 0);
    let failure = std::io::Error::new(std::io::ErrorKind::BrokenPipe, "gone");
    match session.step(Event::Wrote(Err(TransportError::Io(failure)))) {
        Action::Finish(Err(TransportError::Io(e))) => assert_eq!(e.kind(), std::io::ErrorKind::BrokenPipe),
        other => panic!("unexpected {other:?}"),
    }
    assert_eq!(session.served(), 0);
    assert_eq!(demo.called, vec!["add".to_string()]);
}

#[test]
fn reply_to_carries_result_or_error() {
    match reply_to(Id::Num(8), Ok(Value::from(1))) {
        Message::Response { id, result: Some(v), error: None } => {
            assert_eq!(id, Id::Num(8));
            assert_eq!(v, Value::from(1));
        }
        other => panic!("unexpected {other:?}"),
    }
    match reply_to(Id::Num(9), Err(RpcError::invalid_params("bad"))) {
        Message::Response { id, result: None, error: Some(e) } => {
            assert_eq!(id, Id::Num(9));
            assert_eq!(e.code, -32602);
        }
        other => panic!("unexpected {other:?}"),
    }
}

#[test]
fn requests_after_a_read_failure_are_not_served() {
    let mut demo = Demo { notified: Vec::new(), called: Vec::new() };
    let mut session = Session::new();
    let mut replies = Vec::new();
    let mut events = vec![
        Event::Read(Ok(Some(request(1, "add", json("{\"a\":2,\"b\":40}"))))),
        Event::Read(Err(TransportError::BadMessage {
            line: "not json".to_string(),
            reason: "expected value".to_string(),
        })),
    ]
    .into_iter();
    let mut action = Action::Read;
    let outcome = loop {
        let event = match action {
            Action::Read => events.next().expect("event"),
            Action::Call { method, params } => Event::Called(demo.call(&method, &params)),
            Action::Notify { method, params } => {
                demo.notify(&method, &params);
                Event::Notified
            }
            Action::Write(reply) => {
                replies.push(reply);
                Event::Wrote(Ok(()))
            }
            Action::Finish(r) => break r,
        };
        action = session.step(event);
    };
    match outcome {
        Err(TransportError::BadMessage { line, .. }) => assert_eq!(line, "not json"),
        other => panic!("unexpected {other:?}"),
    }
    assert_eq!(replies.len(), 1);
    match &replies[0] {
        Message::Response { id, result: Some(r), error: None } => {
            assert_eq!(*id, Id::Num(1));
            assert_eq!(r["sum"], 42);
        }
        other => panic!("unexpected {other:?}"),
    }
    assert_eq!(demo.called, vec!["add".to_string()]);
}

struct Hello;

impl Handler for Hello {
    fn info(&self) -> PluginInfo {
        PluginInfo { name: "resq-hello".into(), version: "0.1.0".into() }
    }

    fn call(&mut self, method: &str, params: &Value) -> Result<Value, RpcError> {
        match method {
            "hello" => {
                let who = params.get("who").and_then(Value::as_str).unwrap_or("world");
                let mut greeting = serde_json::Map::new();
                greeting.insert("greeting".to_string(), Value::from(format!("hello, {who}")));
                Ok(Value::Object(greeting))
            }
            other => Err(RpcError::method_not_found(other)),
        }
    }
}

#[test]
fn hello_plugin_greets_the_world() {
    let mut hello = Hello;
    let mut session = Session::new();
    let action = session.step(Event::Read(Ok(Some(request(1, "hello", Value::Null)))));
    let outcome = match action {
        Action::Call { method, params } => {
            assert_eq!(method, "hello");
            assert_eq!(params, Value::Null);
            hello.call(&method, &params)
        }
        other => panic!("unexpected {other:?}"),
    };
    match session.step(Event::Called(outcome)) {
        Action::Write(Message::Response { id, result: Some(r), error: None }) => {
            assert_eq!(id, Id::Num(1));
            assert_eq!(r["greeting"], "hello, world");
        }
        other => panic!("unexpected {other:?}"),
    }
    assert!(matches!(session.step(Event::Wrote(Ok(()))), Action::Read));
    match session.step(Event::Read(Ok(None))) {
        Action::Finish(Ok(n)) => assert_eq!(n, 1),
        other => panic!("unexpected {other:?}"),
    }
}

#[test]
fn a_notification_is_handed_over_and_not_answered() {
    let mut session = Session::new();
    let n = Message::Notification { method: "bye".to_string(), params: json("{\"x\":1}") };
    match session.step(Event::Read(Ok(Some(n)))) {
        Action::Notify { method, params } => {
            assert_eq!(method, "bye");
            assert_eq!(params["x"], 1);
        }
        other => panic!("unexpected {other:?}"),
    }
    assert_eq!(session.phase(), Phase::Notifying);
    assert!(matches!(session.step(Event::Notified), Action::Read));
    assert_eq!(session.phase(), Phase::Reading);
    assert_eq!(session.served(), 0);
}
