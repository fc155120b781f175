use web_browser_lsp::message::{ErrorCode, Message, Notification, Request, RequestId, Response};
use web_browser_lsp::worker::lsp::{parse_request, result_to_response, ErrorBody, HandlerError};
use web_browser_lsp::lsp_ext::TabParams;
use web_browser_lsp::worker::{Action, Worker};

fn reply(action: Action) -> Response {
    match action {
        Action::Reply(r) => r,
        _ => panic!("expected a reply"),
    }
}

fn request(id: i32, method: &str, params: &str) -> Request {
    Request { id: RequestId::I32(id), method: method.to_string(), params: params.to_string() }
}

fn notification(method: &str) -> Notification {
    Notification { method: method.to_string(), params: "null".to_string() }
}

fn id_of(r: &Response) -> Option<i32> {
    match r.id {
        RequestId::I32(n) => Some(n),
        RequestId::Str(_) => None,
    }
}

#[test]
fn shutdown_is_granted() {
    let mut worker = Worker::new();
    assert!(!worker.shutdown_requested());
    let r = reply(worker.handle_request(request(3, "shutdown", "null")));
    assert_eq!(id_of(&r), Some(3));
    assert_eq!(r.result.as_deref(), Some("null"));
    assert!(r.error.is_none());
    assert!(worker.shutdown_requested());
}

#[test]
fn shutdown_twice_stays_granted() {
    let mut worker = Worker::new();
    reply(worker.handle_request(request(1, "shutdown", "null")));
    let r = reply(worker.handle_request(request(2, "shutdown", "null")));
    assert_eq!(r.result.as_deref(), Some("null"));
    assert!(worker.shutdown_requested());
}

#[test]
fn shutdown_with_string_id() {
    let mut worker = Worker::new();
    let req = Request {
        id: RequestId::Str("abc".to_string()),
        method: "shutdown".to_string(),
        params: "null".to_string(),
    };
    let r = reply(worker.handle_request(req));
    match &r.id {
        RequestId::Str(s) => assert_eq!(s, "abc"),
        RequestId::I32(_) => panic!("id changed"),
    }
    assert_eq!(r.result.as_deref(), Some("null"));
}

#[test]
fn shutdown_with_invalid_params() {
    let mut worker = Worker::new();
    let r = reply(worker.handle_request(request(4, "shutdown", "{}")));
    assert_eq!(id_of(&r), Some(4));
    assert!(r.result.is_none());
    let e = r.error.unwrap();
    assert_eq!(e.code, -32602);
    assert_eq!(e.message, "invalid type: map, expected unit");
    assert!(!worker.shutdown_requested());
}

#[test]
fn shutdown_with_sequence_params() {
    let mut worker = Worker::new();
    let r = reply(worker.handle_request(request(5, "shutdown", "[1,2]")));
    let e = r.error.unwrap();
    assert_eq!(e.code, -32602);
    assert_eq!(e.message, "invalid type: sequence, expected unit");
    assert!(!worker.shutdown_requested());
}

#[test]
fn unknown_method() {
    let mut worker = Worker::new();
    let r = reply(worker.handle_request(request(9, "textDocument/hover", "{}")));
    assert_eq!(id_of(&r), Some(9));
    assert!(r.result.is_none());
    let e = r.error.unwrap();
    assert_eq!(e.code, -32601);
    assert_eq!(e.message, "unknown request");
    assert!(!worker.shutdown_requested());
}

#[test]
fn exit_notification_stops() {
    let worker = Worker::new();
    assert!(worker.handle_notification(notification("exit")));
    assert!(!worker.handle_notification(notification("initialized")));
    assert!(!worker.handle_notification(notification("Exit")));
}

#[test]
fn handle_message_actions() {
    let mut worker = Worker::new();
    match worker.handle_message(Message::Request(request(1, "textDocument/hover", "null"))) {
        Action::Reply(r) => {
            assert_eq!(id_of(&r), Some(1));
            assert_eq!(r.error.unwrap().code, -32601);
        }
        _ => panic!("a request must be answered"),
    }
    assert!(matches!(
        worker.handle_message(Message::Notification(notification("textDocument/didOpen"))),
        Action::Continue
    ));
    assert!(matches!(
        worker.handle_message(Message::Notification(notification("exit"))),
        Action::Exit
    ));
    match worker.handle_message(Message::Request(request(2, "shutdown", "null"))) {
        Action::Reply(r) => assert_eq!(r.result.as_deref(), Some("null")),
        _ => panic!("a request must be answered"),
    }
    assert!(worker.shutdown_requested());
    assert!(matches!(
        worker.handle_message(Message::Notification(notification("exit"))),
        Action::Exit
    ));
    assert!(worker.shutdown_requested());
}

#[test]
fn parse_request_null_and_invalid() {
    match parse_request(request(7, "shutdown", "null")) {
        Ok(RequestId::I32(7)) => {}
        _ => panic!("null parameters read as a unit"),
    }
    match parse_request(request(8, "shutdown", "true")) {
        Err(r) => {
            assert_eq!(id_of(&r), Some(8));
            let e = r.error.unwrap();
            assert_eq!(e.code, -32602);
            assert_eq!(e.message, "invalid type: boolean `true`, expected unit");
        }
        Ok(_) => panic!("true is not a unit"),
    }
}

#[test]
fn results_become_responses() {
    let ok = result_to_response(RequestId::I32(1), Ok(()));
    assert_eq!(ok.result.as_deref(), Some("null"));
    assert!(ok.error.is_none());

    let body = ErrorBody::new(ErrorCode::ContentModified, "stale".to_string());
    let r = result_to_response(RequestId::I32(2), Err(HandlerError::Body(body)));
    assert!(r.result.is_none());
    let e = r.error.unwrap();
    assert_eq!(e.code, -32801);
    assert_eq!(e.message, "stale");

    let r = result_to_response(RequestId::I32(3), Err(HandlerError::Other("boom".to_string())));
    let e = r.error.unwrap();
    assert_eq!(e.code, -32603);
    assert_eq!(e.message, "boom");
}

#[test]
fn error_body_text_and_response() {
    let body = ErrorBody::new(ErrorCode::MethodNotFound, "no such method".to_string());
    assert_eq!(
        body.to_message(),
        "Language Server request failed with -32601. (no such method)"
    );
    let r = body.into_response(RequestId::I32(5));
    assert_eq!(id_of(&r), Some(5));
    let e = r.error.unwrap();
    assert_eq!(e.code, -32601);
    assert_eq!(e.message, "no such method");
}

#[test]
fn error_code_values() {
    assert_eq!(ErrorCode::ParseError.value(), -32700);
    assert_eq!(ErrorCode::InvalidRequest.value(), -32600);
    assert_eq!(ErrorCode::MethodNotFound.value(), -32601);
    assert_eq!(ErrorCode::InvalidParams.value(), -32602);
    assert_eq!(ErrorCode::InternalError.value(), -32603);
    assert_eq!(ErrorCode::ServerErrorStart.value(), -32099);
    assert_eq!(ErrorCode::ServerErrorEnd.value(), -32000);
    assert_eq!(ErrorCode::ServerNotInitialized.value(), -32002);
    assert_eq!(ErrorCode::UnknownErrorCode.value(), -32001);
    assert_eq!(ErrorCode::RequestCanceled.value(), -32800);
    assert_eq!(ErrorCode::ContentModified.value(), -32801);
    assert_eq!(ErrorCode::ServerCancelled.value(), -32802);
}

#[test]
fn new_ok_and_new_err() {
    let r = Response::new_ok(RequestId::I32(1), "42".to_string());
    assert_eq!(r.result.as_deref(), Some("42"));
    assert!(r.error.is_none());
    let r = Response::new_err(RequestId::I32(1), -1, "x".to_string());
    assert!(r.result.is_none());
    assert_eq!(r.error.unwrap().code, -1);
}

#[test]
fn shutdown_flag_follows_granted_requests() {
    let mut worker = Worker::new();
    let messages = vec![
        Message::Request(request(1, "shutdown", "{\"now\":true}")),
        Message::Notification(notification("initialized")),
        Message::Request(request(2, "textDocument/formatting", "{}")),
    ];
    for m in messages {
        worker.handle_message(m);
        assert!(!worker.shutdown_requested());
    }
    worker.handle_message(Message::Request(request(3, "shutdown", "null")));
    assert!(worker.shutdown_requested());
    worker.handle_message(Message::Request(request(4, "shutdown", "5")));
    worker.handle_message(Message::Notification(notification("exit")));
    assert!(worker.shutdown_requested());
}

#[test]
fn shutdown_with_whitespace_around_null() {
    let mut worker = Worker::new();
    let r = reply(worker.handle_request(request(6, "shutdown", " \n null\t")));
    assert_eq!(r.result.as_deref(), Some("null"));
    assert!(worker.shutdown_requested());
}

#[test]
fn tab_request_is_handed_back_for_its_params() {
    let mut worker = Worker::new();
    match worker.handle_request(request(3, "web-browser-lsp/tab", "{}")) {
        Action::ReadTabParams { id: RequestId::I32(3), params } => assert_eq!(params, "{}"),
        _ => panic!("the tab request's parameters are read by the caller"),
    }
    assert!(worker.tab().is_none());
}

#[test]
fn tab_request_opens_unconnected_tab() {
    let mut worker = Worker::new();
    let r = worker.handle_tab_request(RequestId::I32(3), Ok(TabParams {}));
    assert_eq!(id_of(&r), Some(3));
    assert_eq!(r.result.as_deref(), Some("null"));
    assert!(r.error.is_none());
    let tab = worker.tab().unwrap();
    assert!(!tab.connected);
    assert_eq!(tab.url, "");
    assert_eq!(tab.body, "");
    assert_eq!(tab.text(), "\n\n");
    assert!(!worker.shutdown_requested());
}

#[test]
fn tab_request_with_unreadable_params() {
    let mut worker = Worker::new();
    let r = worker.handle_tab_request(RequestId::I32(4), Err("bad".to_string()));
    let e = r.error.unwrap();
    assert_eq!(e.code, -32602);
    assert_eq!(e.message, "bad");
    assert!(worker.tab().is_none());
}

const FORMATTING_PARAMS: &str =
    "{\"textDocument\":{\"uri\":\"web-browser-lsp://tab\"},\"options\":{\"tabSize\":4,\"insertSpaces\":true}}";

#[test]
fn formatting_without_tab_has_no_edits() {
    let mut worker = Worker::new();
    let r = reply(worker.handle_request(request(5, "textDocument/formatting", FORMATTING_PARAMS)));
    assert_eq!(id_of(&r), Some(5));
    assert_eq!(r.result.as_deref(), Some("null"));
    assert!(r.error.is_none());
}

#[test]
fn formatting_after_tab_shows_tab_contents() {
    let mut worker = Worker::new();
    worker.handle_tab_request(RequestId::I32(1), Ok(TabParams {}));
    let r = reply(worker.handle_request(request(2, "textDocument/formatting", FORMATTING_PARAMS)));
    assert_eq!(id_of(&r), Some(2));
    assert!(r.error.is_none());
    assert_eq!(
        r.result.as_deref(),
        Some("[{\"range\":{\"start\":{\"line\":0,\"character\":0},\"end\":{\"line\":2147483647,\"character\":0}},\"newText\":\"\\n\\n\"}]")
    );
}

#[test]
fn second_tab_request_keeps_the_tab() {
    let mut worker = Worker::new();
    worker.handle_tab_request(RequestId::I32(1), Ok(TabParams {}));
    let r = worker.handle_tab_request(RequestId::I32(2), Ok(TabParams {}));
    assert_eq!(r.result.as_deref(), Some("null"));
    assert!(worker.tab().is_some());
}

#[test]
fn formatting_with_invalid_params() {
    let mut worker = Worker::new();
    worker.handle_tab_request(RequestId::I32(1), Ok(TabParams {}));
    let r = reply(worker.handle_request(request(7, "textDocument/formatting", "{}")));
    assert!(r.result.is_none());
    let e = r.error.unwrap();
    assert_eq!(e.code, -32602);
    assert_eq!(e.message, "missing field `textDocument`");
}
