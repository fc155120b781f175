//! JSON-RPC messages as the server sees them: requests, notifications and
//! responses, with parameters and results held as JSON text.

use vstd::prelude::*;

verus! {

/// The id of a request: a number or a string.
pub enum RequestId {
    I32(i32),
    Str(String),
}

/// A request id as a plain value.
pub enum IdView {
    I32(i32),
    Str(Seq<char>),
}

impl View for RequestId {
    type V = IdView;

    open spec fn view(&self) -> IdView {
        match self {
            RequestId::I32(n) => IdView::I32(*n),
            RequestId::Str(s) => IdView::Str(s@),
        }
    }
}

/// A request: the client expects a response carrying the same id.
pub struct Request {
    pub id: RequestId,
    pub method: String,
    /// The parameters as JSON text (`null` when the client sent none).
    pub params: String,
}

/// A request as plain values.
pub struct RequestView {
    pub id: IdView,
    pub method: Seq<char>,
    pub params: Seq<char>,
}

impl View for Request {
    type V = RequestView;

    open spec fn view(&self) -> RequestView {
        RequestView { id: self.id@, method: self.method@, params: self.params@ }
    }
}

/// A notification: the client expects no response.
pub struct Notification {
    pub method: String,
    /// The parameters as JSON text (`null` when the client sent none).
    pub params: String,
}

/// A notification as plain values.
pub struct NotificationView {
    pub method: Seq<char>,
    pub params: Seq<char>,
}

impl View for Notification {
    type V = NotificationView;

    open spec fn view(&self) -> NotificationView {
        NotificationView { method: self.method@, params: self.params@ }
    }
}

/// The error part of a response.
pub struct ResponseError {
    pub code: i32,
    pub message: String,
}

/// A response error as plain values.
pub struct ErrorView {
    pub code: i32,
    pub message: Seq<char>,
}

impl View for ResponseError {
    type V = ErrorView;

    open spec fn view(&self) -> ErrorView {
        ErrorView { code: self.code, message: self.message@ }
    }
}

/// A response to a request: a result (as JSON text) or an error.
pub struct Response {
    pub id: RequestId,
    pub result: Option<String>,
    pub error: Option<ResponseError>,
}

/// A response as plain values.
pub struct ResponseView {
    pub id: IdView,
    pub result: Option<Seq<char>>,
    pub error: Option<ErrorView>,
}

impl View for Response {
    type V = ResponseView;

    open spec fn view(&self) -> ResponseView {
        ResponseView {
            id: self.id@,
            result: match &self.result {
                Some(r) => Some(r@),
                None => None,
            },
            error: match &self.error {
                Some(e) => Some(e@),
                None => None,
            },
        }
    }
}

/// A successful response to the request `id` with the result `result`.
pub open spec fn ok_response(id: IdView, result: Seq<char>) -> ResponseView {
    ResponseView { id, result: Some(result), error: None }
}

/// A failed response to the request `id`.
pub open spec fn err_response(id: IdView, code: i32, message: Seq<char>) -> ResponseView {
    ResponseView { id, result: None, error: Some(ErrorView { code, message }) }
}

/// A response as JSON-RPC wants it: exactly one of a result and an error.
pub open spec fn well_formed_response(r: ResponseView) -> bool {
    r.result is Some <==> r.error is None
}

impl Response {
    /// A successful response carrying `result`.
    pub fn new_ok(id: RequestId, result: String) -> (r: Response)
        ensures
            r@ == ok_response(id@, result@),
    {
        Response { id, result: Some(result), error: None }
    }

    /// A failed response carrying `code` and `message`.
    pub fn new_err(id: RequestId, code: i32, message: String) -> (r: Response)
        ensures
            r@ == err_response(id@, code, message@),
    {
        Response { id, result: None, error: Some(ResponseError { code, message }) }
    }
}

/// Any message of the protocol.
pub enum Message {
    Request(Request),
    Response(Response),
    Notification(Notification),
}

/// A message as plain values.
pub enum MessageView {
    Request(RequestView),
    Response(ResponseView),
    Notification(NotificationView),
}

impl View for Message {
    type V = MessageView;

    open spec fn view(&self) -> MessageView {
        match self {
            Message::Request(r) => MessageView::Request(r@),
            Message::Response(r) => MessageView::Response(r@),
            Message::Notification(n) => MessageView::Notification(n@),
        }
    }
}

/// The error codes of JSON-RPC and of the Language Server Protocol.
#[derive(Clone, Copy, Debug, PartialEq, Eq, Structural)]
pub enum ErrorCode {
    ParseError,
    InvalidRequest,
    MethodNotFound,
    InvalidParams,
    InternalError,
    ServerErrorStart,
    ServerErrorEnd,
    ServerNotInitialized,
    UnknownErrorCode,
    RequestCanceled,
    ContentModified,
    ServerCancelled,
}

/// The number that stands for each error code on the wire.
pub open spec fn error_code_value(code: ErrorCode) -> i32 {
    match code {
        ErrorCode::ParseError => -32700i32,
        ErrorCode::InvalidRequest => -32600i32,
        ErrorCode::MethodNotFound => -32601i32,
        ErrorCode::InvalidParams => -32602i32,
        ErrorCode::InternalError => -32603i32,
        ErrorCode::ServerErrorStart => -32099i32,
        ErrorCode::ServerErrorEnd => -32000i32,
        ErrorCode::ServerNotInitialized => -32002i32,
        ErrorCode::UnknownErrorCode => -32001i32,
        ErrorCode::RequestCanceled => -32800i32,
        ErrorCode::ContentModified => -32801i32,
        ErrorCode::ServerCancelled => -32802i32,
    }
}

impl ErrorCode {
    /// The number that stands for this code on the wire.
    pub fn value(self) -> (n: i32)
        ensures
            n == error_code_value(self),
    {
        match self {
            ErrorCode::ParseError => -32700,
            ErrorCode::InvalidRequest => -32600,
            ErrorCode::MethodNotFound => -32601,
            ErrorCode::InvalidParams => -32602,
            ErrorCode::InternalError => -32603,
            ErrorCode::ServerErrorStart => -32099,
            ErrorCode::ServerErrorEnd => -32000,
            ErrorCode::ServerNotInitialized => -32002,
            ErrorCode::UnknownErrorCode => -32001,
            ErrorCode::RequestCanceled => -32800,
            ErrorCode::ContentModified => -32801,
            ErrorCode::ServerCancelled => -32802,
        }
    }
}

} // verus!
