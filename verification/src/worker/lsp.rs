//! How the server answers requests, notifications and `initialize`.

use vstd::prelude::*;
use crate::capabilities::{
    is_server_info, offered_encodings, offers_utf8, server_info, ClientCapabilities,
    InitializeParams, InitializeResult, ServerCapabilities,
};
use crate::decimal::{i32_to_decimal, signed_decimal_of};
use crate::message::{
    err_response, error_code_value, ok_response, ErrorCode, Notification, Request, RequestId,
    Response,
};
use crate::lsp_ext::{Tab, TabParams};
use crate::tab::BrowserTab;
use crate::wire::{
    exit_method, formatting_method, formatting_params_from_json, is_null_json_text,
    parse_formatting_params, parse_unit_params, shutdown_method, single_text_edit_json,
    unit_from_json, unit_to_json,
};
use super::{
    answer, formatting_result, is_exit, tab_answer, tab_params_view, Action, ActionView, Worker, WorkerState,
    DOCUMENT_END_LINE,
};

verus! {

/// An error that a request handler reports with its own code.
pub struct ErrorBody {
    pub code: ErrorCode,
    pub message: String,
}

/// The text of an `ErrorBody` for a person to read.
pub open spec fn error_body_text(code: ErrorCode, message: Seq<char>) -> Seq<char> {
    "Language Server request failed with "@ + signed_decimal_of(error_code_value(code) as int)
        + ". ("@ + message + ")"@
}

impl ErrorBody {
    pub fn new(code: ErrorCode, message: String) -> (e: ErrorBody)
        ensures
            e.code == code,
            e.message == message,
    {
        ErrorBody { code, message }
    }

    /// The failed response to the request `id` that carries this error.
    pub fn into_response(self, id: RequestId) -> (r: Response)
        ensures
            r@ == err_response(id@, error_code_value(self.code), self.message@),
    {
        Response::new_err(id, self.code.value(), self.message)
    }

    /// The text of this error for a person to read.
    pub fn to_message(&self) -> (s: String)
        ensures
            s@ == error_body_text(self.code, self.message@),
    {
        let mut s = "Language Server request failed with ".to_owned();
        let code = i32_to_decimal(self.code.value());
        s.append(code.as_str());
        s.append(". (");
        s.append(self.message.as_str());
        s.append(")");
        assert(s@ =~= error_body_text(self.code, self.message@));
        s
    }
}

/// How a request handler can fail: with an `ErrorBody` of its own, or
/// with any other error, known by its text.
pub enum HandlerError {
    Body(ErrorBody),
    Other(String),
}

/// Reads the parameters of a formatting request.
///
/// On success the request's id is handed back; when serde_json refuses the
/// parameters, the response to send is an invalid-parameters error with
/// serde_json's message.
pub fn parse_formatting_request(msg: Request) -> (res: Result<RequestId, Response>)
    ensures
        match formatting_params_from_json(msg.params@) {
            Ok(_) => res matches Ok(id) && id@ == msg.id@,
            Err(message) => res matches Err(r) && r@ == err_response(
                msg.id@,
                error_code_value(ErrorCode::InvalidParams),
                message,
            ),
        },
{
    let Request { id, params, .. } = msg;
    match parse_formatting_params(params.as_str()) {
        Ok(()) => Ok(id),
        Err(message) => Err(Response::new_err(id, ErrorCode::InvalidParams.value(), message)),
    }
}

/// Reads the parameters of a request whose parameters are a unit.
///
/// On success the request's id is handed back; when serde_json refuses the
/// parameters, the response to send is an invalid-parameters error with
/// serde_json's message.
pub fn parse_request(msg: Request) -> (res: Result<RequestId, Response>)
    ensures
        match unit_from_json(msg.params@) {
            Ok(_) => res matches Ok(id) && id@ == msg.id@,
            Err(message) => res matches Err(r) && r@ == err_response(
                msg.id@,
                error_code_value(ErrorCode::InvalidParams),
                message,
            ),
        },
        res is Ok <==> is_null_json_text(msg.params@),
{
    let Request { id, params, .. } = msg;
    match parse_unit_params(params.as_str()) {
        Ok(()) => Ok(id),
        Err(message) => Err(Response::new_err(id, ErrorCode::InvalidParams.value(), message)),
    }
}

/// The response to the request `id` from what its handler returned.
///
/// A unit result is sent as `null`; an `ErrorBody` keeps its code; any
/// other error is an internal error with the error's text.
pub fn result_to_response(id: RequestId, result: Result<(), HandlerError>) -> (r: Response)
    ensures
        match result {
            Ok(()) => r@ == ok_response(id@, "null"@),
            Err(HandlerError::Body(e)) => r@ == err_response(id@, error_code_value(e.code), e.message@),
            Err(HandlerError::Other(m)) => r@ == err_response(
                id@,
                error_code_value(ErrorCode::InternalError),
                m@,
            ),
        },
{
    match result {
        Ok(()) => Response::new_ok(id, unit_to_json()),
        Err(HandlerError::Body(e)) => e.into_response(id),
        Err(HandlerError::Other(m)) => Response::new_err(id, ErrorCode::InternalError.value(), m),
    }
}

/// The features the server advertises: none, whatever the client can do.
pub fn server_capabilities(client_caps: &ClientCapabilities) -> (caps: ServerCapabilities)
    ensures
        caps.advertises_nothing(),
{
    ServerCapabilities {
        text_document_sync: false,
        selection_range_provider: false,
        hover_provider: false,
        completion_provider: false,
        signature_help_provider: false,
        definition_provider: false,
        type_definition_provider: false,
        implementation_provider: false,
        references_provider: false,
        document_highlight_provider: false,
        document_symbol_provider: false,
        workspace_symbol_provider: false,
        code_action_provider: false,
        code_lens_provider: false,
        document_formatting_provider: false,
        document_range_formatting_provider: false,
        document_on_type_formatting_provider: false,
        rename_provider: false,
        document_link_provider: false,
        color_provider: false,
        folding_range_provider: false,
        declaration_provider: false,
        execute_command_provider: false,
        workspace: false,
        call_hierarchy_provider: false,
        semantic_tokens_provider: false,
        moniker_provider: false,
        linked_editing_range_provider: false,
        experimental: false,
    }
}

/// Whether the client offers UTF-8 offsets among its position encodings.
pub fn supports_utf8(caps: &ClientCapabilities) -> (b: bool)
    ensures
        b == offers_utf8(*caps),
        b <==> (caps.offset_encoding matches Some(list) && exists|i: int|
            0 <= i < list@.len() && #[trigger] list@[i]@ == "utf-8"@),
{
    match &caps.offset_encoding {
        None => {
            assert(!offered_encodings(*caps).contains("utf-8"@));
            false
        },
        Some(list) => {
            let utf8 = "utf-8".to_owned();
            let ghost offered = offered_encodings(*caps);
            let mut i: usize = 0;
            while i < list.len()
                invariant
                    i <= list.len(),
                    utf8@ == "utf-8"@,
                    offered == list@.map_values(|e: String| e@),
                    offered == offered_encodings(*caps),
                    forall|j: int| 0 <= j < i ==> offered[j] != utf8@,
                decreases list.len() - i,
            {
                if list[i] == utf8 {
                    assert(offered[i as int] == utf8@);
                    assert(list@[i as int]@ == "utf-8"@);
                    return true;
                }
                i += 1;
            }
            assert(!offered.contains("utf-8"@));
            assert forall|i: int| 0 <= i < list@.len() implies #[trigger] list@[i]@ != "utf-8"@ by {
                assert(offered[i] == list@[i]@);
            }
            false
        },
    }
}

/// The answer to `initialize`: no advertised feature, the server's name
/// and version, and UTF-8 offsets when the client offers them.
pub fn initialize_result(params: &InitializeParams) -> (res: InitializeResult)
    ensures
        res.capabilities.advertises_nothing(),
        res.server_info matches Some(info) && is_server_info(info),
        res.offset_encoding is Some <==> offers_utf8(params.capabilities),
        res.offset_encoding matches Some(e) ==> e@ == "utf-8"@,
{
    let capabilities = server_capabilities(&params.capabilities);
    let offset_encoding = if supports_utf8(&params.capabilities) {
        Some("utf-8".to_owned())
    } else {
        None
    };
    InitializeResult { capabilities, server_info: Some(server_info()), offset_encoding }
}

impl Worker {
    /// Whether a notification stops the server: only `exit` does.
    pub fn handle_notification(&self, msg: Notification) -> (stop: bool)
        ensures
            stop == is_exit(msg@),
            stop <==> msg.method@ == "exit"@,
    {
        msg.method == exit_method().to_owned()
    }

    /// What to do about a request, and what it changes.
    ///
    /// `shutdown` is granted exactly when its parameters are `null` (with
    /// optional whitespace); the tab request is handed back for its
    /// parameters to be read; formatting is answered from the tab.
    pub fn handle_request(&mut self, msg: Request) -> (action: Action)
        ensures
            (final(self)@, action@) == answer(old(self)@, msg@),
            msg.method@ == "shutdown"@ ==> (final(self)@.shutdown_requested <==> (
            old(self)@.shutdown_requested || is_null_json_text(msg.params@))),
            msg.method@ == "shutdown"@ ==> (action matches Action::Reply(r) && (r@.error is None
                <==> is_null_json_text(msg.params@))),
    {
        proof {
            reveal_strlit("shutdown");
            reveal_strlit("web-browser-lsp/tab");
        }
        if msg.method == shutdown_method().to_owned() {
            Action::Reply(self.lift_request(msg))
        } else if msg.method == Tab::METHOD.to_owned() {
            let Request { id, params, .. } = msg;
            Action::ReadTabParams { id, params }
        } else if msg.method == formatting_method().to_owned() {
            Action::Reply(self.handle_formatting(msg))
        } else {
            Action::Reply(
                Response::new_err(
                    msg.id,
                    ErrorCode::MethodNotFound.value(),
                    "unknown request".to_owned(),
                ),
            )
        }
    }

    /// The response to a tab request whose parameters the caller read into
    /// `TabParams` (or failed to, with the reader's message), and what it
    /// changes: readable parameters open the tab, once, and are answered
    /// `null`.
    pub fn handle_tab_request(&mut self, id: RequestId, params: Result<TabParams, String>) -> (r:
        Response)
        ensures
            (final(self)@, r@) == tab_answer(old(self)@, id@, tab_params_view(params)),
            r@.id == id@,
            params is Err ==> final(self)@ == old(self)@,
            params is Err ==> r@.result is None,
            params is Err ==> (r@.error matches Some(e) && e.code == -32602 && e.message
                == params->Err_0@),
            params is Ok ==> r@.result == Some("null"@) && r@.error is None,
            params is Ok ==> final(self)@.tab is Some,
            params is Ok ==> final(self)@.shutdown_requested == old(self)@.shutdown_requested,
            params is Ok && old(self)@.tab is Some ==> final(self)@ == old(self)@,
            params is Ok && old(self)@.tab is None ==> (final(self)@.tab matches Some(t)
                && !t.connected && t.url.len() == 0 && t.body.len() == 0),
    {
        match params {
            Ok(_) => {
                if self.tab.is_none() {
                    self.tab = Some(BrowserTab::unconnected());
                }
                result_to_response(id, Ok(()))
            },
            Err(message) => Response::new_err(id, ErrorCode::InvalidParams.value(), message),
        }
    }

    /// The response to a formatting request: the parameters are read
    /// first, then the tab's text, if there is a tab, replaces the whole
    /// document.
    fn handle_formatting(&self, msg: Request) -> (r: Response)
        requires
            msg.method@ == "textDocument/formatting"@,
        ensures
            r@ == answer(self@, msg@).1->Reply_0,
    {
        proof {
            reveal_strlit("shutdown");
            reveal_strlit("web-browser-lsp/tab");
            reveal_strlit("textDocument/formatting");
            assert(msg.method@[0] != "web-browser-lsp/tab"@[0]);
            assert(msg.method@.len() != "shutdown"@.len());
        }
        let id = match parse_formatting_request(msg) {
            Ok(id) => id,
            Err(response) => return response,
        };
        Response::new_ok(id, self.formatting_result_json())
    }

    /// The JSON text of the formatting result.
    fn formatting_result_json(&self) -> (json: String)
        ensures
            json@ == formatting_result(self@),
    {
        match &self.tab {
            Some(tab) => {
                let text = tab.text();
                single_text_edit_json(0, 0, DOCUMENT_END_LINE, 0, text.as_str())
            },
            None => unit_to_json(),
        }
    }

    /// The answer to `initialize`; the state is left as it was.
    pub fn initialize(&self, params: &InitializeParams) -> (res: InitializeResult)
        ensures
            res.capabilities.advertises_nothing(),
            res.server_info matches Some(info) && is_server_info(info),
            res.offset_encoding is Some <==> offers_utf8(params.capabilities),
            res.offset_encoding matches Some(e) ==> e@ == "utf-8"@,
    {
        initialize_result(params)
    }

    /// Runs the `shutdown` handler on a request whose parameters are a
    /// unit: the parameters are read first, then the handler's result
    /// becomes the response.
    fn lift_request(&mut self, msg: Request) -> (r: Response)
        requires
            msg.method@ == "shutdown"@,
        ensures
            (final(self)@, ActionView::Reply(r@)) == answer(old(self)@, msg@),
            unit_from_json(msg.params@) is Ok <==> is_null_json_text(msg.params@),
    {
        let id = match parse_request(msg) {
            Ok(id) => id,
            Err(response) => return response,
        };
        let result = self.shutdown();
        result_to_response(id, result)
    }

    /// The `shutdown` handler: notes that the client asked for it.
    fn shutdown(&mut self) -> (res: Result<(), HandlerError>)
        ensures
            final(self)@ == (WorkerState { shutdown_requested: true, tab: old(self)@.tab }),
            res is Ok,
    {
        self.shutdown_requested = true;
        Ok(())
    }
}

} // verus!
