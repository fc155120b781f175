//! The server's state and its decision on each message of the client.
//!
//! The loop that reads messages and sends the replies stays with the
//! caller: `Worker::handle_message` takes one message and says what to do.
//! The parameters of the tab request are read by the caller into
//! `TabParams` (that type's serde form lives with the caller), and handed
//! back to `Worker::handle_tab_request`.

pub mod lsp;

use vstd::prelude::*;
use crate::lsp_ext::TabParams;
use crate::message::{
    err_response, error_code_value, ok_response, ErrorCode, IdView, Message, MessageView,
    NotificationView, RequestId, RequestView, Response, ResponseView,
};
use crate::tab::{tab_text, unconnected_tab, BrowserTab, TabView};
use crate::wire::{formatting_params_from_json, text_edit_json, unit_from_json};

verus! {

/// The last line a formatting edit reaches: the largest line number the
/// protocol allows, so that the edit covers the whole document.
pub const DOCUMENT_END_LINE: u32 = 2147483647;

/// What the server remembers between messages.
pub struct Worker {
    shutdown_requested: bool,
    tab: Option<BrowserTab>,
}

/// The state of a `Worker` as a plain value.
pub struct WorkerState {
    /// Whether the client has asked the server to shut down.
    pub shutdown_requested: bool,
    /// The browser tab, once the client has asked for one.
    pub tab: Option<TabView>,
}

impl View for Worker {
    type V = WorkerState;

    closed spec fn view(&self) -> WorkerState {
        WorkerState {
            shutdown_requested: self.shutdown_requested,
            tab: match &self.tab {
                Some(t) => Some(t@),
                None => None,
            },
        }
    }
}

/// What the caller does after a message: send a response and go on, read
/// the parameters of a tab request and hand them to
/// `Worker::handle_tab_request`, go on without sending anything, or stop
/// serving.
pub enum Action {
    Reply(Response),
    ReadTabParams { id: RequestId, params: String },
    Continue,
    Exit,
}

/// An action as a plain value.
pub enum ActionView {
    Reply(ResponseView),
    ReadTabParams { id: IdView, params: Seq<char> },
    Continue,
    Exit,
}

impl View for Action {
    type V = ActionView;

    open spec fn view(&self) -> ActionView {
        match self {
            Action::Reply(r) => ActionView::Reply(r@),
            Action::ReadTabParams { id, params } => ActionView::ReadTabParams {
                id: id@,
                params: params@,
            },
            Action::Continue => ActionView::Continue,
            Action::Exit => ActionView::Exit,
        }
    }
}

/// Whether a notification asks the server to exit.
pub open spec fn is_exit(n: NotificationView) -> bool {
    n.method == "exit"@
}

/// Whether a request asks the server to shut down.
pub open spec fn is_shutdown(r: RequestView) -> bool {
    r.method == "shutdown"@
}

/// Whether a request asks for a browser tab.
pub open spec fn is_tab(r: RequestView) -> bool {
    r.method == "web-browser-lsp/tab"@
}

/// Whether a request asks to format a document.
pub open spec fn is_formatting(r: RequestView) -> bool {
    r.method == "textDocument/formatting"@
}

/// The state once a tab exists: the first tab request opens a tab that no
/// browser is connected to; a later one keeps the tab there is.
pub open spec fn tab_opened(state: WorkerState) -> WorkerState {
    WorkerState {
        shutdown_requested: state.shutdown_requested,
        tab: Some(
            match state.tab {
                Some(t) => t,
                None => unconnected_tab(),
            },
        ),
    }
}

/// The result of a formatting request: no edit while there is no tab, and
/// once there is one, one edit that replaces the whole document with the
/// tab's text.
pub open spec fn formatting_result(state: WorkerState) -> Seq<char> {
    match state.tab {
        Some(t) => text_edit_json(0, 0, DOCUMENT_END_LINE, 0, tab_text(t)),
        None => "null"@,
    }
}

/// The state after a request and what the caller does about it.
///
/// `shutdown` with parameters that read as a unit is granted: the server
/// notes it and answers `null`; with any other parameters it is refused as
/// invalid parameters, with serde_json's message. The tab request is handed
/// back for its parameters to be read. Formatting with parameters that read
/// as formatting parameters is answered with `formatting_result`; with
/// others it is refused as invalid parameters. Every other method is
/// unknown.
pub open spec fn answer(state: WorkerState, req: RequestView) -> (WorkerState, ActionView) {
    if is_shutdown(req) {
        match unit_from_json(req.params) {
            Ok(_) => (
                WorkerState { shutdown_requested: true, tab: state.tab },
                ActionView::Reply(ok_response(req.id, "null"@)),
            ),
            Err(message) => (
                state,
                ActionView::Reply(
                    err_response(req.id, error_code_value(ErrorCode::InvalidParams), message),
                ),
            ),
        }
    } else if is_tab(req) {
        (state, ActionView::ReadTabParams { id: req.id, params: req.params })
    } else if is_formatting(req) {
        match formatting_params_from_json(req.params) {
            Ok(_) => (state, ActionView::Reply(ok_response(req.id, formatting_result(state)))),
            Err(message) => (
                state,
                ActionView::Reply(
                    err_response(req.id, error_code_value(ErrorCode::InvalidParams), message),
                ),
            ),
        }
    } else {
        (
            state,
            ActionView::Reply(
                err_response(
                    req.id,
                    error_code_value(ErrorCode::MethodNotFound),
                    "unknown request"@,
                ),
            ),
        )
    }
}

/// The plain-value form of the tab parameters as the caller read them.
pub open spec fn tab_params_view(params: Result<TabParams, String>) -> Result<(), Seq<char>> {
    match params {
        Ok(_) => Ok(()),
        Err(message) => Err(message@),
    }
}

/// The state after a tab request whose parameters were read as `params`,
/// and the response to it: with readable parameters the tab is opened and
/// the answer is `null`; otherwise the request is refused as invalid
/// parameters with the reader's message.
pub open spec fn tab_answer(state: WorkerState, id: IdView, params: Result<(), Seq<char>>) -> (
    WorkerState,
    ResponseView,
) {
    match params {
        Ok(_) => (tab_opened(state), ok_response(id, "null"@)),
        Err(message) => (
            state,
            err_response(id, error_code_value(ErrorCode::InvalidParams), message),
        ),
    }
}

/// The state after a message and what the caller does next.
///
/// A request is answered as `answer` says; the `exit` notification stops
/// the server; other notifications are ignored. A response from the client
/// has no handler, since the server never sends requests: the step leaves
/// everything as it was, and `Worker::handle_message` does not take one.
pub open spec fn step(state: WorkerState, msg: MessageView) -> (WorkerState, ActionView) {
    match msg {
        MessageView::Request(req) => answer(state, req),
        MessageView::Notification(n) => (
            state,
            if is_exit(n) {
                ActionView::Exit
            } else {
                ActionView::Continue
            },
        ),
        MessageView::Response(_) => (state, ActionView::Continue),
    }
}

/// Every request is either answered with a well-formed response that
/// carries the request's own id, or handed back with its own id and
/// parameters so that those can be read.
pub proof fn lemma_request_answered(state: WorkerState, req: RequestView)
    ensures
        match answer(state, req).1 {
            ActionView::Reply(r) => r.id == req.id && crate::message::well_formed_response(r),
            ActionView::ReadTabParams { id, params } => id == req.id && params == req.params
                && is_tab(req),
            _ => false,
        },
{
}

/// The response to a tab request carries its id and is well formed.
pub proof fn lemma_tab_request_answered(
    state: WorkerState,
    id: IdView,
    params: Result<(), Seq<char>>,
)
    ensures
        tab_answer(state, id, params).1.id == id,
        crate::message::well_formed_response(tab_answer(state, id, params).1),
{
}

/// A tab request with readable parameters is answered `null`, and leaves a
/// tab in the state: a fresh, unconnected one when there was none.
pub proof fn lemma_tab_opens(state: WorkerState, id: IdView)
    ensures
        tab_answer(state, id, Ok(())).1 == ok_response(id, "null"@),
        tab_answer(state, id, Ok(())).0.tab is Some,
        tab_answer(state, id, Ok(())).0.shutdown_requested == state.shutdown_requested,
        state.tab is None ==> tab_answer(state, id, Ok(())).0.tab == Some(unconnected_tab()),
        state.tab is Some ==> tab_answer(state, id, Ok(())).0 == state,
{
}

/// A formatting request with readable parameters, once there is a tab, is
/// answered with one edit that puts the tab's text in place of the whole
/// document, and never with an error.
pub proof fn lemma_formatting_shows_tab(state: WorkerState, req: RequestView, t: TabView)
    requires
        state.tab == Some(t),
        is_formatting(req),
        formatting_params_from_json(req.params) is Ok,
    ensures
        answer(state, req) == (
            state,
            ActionView::Reply(
                ok_response(req.id, text_edit_json(0, 0, DOCUMENT_END_LINE, 0, tab_text(t))),
            ),
        ),
{
    assert(!is_shutdown(req)) by {
        reveal_strlit("shutdown");
        reveal_strlit("textDocument/formatting");
        assert(req.method.len() != "shutdown"@.len());
    }
    assert(!is_tab(req)) by {
        reveal_strlit("web-browser-lsp/tab");
        reveal_strlit("textDocument/formatting");
        assert(req.method[0] != "web-browser-lsp/tab"@[0]);
    }
}

/// After a tab request with readable parameters, a formatting request with
/// readable parameters is answered with the text of an unconnected tab
/// (for a fresh server, or of the tab there was), never with an error.
pub proof fn lemma_tab_then_formatting(
    state: WorkerState,
    id: IdView,
    req: RequestView,
)
    requires
        is_formatting(req),
        formatting_params_from_json(req.params) is Ok,
    ensures
        ({
            let after_tab = tab_answer(state, id, Ok(())).0;
            &&& after_tab.tab is Some
            &&& answer(after_tab, req) == (
                after_tab,
                ActionView::Reply(
                    ok_response(
                        req.id,
                        text_edit_json(0, 0, DOCUMENT_END_LINE, 0, tab_text(after_tab.tab->0)),
                    ),
                ),
            )
            &&& state.tab is None ==> after_tab.tab->0 == unconnected_tab()
        }),
{
    let after_tab = tab_answer(state, id, Ok(())).0;
    lemma_formatting_shows_tab(after_tab, req, after_tab.tab->0);
}

/// Before any tab exists, a formatting request with readable parameters is
/// answered `null`: there are no edits.
pub proof fn lemma_formatting_without_tab(state: WorkerState, req: RequestView)
    requires
        state.tab is None,
        is_formatting(req),
        formatting_params_from_json(req.params) is Ok,
    ensures
        answer(state, req) == (state, ActionView::Reply(ok_response(req.id, "null"@))),
{
    assert(!is_shutdown(req)) by {
        reveal_strlit("shutdown");
        reveal_strlit("textDocument/formatting");
        assert(req.method.len() != "shutdown"@.len());
    }
    assert(!is_tab(req)) by {
        reveal_strlit("web-browser-lsp/tab");
        reveal_strlit("textDocument/formatting");
        assert(req.method[0] != "web-browser-lsp/tab"@[0]);
    }
}

/// Every request message is routed to the answer for that request: the
/// message layer adds nothing and drops nothing.
pub proof fn lemma_requests_routed_to_answer(state: WorkerState, req: RequestView)
    ensures
        step(state, MessageView::Request(req)) == answer(state, req),
{
}

/// A tab request, whatever its parameters, is handed back with its own id
/// and parameters for them to be read; it changes nothing and is never
/// refused at this point.
pub proof fn lemma_tab_request_handed_back(state: WorkerState, req: RequestView)
    requires
        req.method == "web-browser-lsp/tab"@,
    ensures
        step(state, MessageView::Request(req)) == (
            state,
            ActionView::ReadTabParams { id: req.id, params: req.params },
        ),
{
    reveal_strlit("shutdown");
    reveal_strlit("web-browser-lsp/tab");
    assert(req.method.len() != "shutdown"@.len());
}

/// A notification stops the server exactly when its method is `exit`;
/// every notification leaves the state as it was.
pub proof fn lemma_only_exit_stops(state: WorkerState, n: NotificationView)
    ensures
        step(state, MessageView::Notification(n)).0 == state,
        step(state, MessageView::Notification(n)).1 == (if n.method == "exit"@ {
            ActionView::Exit
        } else {
            ActionView::Continue
        }),
{
}

/// A tab request whose parameters could not be read is refused with
/// code -32602 and the reader's message, and leaves the whole state,
/// tab included, as it was.
pub proof fn lemma_unreadable_tab_params_change_nothing(
    state: WorkerState,
    id: IdView,
    message: Seq<char>,
)
    ensures
        tab_answer(state, id, Err(message)).0 == state,
        tab_answer(state, id, Err(message)).1 == (ResponseView {
            id,
            result: None,
            error: Some(crate::message::ErrorView { code: -32602i32, message }),
        }),
{
}

/// The `exit` notification stops the server and changes nothing else.
pub proof fn lemma_exit_stops(state: WorkerState, n: NotificationView)
    requires
        is_exit(n),
    ensures
        step(state, MessageView::Notification(n)) == (state, ActionView::Exit),
{
}

/// Every notification other than `exit` is ignored: no reply, no change.
pub proof fn lemma_other_notifications_ignored(state: WorkerState, n: NotificationView)
    requires
        !is_exit(n),
    ensures
        step(state, MessageView::Notification(n)) == (state, ActionView::Continue),
{
}

/// Once the client has asked for shutdown, no message takes it back.
pub proof fn lemma_shutdown_stays_requested(state: WorkerState, msg: MessageView)
    requires
        state.shutdown_requested,
    ensures
        step(state, msg).0.shutdown_requested,
{
}

/// A tab request leaves the shutdown flag as it was.
pub proof fn lemma_tab_keeps_shutdown_flag(
    state: WorkerState,
    id: IdView,
    params: Result<(), Seq<char>>,
)
    ensures
        tab_answer(state, id, params).0.shutdown_requested == state.shutdown_requested,
{
}

/// Only a granted `shutdown` request marks the server as shut down.
pub proof fn lemma_only_shutdown_requests(state: WorkerState, msg: MessageView)
    requires
        !state.shutdown_requested,
        step(state, msg).0.shutdown_requested,
    ensures
        msg matches MessageView::Request(req) && is_shutdown(req) && unit_from_json(req.params) is Ok,
{
}

/// A request that is refused (any error response) leaves the state as it was.
pub proof fn lemma_refused_requests_change_nothing(state: WorkerState, req: RequestView)
    requires
        answer(state, req).1 matches ActionView::Reply(r) && r.error is Some,
    ensures
        answer(state, req).0 == state,
{
}

/// Only `shutdown` ever changes the state in `answer`; a tab request
/// changes it once its parameters come back (`tab_answer`).
pub proof fn lemma_only_shutdown_changes_state(state: WorkerState, req: RequestView)
    requires
        !is_shutdown(req),
    ensures
        answer(state, req).0 == state,
{
}

/// Every method other than `shutdown`, the tab request and formatting is
/// answered as an unknown method.
pub proof fn lemma_unknown_methods(state: WorkerState, req: RequestView)
    requires
        !is_shutdown(req),
        !is_tab(req),
        !is_formatting(req),
    ensures
        answer(state, req) == (
            state,
            ActionView::Reply(
                err_response(
                    req.id,
                    error_code_value(ErrorCode::MethodNotFound),
                    "unknown request"@,
                ),
            ),
        ),
{
}

/// Whether a message is a `shutdown` request that the server grants.
pub open spec fn granted_shutdown(msg: MessageView) -> bool {
    msg matches MessageView::Request(req) && is_shutdown(req) && unit_from_json(req.params) is Ok
}

/// The state after the messages `msgs`, taken in order from `state`.
pub open spec fn state_after(state: WorkerState, msgs: Seq<MessageView>) -> WorkerState
    decreases msgs.len(),
{
    if msgs.len() == 0 {
        state
    } else {
        step(state_after(state, msgs.drop_last()), msgs.last()).0
    }
}

/// From a server not yet asked to shut down, after any messages, it is
/// marked as shut down exactly when one of them was a granted `shutdown`
/// request.
pub proof fn lemma_shutdown_exactly_when_granted(start: WorkerState, msgs: Seq<MessageView>)
    requires
        !start.shutdown_requested,
    ensures
        state_after(start, msgs).shutdown_requested <==> exists|i: int|
            0 <= i < msgs.len() && granted_shutdown(#[trigger] msgs[i]),
    decreases msgs.len(),
{
    if msgs.len() > 0 {
        let prefix = msgs.drop_last();
        lemma_shutdown_exactly_when_granted(start, prefix);
        let before = state_after(start, prefix);
        let last = msgs.last();
        if before.shutdown_requested {
            lemma_shutdown_stays_requested(before, last);
            let i = choose|i: int| 0 <= i < prefix.len() && granted_shutdown(#[trigger] prefix[i]);
            assert(msgs[i] == prefix[i]);
        } else if granted_shutdown(last) {
            assert(msgs[msgs.len() - 1] == last);
        } else {
            if step(before, last).0.shutdown_requested {
                lemma_only_shutdown_requests(before, last);
            }
            assert forall|i: int| 0 <= i < msgs.len() implies !granted_shutdown(#[trigger] msgs[i]) by {
                if i < msgs.len() - 1 {
                    assert(msgs[i] == prefix[i]);
                }
            }
        }
    }
}

impl Worker {
    /// A server that has not been asked to shut down and has no tab.
    pub fn new() -> (w: Worker)
        ensures
            w@ == (WorkerState { shutdown_requested: false, tab: None }),
    {
        Worker { shutdown_requested: false, tab: None }
    }

    /// Whether the client has asked the server to shut down.
    pub fn shutdown_requested(&self) -> (b: bool)
        ensures
            b == self@.shutdown_requested,
    {
        self.shutdown_requested
    }

    /// The browser tab, once there is one.
    pub fn tab(&self) -> (t: Option<&BrowserTab>)
        ensures
            match t {
                Some(t) => self@.tab == Some(t@),
                None => self@.tab is None,
            },
    {
        match &self.tab {
            Some(t) => Some(t),
            None => None,
        }
    }

    /// Decides what to do with one message of the client.
    ///
    /// The server has no outstanding request of its own, so a response
    /// from the client is left out: there is nothing it could answer.
    pub fn handle_message(&mut self, msg: Message) -> (action: Action)
        requires
            !(msg is Response),
        ensures
            (final(self)@, action@) == step(old(self)@, msg@),
            msg@ matches MessageView::Request(req) ==> (final(self)@, action@) == answer(
                old(self)@,
                req,
            ),
            msg@ matches MessageView::Request(req) ==> (req.method == "web-browser-lsp/tab"@ ==> (
            final(self)@ == old(self)@ && action@ == ActionView::ReadTabParams {
                id: req.id,
                params: req.params,
            })),
            msg@ matches MessageView::Notification(n) ==> final(self)@ == old(self)@ && (action@
                == ActionView::Exit <==> n.method == "exit"@) && (action@ == ActionView::Exit
                || action@ == ActionView::Continue),
    {
        proof {
            reveal_strlit("shutdown");
            reveal_strlit("web-browser-lsp/tab");
        }
        match msg {
            Message::Request(req) => {
                proof {
                    if req.method@ == "web-browser-lsp/tab"@ {
                        lemma_tab_request_handed_back(old(self)@, req@);
                    }
                }
                self.handle_request(req)
            },
            Message::Notification(notif) => {
                if self.handle_notification(notif) {
                    Action::Exit
                } else {
                    Action::Continue
                }
            },
            Message::Response(_) => Action::Continue,
        }
    }
}

} // verus!
