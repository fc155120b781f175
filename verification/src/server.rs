//! A browser server that answers `initialize` and serves nothing else yet.

pub use crate::worker::lsp::server_capabilities;

use vstd::prelude::*;
use crate::capabilities::{is_server_info, offers_utf8, InitializeParams, InitializeResult};
use crate::worker::lsp::initialize_result;

verus! {

#[derive(Debug)]
pub struct BrowserServer {}

impl BrowserServer {
    pub fn new() -> (s: BrowserServer)
        ensures
            s == (BrowserServer {}),
    {
        BrowserServer {}
    }

    /// The answer to `initialize`: no advertised feature, this server's
    /// name and version, and UTF-8 offsets when the client offers them.
    pub fn initialize(&self, params: &InitializeParams) -> (res: InitializeResult)
        ensures
            res.capabilities.advertises_nothing(),
            res.server_info matches Some(info) && is_server_info(info),
            res.offset_encoding is Some <==> offers_utf8(params.capabilities),
            res.offset_encoding matches Some(e) ==> e@ == "utf-8"@,
    {
        initialize_result(params)
    }
}

} // verus!
