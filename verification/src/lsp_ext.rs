//! The protocol extensions of the browser.

use vstd::prelude::*;

verus! {

/// The request that opens a browser tab. It only names the request.
pub struct Tab {}

impl Tab {
    /// The method name of the request.
    pub const METHOD: &'static str = "web-browser-lsp/tab";
}

/// The parameters of the tab request: none so far.
pub struct TabParams {}

} // verus!
