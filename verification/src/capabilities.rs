//! What the two sides tell each other at initialization, as plain values.

use vstd::prelude::*;

verus! {

/// What the client declares it can do, as far as the server reads it.
pub struct ClientCapabilities {
    /// The position encodings the client offers (the `offsetEncoding`
    /// extension), when it sends the list.
    pub offset_encoding: Option<Vec<String>>,
}

/// The parameters of the `initialize` request, as far as the server reads them.
pub struct InitializeParams {
    pub capabilities: ClientCapabilities,
}

/// What the client offers as position encodings: the empty sequence when
/// it sends no list.
pub open spec fn offered_encodings(caps: ClientCapabilities) -> Seq<Seq<char>> {
    match caps.offset_encoding {
        Some(list) => list@.map_values(|e: String| e@),
        None => Seq::empty(),
    }
}

/// Whether the client offers UTF-8 offsets.
pub open spec fn offers_utf8(caps: ClientCapabilities) -> bool {
    offered_encodings(caps).contains("utf-8"@)
}

/// The client offers UTF-8 offsets exactly when `utf-8` stands somewhere
/// in its list of encodings, at any position.
pub proof fn lemma_offers_utf8_is_membership(caps: ClientCapabilities)
    ensures
        offers_utf8(caps) <==> (caps.offset_encoding matches Some(list) && exists|i: int|
            0 <= i < list@.len() && #[trigger] list@[i]@ == "utf-8"@),
{
    match caps.offset_encoding {
        Some(list) => {
            let offered = offered_encodings(caps);
            if offers_utf8(caps) {
                let k = choose|k: int| 0 <= k < offered.len() && offered[k] == "utf-8"@;
                assert(list@[k]@ == "utf-8"@);
            }
            if exists|i: int| 0 <= i < list@.len() && #[trigger] list@[i]@ == "utf-8"@ {
                let i = choose|i: int| 0 <= i < list@.len() && #[trigger] list@[i]@ == "utf-8"@;
                assert(offered[i] == "utf-8"@);
            }
        },
        None => {},
    }
}

/// The features the server advertises: one flag per field of the
/// protocol's server capabilities, set when the server provides it.
pub struct ServerCapabilities {
    pub text_document_sync: bool,
    pub selection_range_provider: bool,
    pub hover_provider: bool,
    pub completion_provider: bool,
    pub signature_help_provider: bool,
    pub definition_provider: bool,
    pub type_definition_provider: bool,
    pub implementation_provider: bool,
    pub references_provider: bool,
    pub document_highlight_provider: bool,
    pub document_symbol_provider: bool,
    pub workspace_symbol_provider: bool,
    pub code_action_provider: bool,
    pub code_lens_provider: bool,
    pub document_formatting_provider: bool,
    pub document_range_formatting_provider: bool,
    pub document_on_type_formatting_provider: bool,
    pub rename_provider: bool,
    pub document_link_provider: bool,
    pub color_provider: bool,
    pub folding_range_provider: bool,
    pub declaration_provider: bool,
    pub execute_command_provider: bool,
    pub workspace: bool,
    pub call_hierarchy_provider: bool,
    pub semantic_tokens_provider: bool,
    pub moniker_provider: bool,
    pub linked_editing_range_provider: bool,
    pub experimental: bool,
}

impl ServerCapabilities {
    /// The server provides none of the features.
    pub open spec fn advertises_nothing(self) -> bool {
        &&& !self.text_document_sync
        &&& !self.selection_range_provider
        &&& !self.hover_provider
        &&& !self.completion_provider
        &&& !self.signature_help_provider
        &&& !self.definition_provider
        &&& !self.type_definition_provider
        &&& !self.implementation_provider
        &&& !self.references_provider
        &&& !self.document_highlight_provider
        &&& !self.document_symbol_provider
        &&& !self.workspace_symbol_provider
        &&& !self.code_action_provider
        &&& !self.code_lens_provider
        &&& !self.document_formatting_provider
        &&& !self.document_range_formatting_provider
        &&& !self.document_on_type_formatting_provider
        &&& !self.rename_provider
        &&& !self.document_link_provider
        &&& !self.color_provider
        &&& !self.folding_range_provider
        &&& !self.declaration_provider
        &&& !self.execute_command_provider
        &&& !self.workspace
        &&& !self.call_hierarchy_provider
        &&& !self.semantic_tokens_provider
        &&& !self.moniker_provider
        &&& !self.linked_editing_range_provider
        &&& !self.experimental
    }
}

/// The name and version that the server reports of itself.
pub struct ServerInfo {
    pub name: String,
    pub version: Option<String>,
}

/// The name the server reports of itself.
pub const SERVER_NAME: &'static str = "web-browser-lsp";

/// The version the server reports of itself.
pub const SERVER_VERSION: &'static str = "0.1.0";

/// The name and version that the server reports of itself.
pub open spec fn is_server_info(info: ServerInfo) -> bool {
    &&& info.name@ == "web-browser-lsp"@
    &&& info.version matches Some(v) && v@ == "0.1.0"@
}

/// This server's name and version.
pub fn server_info() -> (info: ServerInfo)
    ensures
        is_server_info(info),
{
    ServerInfo { name: SERVER_NAME.to_owned(), version: Some(SERVER_VERSION.to_owned()) }
}

/// The answer to the `initialize` request.
pub struct InitializeResult {
    pub capabilities: ServerCapabilities,
    pub server_info: Option<ServerInfo>,
    /// The position encoding the server picks (the `offsetEncoding` extension).
    pub offset_encoding: Option<String>,
}

} // verus!
