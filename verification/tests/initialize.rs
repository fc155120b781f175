use web_browser_lsp::capabilities::{
    server_info, ClientCapabilities, InitializeParams, ServerCapabilities,
};
use web_browser_lsp::lsp_ext::{Tab, TabParams};
use web_browser_lsp::server::{server_capabilities, BrowserServer};
use web_browser_lsp::worker::lsp::{initialize_result, supports_utf8};
use web_browser_lsp::worker::Worker;

fn caps(list: Option<Vec<&str>>) -> ClientCapabilities {
    ClientCapabilities { offset_encoding: list.map(|l| l.into_iter().map(String::from).collect()) }
}

fn advertises_nothing(c: &ServerCapabilities) -> bool {
    !(c.text_document_sync
        || c.selection_range_provider
        || c.hover_provider
        || c.completion_provider
        || c.signature_help_provider
        || c.definition_provider
        || c.type_definition_provider
        || c.implementation_provider
        || c.references_provider
        || c.document_highlight_provider
        || c.document_symbol_provider
        || c.workspace_symbol_provider
        || c.code_action_provider
        || c.code_lens_provider
        || c.document_formatting_provider
        || c.document_range_formatting_provider
        || c.document_on_type_formatting_provider
        || c.rename_provider
        || c.document_link_provider
        || c.color_provider
        || c.folding_range_provider
        || c.declaration_provider
        || c.execute_command_provider
        || c.workspace
        || c.call_hierarchy_provider
        || c.semantic_tokens_provider
        || c.moniker_provider
        || c.linked_editing_range_provider
        || c.experimental)
}

#[test]
fn utf8_offered() {
    assert!(supports_utf8(&caps(Some(vec!["utf-8"]))));
    assert!(supports_utf8(&caps(Some(vec!["utf-16", "utf-8"]))));
}

#[test]
fn utf8_not_offered() {
    assert!(!supports_utf8(&caps(None)));
    assert!(!supports_utf8(&caps(Some(vec![]))));
    assert!(!supports_utf8(&caps(Some(vec!["utf-16", "UTF-8", "utf8"]))));
}

#[test]
fn no_capability_advertised() {
    assert!(advertises_nothing(&server_capabilities(&caps(None))));
    assert!(advertises_nothing(&server_capabilities(&caps(Some(vec!["utf-8"])))));
}

#[test]
fn initialize_picks_utf8_when_offered() {
    let params = InitializeParams { capabilities: caps(Some(vec!["utf-32", "utf-8"])) };
    let result = initialize_result(&params);
    assert_eq!(result.offset_encoding.as_deref(), Some("utf-8"));
    let server_info = result.server_info.unwrap();
    assert_eq!(server_info.name, "web-browser-lsp");
    assert_eq!(server_info.version.as_deref(), Some("0.1.0"));
    assert!(advertises_nothing(&result.capabilities));
}

#[test]
fn initialize_without_utf8() {
    let params = InitializeParams { capabilities: caps(Some(vec!["utf-16"])) };
    let result = Worker::new().initialize(&params);
    assert_eq!(result.offset_encoding, None);
    let params = InitializeParams { capabilities: caps(None) };
    let result = BrowserServer::new().initialize(&params);
    assert_eq!(result.offset_encoding, None);
    assert!(result.server_info.is_some());
}

#[test]
fn tab_request_method() {
    assert_eq!(Tab::METHOD, "web-browser-lsp/tab");
    let _params = TabParams {};
}

#[test]
fn server_reports_its_name_and_version() {
    let info = server_info();
    assert_eq!(info.name, "web-browser-lsp");
    assert_eq!(info.version.as_deref(), Some("0.1.0"));
}
