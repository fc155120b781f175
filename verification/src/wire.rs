//! The calls into serde_json and lsp_types that the server's logic makes.
//!
//! These functions are trusted: their contracts are taken as given, and
//! their bodies are not proved against them.

use vstd::prelude::*;

verus! {

/// Whitespace as JSON defines it: space, tab, line feed, carriage return.
pub open spec fn is_json_whitespace(c: char) -> bool {
    c == ' ' || c == '\t' || c == '\n' || c == '\r'
}

/// Whether every character of `s` is JSON whitespace.
pub open spec fn all_json_whitespace(s: Seq<char>) -> bool {
    forall|i: int| 0 <= i < s.len() ==> is_json_whitespace(#[trigger] s[i])
}

/// Whether the text is the JSON literal `null`, with nothing but JSON
/// whitespace before or after it.
pub open spec fn is_null_json_text(t: Seq<char>) -> bool {
    exists|i: int, j: int|
        0 <= i <= j <= t.len() && all_json_whitespace(#[trigger] t.subrange(0, i))
            && t.subrange(i, j) == "null"@ && all_json_whitespace(#[trigger] t.subrange(
            j,
            t.len() as int,
        ))
}

/// A `null` text holds at least the four letters of `null`.
pub proof fn lemma_null_json_text_len(t: Seq<char>)
    requires
        is_null_json_text(t),
    ensures
        t.len() >= 4,
{
    reveal_strlit("null");
    let (i, j) = choose|i: int, j: int|
        0 <= i <= j <= t.len() && all_json_whitespace(#[trigger] t.subrange(0, i))
            && t.subrange(i, j) == "null"@ && all_json_whitespace(#[trigger] t.subrange(
            j,
            t.len() as int,
        ));
    assert(t.subrange(i, j).len() == 4);
}

/// What `serde_json::from_value::<()>` gives for the JSON value that the
/// text `json` denotes: `Ok(())` when it accepts the value as a unit, or
/// `Err(message)` with the text of the error that serde_json reports.
/// Text that is not JSON at all gives the message of the syntax error.
pub uninterp spec fn unit_from_json(json: Seq<char>) -> Result<(), Seq<char>>;

/// What `serde_json::from_value::<lsp_types::DocumentFormattingParams>`
/// gives for the JSON value that the text `json` denotes: `Ok(())` when it
/// accepts the value, or `Err(message)` with serde_json's error text. Text
/// that is not JSON at all gives the message of the syntax error.
pub uninterp spec fn formatting_params_from_json(json: Seq<char>) -> Result<(), Seq<char>>;

/// The plain-value form of the result of a parameter check.
pub open spec fn check_result_view(res: Result<(), String>) -> Result<(), Seq<char>> {
    match res {
        Ok(()) => Ok(()),
        Err(message) => Err(message@),
    }
}

/// Asks `serde_json::from_value::<()>` for the unit value in request
/// parameters. The library holds the parameters as their JSON text, so the
/// text is first turned back into the `serde_json::Value` it denotes
/// (`serde_json::from_str`); that is the conversion of the argument.
///
/// Trusted: the result is the named `unit_from_json` of the text, and it is
/// `Ok` exactly when the text is `null` with optional JSON whitespace
/// around it (serde_json reads such text, and only such text, as
/// `Value::Null`, and deserializes a unit from `Value::Null` alone). The
/// error messages are left to the name.
#[verifier::external_body]
pub fn parse_unit_params(json: &str) -> (res: Result<(), String>)
    ensures
        check_result_view(res) == unit_from_json(json@),
        res is Ok <==> is_null_json_text(json@),
        json@ == "null"@ ==> res is Ok,
{
    match serde_json::from_str::<serde_json::Value>(json) {
        Ok(value) => match serde_json::from_value::<()>(value) {
            Ok(()) => Ok(()),
            Err(error) => Err(error.to_string()),
        },
        Err(error) => Err(error.to_string()),
    }
}

/// Asks `serde_json::from_value::<lsp_types::DocumentFormattingParams>`
/// whether request parameters are formatting parameters; the JSON text is
/// first turned back into the `serde_json::Value` it denotes.
///
/// Trusted: the result is the named `formatting_params_from_json` of the
/// text; the parameters' values are not handed out.
#[verifier::external_body]
pub fn parse_formatting_params(json: &str) -> (res: Result<(), String>)
    ensures
        check_result_view(res) == formatting_params_from_json(json@),
{
    match serde_json::from_str::<serde_json::Value>(json) {
        Ok(value) => match serde_json::from_value::<lsp_types::DocumentFormattingParams>(value) {
            Ok(_) => Ok(()),
            Err(error) => Err(error.to_string()),
        },
        Err(error) => Err(error.to_string()),
    }
}

/// Serializes the unit value with `serde_json::to_string`.
///
/// Trusted: serde_json writes a unit as `null`, and serializing a unit
/// cannot fail.
#[verifier::external_body]
pub fn unit_to_json() -> (json: String)
    ensures
        json@ == "null"@,
{
    serde_json::to_string(&()).unwrap()
}

/// What `serde_json::to_string` writes for the formatting result
/// `Some(vec![TextEdit { range, new_text }])` of lsp_types, whose range runs
/// from line `start_line`, character `start_character` to line `end_line`,
/// character `end_character`.
pub uninterp spec fn text_edit_json(
    start_line: u32,
    start_character: u32,
    end_line: u32,
    end_character: u32,
    new_text: Seq<char>,
) -> Seq<char>;

/// Serializes a formatting result of one `lsp_types::TextEdit` with
/// `serde_json::to_string`.
///
/// Trusted: the result is the named `text_edit_json` of the arguments;
/// serializing positions and a string cannot fail.
#[verifier::external_body]
pub fn single_text_edit_json(
    start_line: u32,
    start_character: u32,
    end_line: u32,
    end_character: u32,
    new_text: &str,
) -> (json: String)
    ensures
        json@ == text_edit_json(start_line, start_character, end_line, end_character, new_text@),
{
    let start = lsp_types::Position::new(start_line, start_character);
    let end = lsp_types::Position::new(end_line, end_character);
    let edit = lsp_types::TextEdit::new(lsp_types::Range::new(start, end), new_text.to_string());
    serde_json::to_string(&Some(vec![edit])).unwrap()
}

/// The method name of the `shutdown` request, `lsp_types::request::Shutdown::METHOD`.
///
/// Trusted: lsp_types defines it as `"shutdown"`.
#[verifier::external_body]
pub fn shutdown_method() -> (method: &'static str)
    ensures
        method@ == "shutdown"@,
{
    <lsp_types::request::Shutdown as lsp_types::request::Request>::METHOD
}

/// The method name of the formatting request, `lsp_types::request::Formatting::METHOD`.
///
/// Trusted: lsp_types defines it as `"textDocument/formatting"`.
#[verifier::external_body]
pub fn formatting_method() -> (method: &'static str)
    ensures
        method@ == "textDocument/formatting"@,
{
    <lsp_types::request::Formatting as lsp_types::request::Request>::METHOD
}

/// The method name of the `exit` notification, `lsp_types::notification::Exit::METHOD`.
///
/// Trusted: lsp_types defines it as `"exit"`.
#[verifier::external_body]
pub fn exit_method() -> (method: &'static str)
    ensures
        method@ == "exit"@,
{
    <lsp_types::notification::Exit as lsp_types::notification::Notification>::METHOD
}

} // verus!
