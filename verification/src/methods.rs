//! LSP method names as `gen-lsp-types` classifies them, and the JSON-RPC
//! error codes that `lsp-server` defines.
use vstd::prelude::*;

verus! {

/// The requests that the server answers.
pub enum RequestKind {
    CodeLens,
    CodeLensResolve,
    Other,
}

/// The notifications that change the stored documents.
pub enum NotificationKind {
    DidOpen,
    DidChange,
    DidClose,
    Other,
}

/// `gen_lsp_types::LspRequestMethod::from`, which maps each method name of
/// the protocol to its variant (and any other name to `Custom`). The contract
/// claims what its `match` shows for the two variants used here.
#[verifier::external_body]
pub(crate) fn request_kind(method: &str) -> (kind: RequestKind)
    ensures
        kind is CodeLens <==> method@ == "textDocument/codeLens"@,
        kind is CodeLensResolve <==> method@ == "codeLens/resolve"@,
{
    match gen_lsp_types::LspRequestMethod::from(method) {
        gen_lsp_types::LspRequestMethod::TextDocumentCodeLens => RequestKind::CodeLens,
        gen_lsp_types::LspRequestMethod::CodeLensResolve => RequestKind::CodeLensResolve,
        _ => RequestKind::Other,
    }
}

/// `gen_lsp_types::LspNotificationMethod::from`, with the contract that its
/// `match` shows for the three variants used here.
#[verifier::external_body]
pub(crate) fn notification_kind(method: &str) -> (kind: NotificationKind)
    ensures
        kind is DidOpen <==> method@ == "textDocument/didOpen"@,
        kind is DidChange <==> method@ == "textDocument/didChange"@,
        kind is DidClose <==> method@ == "textDocument/didClose"@,
{
    match gen_lsp_types::LspNotificationMethod::from(method) {
        gen_lsp_types::LspNotificationMethod::TextDocumentDidOpen => NotificationKind::DidOpen,
        gen_lsp_types::LspNotificationMethod::TextDocumentDidChange => NotificationKind::DidChange,
        gen_lsp_types::LspNotificationMethod::TextDocumentDidClose => NotificationKind::DidClose,
        _ => NotificationKind::Other,
    }
}

/// The number of `lsp_server::ErrorCode::MethodNotFound`, which the crate
/// declares as `-32601`.
#[verifier::external_body]
pub(crate) fn method_not_found_code() -> (code: i32)
    ensures
        code == -32601,
{
    lsp_server::ErrorCode::MethodNotFound as i32
}

/// The number of `lsp_server::ErrorCode::InvalidParams`, which the crate
/// declares as `-32602`.
#[verifier::external_body]
pub(crate) fn invalid_params_code() -> (code: i32)
    ensures
        code == -32602,
{
    lsp_server::ErrorCode::InvalidParams as i32
}

} // verus!
