//! The requests that the server answers: `textDocument/codeLens` and
//! `codeLens/resolve`.
use crate::analyzer::{AnalysisResult, Analyzer};
use crate::capabilities::code_lens::{
    create_codelens, duplicate_lens, is_created_lens, is_resolution, lemma_resolution_of_same_lens,
    resolve_codelens, LensData,
};
use crate::document_storage::{lookup, DocumentStorage};
use crate::lsp::CodeLens;
use crate::methods::{invalid_params_code, method_not_found_code, request_kind, RequestKind};
use crate::notification::{notification_outcome, NotificationParams};
use vstd::prelude::*;

verus! {

/// The parameters of `textDocument/codeLens`: the document's URI.
pub struct CodeLensParams {
    pub uri: String,
}

/// A request's parameters read as each of the shapes the server may need:
/// each is `None` when they do not have that shape.
pub struct RequestParams {
    pub code_lens: Option<CodeLensParams>,
    pub code_lens_resolve: Option<CodeLens<LensData>>,
}

/// A request from the client: its method and its parameters.
pub struct Request {
    pub method: String,
    pub params: RequestParams,
}

/// The result that a successful response carries.
pub enum ResponseResult {
    CodeLenses(Vec<CodeLens<LensData>>),
    CodeLens(CodeLens<LensData>),
}

/// The error that a failed response carries.
pub struct ResponseError {
    pub code: i32,
    pub message: String,
}

/// The response to a request: a result or an error.
pub struct Response {
    pub result: Option<ResponseResult>,
    pub error: Option<ResponseError>,
}

/// What comes of handling a request: a response to send, or the analysis of
/// a document that the response needs.
pub enum RequestStep {
    Respond(Response),
    Analyze { uri: String, content: String },
}

pub open spec fn code_lens_method() -> Seq<char> {
    "textDocument/codeLens"@
}

pub open spec fn resolve_method() -> Seq<char> {
    "codeLens/resolve"@
}

/// A request fails when its parameters do not fit its method.
pub open spec fn request_fails(method: Seq<char>, params: RequestParams) -> bool {
    ||| method == code_lens_method() && params.code_lens is None
    ||| method == resolve_method() && params.code_lens_resolve is None
}

/// The text to analyse for a lens request: that of the open document it
/// names.
pub open spec fn code_lens_content(
    docs: Map<Seq<char>, Seq<char>>,
    method: Seq<char>,
    params: RequestParams,
) -> Option<Seq<char>> {
    if method == code_lens_method() {
        match params.code_lens {
            Some(p) => lookup(docs, p.uri@),
            None => None,
        }
    } else {
        None
    }
}

/// A successful response with the given result.
pub open spec fn is_success(resp: Response) -> bool {
    resp.error is None && resp.result is Some
}

/// The response to a request for an unknown method.
pub open spec fn is_unknown_method_response(resp: Response, method: Seq<char>) -> bool {
    &&& resp.result is None
    &&& resp.error matches Some(e) && e.code == -32601 && e.message@ == "unhandled method: "@
        + method
}

/// The response to a request whose parameters do not fit its method.
pub open spec fn is_invalid_params_response(resp: Response, method: Seq<char>) -> bool {
    &&& resp.result is None
    &&& resp.error matches Some(e) && e.code == -32602 && e.message@ == "invalid params for "@
        + method
}

/// The handling of a request.
pub trait RequestHandle {
    fn handle(&self) -> RequestStep;
}

/// A request bound to the documents and the analyzer it needs.
pub struct UnityRequest<'a> {
    request: &'a Request,
    docs: &'a DocumentStorage,
    analyzer: &'a Analyzer,
}

impl<'a> UnityRequest<'a> {
    pub fn new(request: &'a Request, docs: &'a DocumentStorage, analyzer: &'a Analyzer) -> (r: Self)
        ensures
            r.request() == request,
            r.documents() == docs,
            r.analyzer() == analyzer,
    {
        UnityRequest { request, docs, analyzer }
    }

    pub closed spec fn request(&self) -> &'a Request {
        self.request
    }

    pub closed spec fn documents(&self) -> &'a DocumentStorage {
        self.docs
    }

    pub closed spec fn analyzer(&self) -> &'a Analyzer {
        self.analyzer
    }

    /// The analyzer that the lens request's analysis uses.
    pub fn analyzer_ref(&self) -> (a: &'a Analyzer)
        ensures
            a == self.analyzer(),
    {
        self.analyzer
    }

    /// The response to a lens request once its document is analysed: the
    /// lenses made of the analysis.
    pub fn code_lens_response(&self, analysis: AnalysisResult) -> (resp: Response)
        ensures
            resp.error is None,
            resp.result matches Some(ResponseResult::CodeLenses(lenses)) && lenses@.len() == 1
                && is_created_lens(lenses@[0], analysis),
    {
        Response { result: Some(ResponseResult::CodeLenses(create_codelens(analysis))), error: None }
    }
}

impl<'a> RequestHandle for UnityRequest<'a> {
    /// Handles the request: a lens request for an open document asks for its
    /// analysis, one for another document is answered with no lenses; a
    /// resolve request is answered with the resolved lens; a request whose
    /// parameters do not fit its method is answered with the JSON-RPC error
    /// `InvalidParams`, and any other method with `MethodNotFound`.
    fn handle(&self) -> (step: RequestStep)
        ensures
            request_fails(self.request().method@, self.request().params) ==> (step matches
                RequestStep::Respond(resp) && is_invalid_params_response(
                resp,
                self.request().method@,
            )),
            match code_lens_content(
                self.documents()@,
                self.request().method@,
                self.request().params,
            ) {
                Some(content) => step matches RequestStep::Analyze { uri, content: c } && c@
                    == content && uri@ == self.request().params.code_lens->0.uri@,
                None => !(step matches RequestStep::Analyze { .. }),
            },
            self.request().method@ == code_lens_method() && self.request().params.code_lens is Some
                && code_lens_content(
                self.documents()@,
                self.request().method@,
                self.request().params,
            ) is None ==> (step matches RequestStep::Respond(resp) && is_success(resp)
                && (resp.result matches Some(ResponseResult::CodeLenses(lenses)) && lenses@.len()
                == 0)),
            self.request().method@ == resolve_method() && self.request().params.code_lens_resolve
                is Some ==> (step matches RequestStep::Respond(resp) && is_success(resp)
                && (resp.result matches Some(ResponseResult::CodeLens(lens)) && is_resolution(
                lens,
                self.request().params.code_lens_resolve->0,
            ))),
            self.request().method@ != code_lens_method() && self.request().method@
                != resolve_method() ==> (step matches RequestStep::Respond(resp)
                && is_unknown_method_response(resp, self.request().method@)),
    {
        let request = self.request;
        match request_kind(request.method.as_str()) {
            RequestKind::CodeLens => match &request.params.code_lens {
                Some(p) => match self.docs.get(p.uri.as_str()) {
                    Some(content) => RequestStep::Analyze {
                        uri: p.uri.clone(),
                        content: content.to_owned(),
                    },
                    None => {
                        let lenses: Vec<CodeLens<LensData>> = Vec::new();
                        RequestStep::Respond(
                            Response { result: Some(ResponseResult::CodeLenses(lenses)), error: None },
                        )
                    },
                },
                None => invalid_params(request.method.as_str()),
            },
            RequestKind::CodeLensResolve => match &request.params.code_lens_resolve {
                Some(lens) => {
                    let copy = duplicate_lens(lens);
                    let resolved = resolve_codelens(copy);
                    proof {
                        lemma_resolution_of_same_lens(resolved, copy, *lens);
                    }
                    RequestStep::Respond(
                        Response { result: Some(ResponseResult::CodeLens(resolved)), error: None },
                    )
                },
                None => invalid_params(request.method.as_str()),
            },
            RequestKind::Other => {
                let mut message = String::from_str("unhandled method: ");
                message.append(request.method.as_str());
                RequestStep::Respond(
                    Response {
                        result: None,
                        error: Some(ResponseError { code: method_not_found_code(), message }),
                    },
                )
            },
        }
    }
}

/// The `InvalidParams` response for a request of the given method.
fn invalid_params(method: &str) -> (step: RequestStep)
    ensures
        step matches RequestStep::Respond(resp) && is_invalid_params_response(resp, method@),
{
    let mut message = String::from_str("invalid params for ");
    message.append(method);
    RequestStep::Respond(
        Response { result: None, error: Some(ResponseError { code: invalid_params_code(), message }) },
    )
}

/// After a document is opened, a lens request for it asks to analyse the
/// text it was opened with.
pub proof fn lemma_code_lens_after_open(
    docs: Map<Seq<char>, Seq<char>>,
    open: NotificationParams,
    request: RequestParams,
)
    requires
        open.did_open is Some,
        request.code_lens is Some,
        request.code_lens->0.uri@ == open.did_open->0.uri@,
    ensures
        notification_outcome(docs, "textDocument/didOpen"@, open) matches Some(opened)
            && code_lens_content(opened, code_lens_method(), request) == Some(
            open.did_open->0.text@,
        ),
{
}

/// After a document is changed to a new whole text, a lens request for it
/// asks to analyse the new text.
pub proof fn lemma_code_lens_after_change(
    docs: Map<Seq<char>, Seq<char>>,
    change: NotificationParams,
    request: RequestParams,
)
    requires
        change.did_change is Some,
        change.did_change->0.content_changes@.len() > 0,
        change.did_change->0.content_changes@[0] is WholeDocument,
        request.code_lens is Some,
        request.code_lens->0.uri@ == change.did_change->0.uri@,
    ensures
        notification_outcome(docs, "textDocument/didChange"@, change) matches Some(changed)
            && code_lens_content(changed, code_lens_method(), request) == Some(
            change.did_change->0.content_changes@[0]->text@,
        ),
{
    reveal_strlit("textDocument/didOpen");
    reveal_strlit("textDocument/didChange");
    assert("textDocument/didOpen"@.len() != "textDocument/didChange"@.len());
}

/// After a document is closed, a lens request for it finds no text, and is
/// answered with no lenses.
pub proof fn lemma_code_lens_after_close(
    docs: Map<Seq<char>, Seq<char>>,
    close: NotificationParams,
    request: RequestParams,
)
    requires
        close.did_close is Some,
        request.code_lens is Some,
        request.code_lens->0.uri@ == close.did_close->0.uri@,
    ensures
        notification_outcome(docs, "textDocument/didClose"@, close) matches Some(closed)
            && code_lens_content(closed, code_lens_method(), request) is None,
{
    reveal_strlit("textDocument/didOpen");
    reveal_strlit("textDocument/didChange");
    reveal_strlit("textDocument/didClose");
    assert("textDocument/didOpen"@.len() != "textDocument/didClose"@.len());
    assert("textDocument/didChange"@.len() != "textDocument/didClose"@.len());
}

/// A notification of any other method leaves the documents as they were.
pub proof fn lemma_other_notifications_keep_documents(
    docs: Map<Seq<char>, Seq<char>>,
    method: Seq<char>,
    params: NotificationParams,
)
    requires
        method != "textDocument/didOpen"@,
        method != "textDocument/didChange"@,
        method != "textDocument/didClose"@,
    ensures
        notification_outcome(docs, method, params) == Some(docs),
{
}

} // verus!
