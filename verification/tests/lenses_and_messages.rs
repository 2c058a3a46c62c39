use unity_ls::analyzer::{AnalysisResult, Analyzer, ScriptReference};
use unity_ls::asset_detector::ScriptReference as DetectedReference;
use unity_ls::capabilities::code_lens::{create_codelens, reference_title_text, resolve_codelens};
use unity_ls::codelens;
use unity_ls::document_storage::DocumentStorage;
use unity_ls::lsp::{line_range, CodeLens};
use unity_ls::notification::{
    apply_notification, ContentChange, DidChangeParams, DidCloseParams, DidOpenParams, Notification,
    NotificationError, NotificationHandle, NotificationParams, UnityNotification,
};
use unity_ls::request::{
    CodeLensParams, Request, RequestHandle, RequestParams, RequestStep, ResponseResult, UnityRequest,
};

fn reference(path: &str, line: u32) -> ScriptReference {
    ScriptReference { file_path: path.to_string(), line_number: line }
}

fn no_params() -> NotificationParams {
    NotificationParams { did_open: None, did_change: None, did_close: None }
}

fn notify(docs: &mut DocumentStorage, method: &str, params: NotificationParams) -> Result<(), NotificationError> {
    let n = Notification { method: method.to_string(), params };
    let mut handler = UnityNotification::new(&n, docs);
    handler.handle()
}

fn ask(docs: &DocumentStorage, method: &str, params: RequestParams) -> RequestStep {
    let analyzer = Analyzer::try_new("file:///project").unwrap();
    let request = Request { method: method.to_string(), params };
    let handler = UnityRequest::new(&request, docs, &analyzer);
    handler.handle()
}

fn lens_params(uri: &str) -> RequestParams {
    RequestParams { code_lens: Some(CodeLensParams { uri: uri.to_string() }), code_lens_resolve: None }
}

#[test]
fn titles_count_references() {
    assert_eq!(reference_title_text(0), "0 Unity references");
    assert_eq!(reference_title_text(1), "1 Unity reference");
    assert_eq!(reference_title_text(2), "2 Unity references");
    assert_eq!(reference_title_text(11), "11 Unity references");
}

#[test]
fn created_lens_sits_on_class_line() {
    let lenses = create_codelens(AnalysisResult { asset_references: vec![reference("/a.unity", 3)], class_line: Some(5) });
    assert_eq!(lenses.len(), 1);
    assert_eq!((lenses[0].range.start.line, lenses[0].range.start.character), (5, 0));
    assert_eq!((lenses[0].range.end.line, lenses[0].range.end.character), (5, 1));
    assert!(lenses[0].command.is_none());
    assert_eq!(lenses[0].data.as_ref().unwrap().len(), 1);
    let top = create_codelens(AnalysisResult { asset_references: vec![], class_line: None });
    assert_eq!(top[0].range.start.line, 0);
}

#[test]
fn resolve_lists_file_locations() {
    let lens = CodeLens {
        range: line_range(4),
        command: None,
        data: Some(vec![reference("/p/Assets/A.unity", 2), reference("relative/B.unity", 9), reference("/p/Assets/C D.prefab", 0)]),
    };
    let resolved = resolve_codelens(lens);
    assert!(resolved.data.is_none());
    assert_eq!(resolved.range.start.line, 4);
    let cmd = resolved.command.unwrap();
    assert_eq!(cmd.command, "showUnityReferences");
    assert_eq!(cmd.title, "2 Unity references");
    let locs: Vec<(String, u32, u32, u32)> = cmd
        .locations
        .iter()
        .map(|l| (l.uri.clone(), l.range.start.line, l.range.start.character, l.range.end.character))
        .collect();
    assert_eq!(
        locs,
        vec![("file:///p/Assets/A.unity".to_string(), 2, 0, 1), ("file:///p/Assets/C%20D.prefab".to_string(), 0, 0, 1)]
    );
}

#[test]
fn resolve_of_found_references_lists_them_all() {
    let analyzer = Analyzer::try_new("file:///p").unwrap();
    let files = vec![unity_ls::analyzer::AssetFile {
        path: "/p/Assets/S.prefab".to_string(),
        file_name: "S.prefab".to_string(),
        content: Some("x\n  m_Script: {fileID: 11500000, guid: abc123, type: 3}\n".to_string()),
    }];
    let refs = analyzer.find_asset_references(&files, "abc123");
    let lens = create_codelens(AnalysisResult { asset_references: refs, class_line: Some(0) }).pop().unwrap();
    let cmd = resolve_codelens(lens).command.unwrap();
    assert_eq!(cmd.title, "1 Unity reference");
    assert_eq!(cmd.locations[0].uri, "file:///p/Assets/S.prefab");
    assert_eq!(cmd.locations[0].range.start.line, 1);
}

#[test]
fn resolve_without_data_keeps_lens() {
    let lens: CodeLens<Vec<ScriptReference>> = CodeLens { range: line_range(2), command: None, data: None };
    let resolved = resolve_codelens(lens);
    assert!(resolved.command.is_none());
    assert!(resolved.data.is_none());
    assert_eq!(resolved.range.start.line, 2);
}

#[test]
fn resolve_twice_changes_nothing() {
    let lens = CodeLens { range: line_range(1), command: None, data: Some(vec![reference("/x.unity", 0)]) };
    let once = resolve_codelens(lens);
    let title = once.command.as_ref().unwrap().title.clone();
    let twice = resolve_codelens(once);
    assert_eq!(twice.command.unwrap().title, title);
    assert!(twice.data.is_none());
}

#[test]
fn file_lens_uses_file_urls() {
    let analysis = AnalysisResult { asset_references: vec![reference("/p/A.unity", 2), reference("relative/B.unity", 3)], class_line: Some(1) };
    let lenses = codelens::create_codelens(analysis, "file:///p/S.cs".to_string());
    assert_eq!(lenses.len(), 1);
    assert_eq!(lenses[0].data.as_ref().unwrap().uri, "file:///p/S.cs");
    let lens = CodeLens { range: lenses[0].range, command: None, data: Some(codelens::CodeLensData {
        uri: "file:///p/S.cs".to_string(),
        asset_references: vec![
            DetectedReference { file_path: "/p/A.unity".to_string(), line_number: 2 },
            DetectedReference { file_path: "relative/B.unity".to_string(), line_number: 3 },
            DetectedReference { file_path: "/p/with space.prefab".to_string(), line_number: 4 },
        ],
    }) };
    let cmd = codelens::resolve_codelens(lens).command.unwrap();
    assert_eq!(cmd.title, "2 Unity references");
    assert_eq!(cmd.locations[0].uri, "file:///p/A.unity");
    assert_eq!(cmd.locations[1].uri, "file:///p/with%20space.prefab");
    assert_eq!(cmd.locations[1].range.start.line, 4);
}

#[test]
fn notifications_update_documents() {
    let mut docs = DocumentStorage::new();
    let open = NotificationParams { did_open: Some(DidOpenParams { uri: "file:///a.cs".to_string(), text: "v1".to_string() }), ..no_params() };
    assert!(notify(&mut docs, "textDocument/didOpen", open).is_ok());
    assert_eq!(docs.get("file:///a.cs"), Some("v1"));

    let partial = NotificationParams { did_change: Some(DidChangeParams { uri: "file:///a.cs".to_string(), content_changes: vec![ContentChange::Partial, ContentChange::WholeDocument { text: "ignored".to_string() }] }), ..no_params() };
    assert!(notify(&mut docs, "textDocument/didChange", partial).is_ok());
    assert_eq!(docs.get("file:///a.cs"), Some("v1"));

    let whole = NotificationParams { did_change: Some(DidChangeParams { uri: "file:///a.cs".to_string(), content_changes: vec![ContentChange::WholeDocument { text: "v2".to_string() }, ContentChange::Partial] }), ..no_params() };
    assert!(notify(&mut docs, "textDocument/didChange", whole).is_ok());
    assert_eq!(docs.get("file:///a.cs"), Some("v2"));

    let empty = NotificationParams { did_change: Some(DidChangeParams { uri: "file:///a.cs".to_string(), content_changes: vec![] }), ..no_params() };
    assert!(notify(&mut docs, "textDocument/didChange", empty).is_ok());
    assert_eq!(docs.get("file:///a.cs"), Some("v2"));

    assert!(notify(&mut docs, "textDocument/didSave", no_params()).is_ok());
    assert_eq!(docs.get("file:///a.cs"), Some("v2"));

    let close = NotificationParams { did_close: Some(DidCloseParams { uri: "file:///a.cs".to_string() }), ..no_params() };
    assert!(notify(&mut docs, "textDocument/didClose", close).is_ok());
    assert_eq!(docs.get("file:///a.cs"), None);
}

#[test]
fn notification_with_wrong_params_fails_and_keeps_documents() {
    let mut docs = DocumentStorage::new();
    docs.open("file:///a.cs".to_string(), "text".to_string());
    assert!(matches!(notify(&mut docs, "textDocument/didOpen", no_params()), Err(NotificationError::InvalidParams)));
    assert!(matches!(notify(&mut docs, "textDocument/didChange", no_params()), Err(NotificationError::InvalidParams)));
    assert!(matches!(notify(&mut docs, "textDocument/didClose", no_params()), Err(NotificationError::InvalidParams)));
    assert_eq!(docs.get("file:///a.cs"), Some("text"));
}

#[test]
fn code_lens_request_after_open_analyzes_text() {
    let mut docs = DocumentStorage::new();
    let open = NotificationParams { did_open: Some(DidOpenParams { uri: "file:///a.cs".to_string(), text: "class A {}".to_string() }), ..no_params() };
    notify(&mut docs, "textDocument/didOpen", open).unwrap();
    match ask(&docs, "textDocument/codeLens", lens_params("file:///a.cs")) {
        RequestStep::Analyze { uri, content } => {
            assert_eq!(uri, "file:///a.cs");
            assert_eq!(content, "class A {}");
        }
        _ => panic!("expected an analysis step"),
    }
}

#[test]
fn code_lens_request_for_closed_document_has_no_lenses() {
    let docs = DocumentStorage::new();
    match ask(&docs, "textDocument/codeLens", lens_params("file:///a.cs")) {
        RequestStep::Respond(resp) => {
            assert!(resp.error.is_none());
            assert!(matches!(resp.result, Some(ResponseResult::CodeLenses(ref l)) if l.is_empty()));
        }
        _ => panic!("expected a response"),
    }
}

#[test]
fn code_lens_response_after_analysis() {
    let docs = DocumentStorage::new();
    let analyzer = Analyzer::try_new("file:///project").unwrap();
    let request = Request { method: "textDocument/codeLens".to_string(), params: lens_params("file:///a.cs") };
    let handler = UnityRequest::new(&request, &docs, &analyzer);
    let resp = handler.code_lens_response(AnalysisResult { asset_references: vec![reference("/x.unity", 1)], class_line: Some(8) });
    match resp.result {
        Some(ResponseResult::CodeLenses(lenses)) => {
            assert_eq!(lenses.len(), 1);
            assert_eq!(lenses[0].range.start.line, 8);
        }
        _ => panic!("expected lenses"),
    }
}

#[test]
fn resolve_request_answers_resolved_lens() {
    let docs = DocumentStorage::new();
    let params = RequestParams {
        code_lens: None,
        code_lens_resolve: Some(CodeLens { range: line_range(3), command: None, data: Some(vec![reference("/x.unity", 1)]) }),
    };
    match ask(&docs, "codeLens/resolve", params) {
        RequestStep::Respond(resp) => match resp.result {
            Some(ResponseResult::CodeLens(lens)) => assert_eq!(lens.command.unwrap().title, "1 Unity reference"),
            _ => panic!("expected a lens"),
        },
        _ => panic!("expected a response"),
    }
}

#[test]
fn unknown_method_is_method_not_found() {
    let docs = DocumentStorage::new();
    let params = RequestParams { code_lens: None, code_lens_resolve: None };
    match ask(&docs, "textDocument/hover", params) {
        RequestStep::Respond(resp) => {
            assert!(resp.result.is_none());
            let err = resp.error.unwrap();
            assert_eq!(err.code, -32601);
            assert_eq!(err.message, "unhandled method: textDocument/hover");
        }
        _ => panic!("expected an error response"),
    }
}

#[test]
fn requests_with_wrong_params_get_invalid_params() {
    let docs = DocumentStorage::new();
    let none = || RequestParams { code_lens: None, code_lens_resolve: None };
    for method in ["textDocument/codeLens", "codeLens/resolve"] {
        match ask(&docs, method, none()) {
            RequestStep::Respond(resp) => {
                assert!(resp.result.is_none());
                let err = resp.error.unwrap();
                assert_eq!(err.code, -32602);
                assert_eq!(err.message, format!("invalid params for {}", method));
            }
            _ => panic!("expected an error response"),
        }
    }
}

#[test]
fn applied_notification_updates_callers_storage() {
    let mut docs = DocumentStorage::new();
    let n = Notification {
        method: "textDocument/didOpen".to_string(),
        params: NotificationParams { did_open: Some(DidOpenParams { uri: "file:///b.cs".to_string(), text: "b".to_string() }), ..no_params() },
    };
    assert!(apply_notification(&mut docs, &n).is_ok());
    assert_eq!(docs.get("file:///b.cs"), Some("b"));
}
