use unity_ls::analyzer::{
    is_asset_file, matching_lines, select_lines, AnalysisResult, AnalysisStep, Analyzer, AssetFile,
    ScriptReference,
};
use unity_ls::asset_detector::AssetDetector;
use unity_ls::yaml::{guid_from_documents, YamlDocument, YamlEntry};

const GUID: &str = "4f1e2d3c4b5a69788796a5b4c3d2e1f0";

fn script_line(guid: &str) -> String {
    format!("  m_Script: {{fileID: 11500000, guid: {}, type: 3}}", guid)
}

fn scene_text() -> String {
    format!(
        "%YAML 1.1\n--- !u!114 &1\nMonoBehaviour:\n{}\n  m_Name: a\n{}\r\n",
        script_line(GUID),
        script_line("0000000000000000000000000000000a")
    )
}

#[test]
fn meta_guid_is_read() {
    let meta = format!("fileFormatVersion: 2\nguid: {}\nMonoImporter:\n  serializedVersion: 2\n", GUID);
    assert_eq!(Analyzer::extract_guid_from_meta(&meta), Some(GUID.to_string()));
    assert_eq!(AssetDetector::extract_guid_from_meta(&meta), Some(GUID.to_string()));
}

#[test]
fn meta_without_guid_gives_none() {
    assert_eq!(Analyzer::extract_guid_from_meta("fileFormatVersion: 2\n"), None);
    assert_eq!(Analyzer::extract_guid_from_meta("- guid\n- x\n"), None);
    assert_eq!(Analyzer::extract_guid_from_meta(""), None);
}

#[test]
fn meta_guid_is_read_as_written() {
    assert_eq!(Analyzer::extract_guid_from_meta("guid: 123\n"), Some("123".to_string()));
    assert_eq!(
        AssetDetector::extract_guid_from_meta("fileFormatVersion: 2\nguid: 12345678901234567890123456789012\n"),
        Some("12345678901234567890123456789012".to_string())
    );
    assert_eq!(Analyzer::extract_guid_from_meta("guid: 0012e5\n"), Some("0012e5".to_string()));
    assert_eq!(Analyzer::extract_guid_from_meta("guid: '123'\n"), Some("123".to_string()));
    assert_eq!(Analyzer::extract_guid_from_meta("guid:\n"), None);
    assert_eq!(Analyzer::extract_guid_from_meta("guid: ~\n"), None);
    assert_eq!(Analyzer::extract_guid_from_meta("guid: null\nguid2: x\n"), None);
    assert_eq!(Analyzer::extract_guid_from_meta("guid: \"\"\n"), Some(String::new()));
    assert_eq!(AssetDetector::extract_guid_from_meta("guid: ''\n"), Some(String::new()));
    assert_eq!(Analyzer::extract_guid_from_meta("guid: [a]\n"), None);
}

#[test]
fn invalid_yaml_gives_none() {
    assert_eq!(Analyzer::extract_guid_from_meta("guid: [unclosed\n"), None);
    assert_eq!(Analyzer::extract_guid_from_meta("a: 1\na: 2\n"), None);
}

#[test]
fn only_first_document_counts() {
    assert_eq!(Analyzer::extract_guid_from_meta("x: 1\n---\nguid: abc\n"), None);
    assert_eq!(Analyzer::extract_guid_from_meta("guid: abc\n---\nguid: def\n"), Some("abc".to_string()));
}

#[test]
fn guid_from_loaded_documents() {
    let docs = vec![YamlDocument {
        mapping: Some(vec![
            YamlEntry { key: Some("guid".to_string()), value: None },
            YamlEntry { key: None, value: Some("x".to_string()) },
            YamlEntry { key: Some("guid".to_string()), value: Some("found".to_string()) },
        ]),
    }];
    assert_eq!(guid_from_documents(&docs), Some("found".to_string()));
    let not_mapping = vec![YamlDocument { mapping: None }];
    assert_eq!(guid_from_documents(&not_mapping), None);
    assert_eq!(guid_from_documents(&Vec::new()), None);
}

#[test]
fn asset_file_names() {
    assert!(is_asset_file("Main.unity"));
    assert!(is_asset_file("Player.prefab"));
    assert!(is_asset_file("Settings.asset"));
    assert!(!is_asset_file("Player.prefab.meta"));
    assert!(!is_asset_file("Script.cs"));
    assert!(!is_asset_file(""));
}

#[test]
fn matching_lines_need_pattern_and_guid() {
    let lines = vec![
        script_line(GUID),
        format!("  m_Script: {{fileID: 1, guid: {}, type: 2}}", GUID),
        format!("guid: {}", GUID),
        script_line("abc"),
        format!("m_Script:{{fileID:5,guid:{},type:3}}", GUID),
    ];
    assert_eq!(matching_lines(&lines, GUID), vec![0u32, 4]);
}

#[test]
fn guid_field_must_equal_the_guid() {
    let lines = vec![script_line("abc123"), script_line("abc"), script_line("xabc")];
    assert_eq!(matching_lines(&lines, "abc"), vec![1u32]);
    assert_eq!(matching_lines(&lines, "abc123"), vec![0u32]);
    assert_eq!(matching_lines(&lines, ""), Vec::<u32>::new());
}

#[test]
fn unicode_white_space_before_the_guid() {
    let lines = vec![
        "m_Script: {fileID: 11500000, guid:\u{2003}abc, type: 3}".to_string(),
        "m_Script: {fileID: 11500000, guid:\u{a0}\tabc, type: 3}".to_string(),
        "m_Script: {fileID: 11500000, guid:\u{200b}abc, type: 3}".to_string(),
    ];
    assert_eq!(matching_lines(&lines, "abc"), vec![0u32, 1]);
}

#[test]
fn references_found_file_after_file() {
    let analyzer = Analyzer::try_new("file:///project").unwrap();
    let files = vec![
        AssetFile { path: "/project/Assets/A.unity".to_string(), file_name: "A.unity".to_string(), content: Some(scene_text()) },
        AssetFile { path: "/project/Assets/B.txt".to_string(), file_name: "B.txt".to_string(), content: Some(scene_text()) },
        AssetFile { path: "/project/Assets/C.prefab".to_string(), file_name: "C.prefab".to_string(), content: None },
        AssetFile { path: "/project/Assets/D.prefab".to_string(), file_name: "D.prefab".to_string(), content: Some(script_line(GUID)) },
    ];
    let refs = analyzer.find_asset_references(&files, GUID);
    let got: Vec<(String, u32)> = refs.iter().map(|r| (r.file_path.clone(), r.line_number)).collect();
    assert_eq!(
        got,
        vec![("/project/Assets/A.unity".to_string(), 3), ("/project/Assets/D.prefab".to_string(), 0)]
    );
    let legacy = AssetDetector::find_asset_references(&files, GUID);
    let got_legacy: Vec<(String, u32)> = legacy.iter().map(|r| (r.file_path.clone(), r.line_number)).collect();
    assert_eq!(got_legacy, got);
}

#[test]
fn references_of_concatenated_files() {
    let analyzer = Analyzer::try_new("file:///project").unwrap();
    let a = vec![AssetFile { path: "/p/A.asset".to_string(), file_name: "A.asset".to_string(), content: Some(scene_text()) }];
    let b = vec![AssetFile { path: "/p/B.asset".to_string(), file_name: "B.asset".to_string(), content: Some(format!("x\n{}", script_line(GUID))) }];
    let mut both = Vec::new();
    both.extend(a.iter().map(|f| AssetFile { path: f.path.clone(), file_name: f.file_name.clone(), content: f.content.clone() }));
    both.extend(b.iter().map(|f| AssetFile { path: f.path.clone(), file_name: f.file_name.clone(), content: f.content.clone() }));
    let view = |v: Vec<ScriptReference>| v.into_iter().map(|r| (r.file_path, r.line_number)).collect::<Vec<_>>();
    let mut separate = view(analyzer.find_asset_references(&a, GUID));
    separate.extend(view(analyzer.find_asset_references(&b, GUID)));
    assert_eq!(view(analyzer.find_asset_references(&both, GUID)), separate);
    assert_eq!(separate.len(), 2);
}

#[test]
fn class_line_of_script() {
    let src = "using UnityEngine;\n\n// comment\npublic class Player : MonoBehaviour\n{\n    void Start() {}\n}\n";
    assert_eq!(Analyzer::get_class_line(src), Some(3));
    assert_eq!(Analyzer::get_class_line("namespace N { struct S {} }"), None);
    assert_eq!(Analyzer::get_class_line(""), None);
    let nested = "namespace Game\n{\n  public class A\n  {\n    class B {}\n  }\n}\n";
    assert_eq!(Analyzer::get_class_line(nested), Some(2));
}

#[test]
fn analysis_combines_references_and_class_line() {
    let analyzer = Analyzer::try_new("file:///project").unwrap();
    let refs = vec![ScriptReference { file_path: "/p/A.unity".to_string(), line_number: 7 }];
    let result: AnalysisResult = analyzer.complete_analysis("class C {}", refs);
    assert_eq!(result.class_line, Some(0));
    assert_eq!(result.asset_references.len(), 1);
    assert_eq!(result.asset_references[0].line_number, 7);
}

#[test]
fn meta_path_and_assets_dir() {
    assert_eq!(Analyzer::meta_path("file:///home/u/Game/Assets/Player.cs"), Some("/home/u/Game/Assets/Player.cs.meta".to_string()));
    assert_eq!(Analyzer::meta_path("file:///home/u/My%20Game/P.cs"), Some("/home/u/My Game/P.cs.meta".to_string()));
    assert_eq!(Analyzer::meta_path("https://example.com/P.cs"), None);
    assert_eq!(Analyzer::meta_path("not a uri"), None);
    let analyzer = Analyzer::new("file:///home/u/Game");
    assert_eq!(analyzer.assets_dir(), "/home/u/Game/Assets");
    assert!(Analyzer::try_new("untitled:Untitled-1").is_none());
    assert_eq!(AssetDetector::try_assets_dir("file:///home/u/Game/"), Some("/home/u/Game/Assets".to_string()));
    assert_eq!(AssetDetector::assets_dir("file:///g"), "/g/Assets".to_string());
    assert_eq!(AssetDetector::try_assets_dir("mailto:x@y"), None);
}

#[test]
fn selected_lines_need_flag_and_guid() {
    let lines = vec!["guid: g1, a".to_string(), "guid:\tg1,".to_string(), "guid: g12, c".to_string(), "c".to_string()];
    assert_eq!(select_lines(&lines, &vec![false, true, true, true], "g1"), vec![1u32]);
    assert_eq!(select_lines(&lines, &vec![true, true, true, true], "g1"), vec![0u32, 1]);
    assert_eq!(select_lines(&lines, &vec![true, true, true, true], ""), Vec::<u32>::new());
}

#[test]
fn analysis_steps() {
    let analyzer = Analyzer::try_new("file:///project").unwrap();
    match analyzer.analyze_script("class C {}", "file:///project/Assets/C.cs") {
        AnalysisStep::ReadMeta { path } => assert_eq!(path, "/project/Assets/C.cs.meta"),
        _ => panic!("expected the meta file to be read"),
    }
    match analyzer.analyze_script("\nclass C {}", "untitled:C.cs") {
        AnalysisStep::Done(r) => {
            assert!(r.asset_references.is_empty());
            assert_eq!(r.class_line, Some(1));
        }
        _ => panic!("expected a finished analysis"),
    }
    match analyzer.after_meta("class C {}", Some("guid: abc\n")) {
        AnalysisStep::SearchAssets { dir, guid } => {
            assert_eq!(dir, "/project/Assets");
            assert_eq!(guid, "abc");
        }
        _ => panic!("expected an asset search"),
    }
    assert!(matches!(analyzer.after_meta("class C {}", None), AnalysisStep::Done(_)));
    assert!(matches!(analyzer.after_meta("class C {}", Some("x: 1\n")), AnalysisStep::Done(_)));
}
