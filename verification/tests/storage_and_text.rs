use unity_ls::document_storage::DocumentStorage;
use unity_ls::text::{lines_of, push_decimal, str_ends_with, str_equal};

#[test]
fn storage_starts_empty() {
    let docs = DocumentStorage::new();
    assert_eq!(docs.get("file:///a.cs"), None);
}

#[test]
fn storage_reads_back_opened_text() {
    let mut docs = DocumentStorage::new();
    docs.open("file:///a.cs".to_string(), "class A {}".to_string());
    assert_eq!(docs.get("file:///a.cs"), Some("class A {}"));
}

#[test]
fn storage_change_replaces_text() {
    let mut docs = DocumentStorage::new();
    docs.open("file:///a.cs".to_string(), "old".to_string());
    docs.change("file:///a.cs".to_string(), "new".to_string());
    assert_eq!(docs.get("file:///a.cs"), Some("new"));
}

#[test]
fn storage_close_forgets_document() {
    let mut docs = DocumentStorage::new();
    docs.open("file:///a.cs".to_string(), "text".to_string());
    docs.close("file:///a.cs");
    assert_eq!(docs.get("file:///a.cs"), None);
}

#[test]
fn storage_other_documents_unchanged() {
    let mut docs = DocumentStorage::new();
    docs.open("file:///a.cs".to_string(), "a".to_string());
    docs.open("file:///b.cs".to_string(), "b".to_string());
    docs.change("file:///a.cs".to_string(), "a2".to_string());
    docs.close("file:///a.cs");
    assert_eq!(docs.get("file:///b.cs"), Some("b"));
}

#[test]
fn storage_close_of_unknown_uri_is_harmless() {
    let mut docs = DocumentStorage::new();
    docs.open("file:///b.cs".to_string(), "b".to_string());
    docs.close("file:///a.cs");
    assert_eq!(docs.get("file:///b.cs"), Some("b"));
}

#[test]
fn lines_split_like_str_lines() {
    let cases = [
        "",
        "a",
        "a\n",
        "a\r\nb\n",
        "a\r",
        "a\rb\r\n\r\n",
        "\n\n",
        "x\ny\r\nz",
        "über\nzwei",
    ];
    for case in cases {
        let expected: Vec<String> = case.lines().map(String::from).collect();
        assert_eq!(lines_of(case), expected, "input {:?}", case);
    }
}

#[test]
fn lines_keep_lone_carriage_return() {
    assert_eq!(lines_of("a\rb"), vec!["a\rb".to_string()]);
    assert_eq!(lines_of("end\r"), vec!["end\r".to_string()]);
}

#[test]
fn suffix_and_equality_tests() {
    assert!(str_ends_with("Level.unity", ".unity"));
    assert!(!str_ends_with("Level.unity.meta", ".unity"));
    assert!(str_ends_with("x", ""));
    assert!(str_equal("guid", "guid"));
    assert!(!str_equal("guid", "gui"));
}

#[test]
fn decimal_rendering() {
    for n in [0usize, 1, 9, 10, 42, 100, 1234567890] {
        let mut s = String::from("#");
        push_decimal(&mut s, n);
        assert_eq!(s, format!("#{}", n));
    }
}
