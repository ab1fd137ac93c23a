use sdmm_opendream::model::{DeclTree, Diagnostic, ParseOutcome, Property, Severity, TypeNode};
use sdmm_opendream::session::ParseResult;

fn session_with_files(files: Vec<String>) -> ParseResult {
    let outcome = ParseOutcome {
        files,
        diagnostics: vec![],
        tree: DeclTree::new(vec![]),
        maps: vec![],
        scripts: vec![],
        skins: vec![],
    };
    ParseResult::parse(Ok(outcome)).expect("construction should succeed")
}

#[test]
fn empty_file_list_is_an_empty_array() {
    let s = session_with_files(vec![]);
    assert_eq!(s.get_file_list(), "[]");
}

#[test]
fn string_escaping_matches_a_reference_encoder() {
    let tricky = [
        "plain",
        "with \"quotes\"",
        "back\\slash",
        "line\nbreak and tab\t",
        "control \u{1} \u{1f} \u{8} \u{c} \r end",
        "unicode: héllo ☃",
        "nul byte \u{0} inside",
        "",
    ];
    for case in tricky {
        let s = session_with_files(vec![case.to_owned()]);
        let ours = s.get_file_list();
        let reference = format!("[{}]", serde_json::to_string(case).unwrap());
        assert_eq!(ours, reference, "encoding of {:?} diverged", case);
    }
}

#[test]
fn every_export_parses_as_json() {
    let mut tree = DeclTree::new(vec![Property {
        name: "desc".to_owned(),
        value: "root \"quoted\"".to_owned(),
    }]);
    tree = tree.push_node(TypeNode {
        path: "/obj".to_owned(),
        properties: vec![Property { name: "name".to_owned(), value: "ob\nj".to_owned() }],
    });
    let outcome = ParseOutcome {
        files: vec!["weird \u{3} name.dm".to_owned()],
        diagnostics: vec![Diagnostic {
            severity: Severity::Warning,
            file: "weird \u{3} name.dm".to_owned(),
            line: 4294967295,
            column: 0,
            message: "odd\tmessage".to_owned(),
        }],
        tree,
        maps: vec!["a.dmm".to_owned()],
        scripts: vec!["s.dms".to_owned()],
        skins: vec![],
    };
    let mut s = ParseResult::parse(Ok(outcome)).expect("construction should succeed");

    let files: serde_json::Value = serde_json::from_str(&s.query_file_list()).unwrap();
    assert!(files.is_array());

    let diags: serde_json::Value = serde_json::from_str(&s.query_diagnostics()).unwrap();
    assert_eq!(diags[0]["line"], serde_json::Value::from(4294967295u32));
    assert_eq!(diags[0]["column"], serde_json::Value::from(0u32));
    assert_eq!(diags[0]["message"], serde_json::Value::from("odd\tmessage"));

    let types: serde_json::Value = serde_json::from_str(&s.query_type_list()).unwrap();
    assert_eq!(types[1], serde_json::Value::from("/obj"));

    let info: serde_json::Value = serde_json::from_str(&s.query_type_info("/obj").unwrap())
        .unwrap();
    assert_eq!(info["path"], serde_json::Value::from("/obj"));
    assert_eq!(info["properties"]["name"], serde_json::Value::from("ob\nj"));

    let special: serde_json::Value = serde_json::from_str(&s.query_special_files()).unwrap();
    assert_eq!(special["maps"][0], serde_json::Value::from("a.dmm"));
    assert_eq!(special["scripts"][0], serde_json::Value::from("s.dms"));
    assert_eq!(special["skins"].as_array().unwrap().len(), 0);
}

#[test]
fn line_and_column_render_in_decimal() {
    let outcome = ParseOutcome {
        files: vec![],
        diagnostics: vec![
            Diagnostic {
                severity: Severity::Notice,
                file: "f".to_owned(),
                line: 0,
                column: 10,
                message: "zero".to_owned(),
            },
            Diagnostic {
                severity: Severity::Notice,
                file: "f".to_owned(),
                line: 907,
                column: 1000000,
                message: "big".to_owned(),
            },
        ],
        tree: DeclTree::new(vec![]),
        maps: vec![],
        scripts: vec![],
        skins: vec![],
    };
    let s = ParseResult::parse(Ok(outcome)).expect("construction should succeed");
    let doc = s.get_diagnostics();
    assert!(doc.contains("\"line\":0,\"column\":10"));
    assert!(doc.contains("\"line\":907,\"column\":1000000"));
}
