use sdmm_opendream::model::{
    ConstructionError, DeclTree, Diagnostic, ParseOutcome, Property, QueryError, Severity,
    TypeNode,
};
use sdmm_opendream::session::{plan_parse, ParseResult};

fn node(path: &str, props: &[(&str, &str)]) -> TypeNode {
    TypeNode {
        path: path.to_owned(),
        properties: props
            .iter()
            .map(|(n, v)| Property { name: (*n).to_owned(), value: (*v).to_owned() })
            .collect(),
    }
}

fn sample_outcome() -> ParseOutcome {
    let mut tree = DeclTree::new(vec![Property {
        name: "name".to_owned(),
        value: "root".to_owned(),
    }]);
    tree = tree.push_node(node("/datum", &[("name", "datum")]));
    tree = tree.push_node(node("/datum/thing", &[("name", "thing"), ("layer", "2")]));
    ParseOutcome {
        files: vec!["env.dme".to_owned(), "extra.dm".to_owned()],
        diagnostics: vec![
            Diagnostic {
                severity: Severity::Error,
                file: "env.dme".to_owned(),
                line: 4,
                column: 1,
                message: "bad declaration".to_owned(),
            },
            Diagnostic {
                severity: Severity::Warning,
                file: "extra.dm".to_owned(),
                line: 12,
                column: 5,
                message: "suspicious indent".to_owned(),
            },
        ],
        tree,
        maps: vec!["map1.dmm".to_owned()],
        scripts: vec![],
        skins: vec!["icons.dmi".to_owned()],
    }
}

fn sample_session() -> ParseResult {
    ParseResult::parse(Ok(sample_outcome())).expect("construction should succeed")
}

#[test]
fn root_alias_returns_identical_output() {
    let mut s = sample_session();
    let by_empty = s.query_type_info("").expect("root lookup via empty path");
    let by_slash = s.query_type_info("/").expect("root lookup via slash");
    assert_eq!(by_empty, by_slash);
    assert_eq!(by_empty, "{\"path\":\"\",\"properties\":{\"name\":\"root\"}}");
}

#[test]
fn file_list_is_deterministic_across_calls() {
    let mut s = sample_session();
    let first = s.query_file_list();
    let second = s.query_file_list();
    assert_eq!(first, second);
    assert_eq!(first, "[\"env.dme\",\"extra.dm\"]");
}

#[test]
fn diagnostics_include_warning_and_exclude_error() {
    let mut s = sample_session();
    let doc = s.query_diagnostics();
    assert!(doc.contains("suspicious indent"));
    assert!(doc.contains("\"severity\":\"warning\""));
    assert!(!doc.contains("bad declaration"));
    assert!(!doc.contains("\"severity\":\"error\""));
    assert_eq!(
        doc,
        "[{\"severity\":\"warning\",\"file\":\"extra.dm\",\"line\":12,\"column\":5,\
         \"message\":\"suspicious indent\"}]"
    );
}

#[test]
fn notice_diagnostics_are_reported() {
    let mut outcome = sample_outcome();
    outcome.diagnostics.push(Diagnostic {
        severity: Severity::Notice,
        file: "extra.dm".to_owned(),
        line: 30,
        column: 2,
        message: "informational".to_owned(),
    });
    let mut s = ParseResult::parse(Ok(outcome)).expect("construction should succeed");
    let doc = s.query_diagnostics();
    assert!(doc.contains("\"severity\":\"notice\""));
    assert!(doc.contains("informational"));
}

#[test]
fn missing_path_fails_and_leaves_session_usable() {
    let mut s = sample_session();
    let err = s.query_type_info("/nonexistent/path").unwrap_err();
    match err {
        QueryError::PathNotFound { path } => assert_eq!(path, "/nonexistent/path"),
        other => panic!("unexpected error: {:?}", other),
    }
    let ok = s.query_type_info("/datum/thing").expect("session must stay usable");
    assert_eq!(
        ok,
        "{\"path\":\"/datum/thing\",\"properties\":{\"name\":\"thing\",\"layer\":\"2\"}}"
    );
}

#[test]
fn destroy_consumes_the_session() {
    let mut s = sample_session();
    let _ = s.query_file_list();
    // `destroy` takes the session by value: after this call the handle
    // is gone, and any further query is rejected at compile time.
    s.destroy();
}

#[test]
fn special_files_mapping_always_has_three_keys() {
    let mut outcome = sample_outcome();
    outcome.maps = vec![];
    outcome.scripts = vec![];
    outcome.skins = vec![];
    let mut s = ParseResult::parse(Ok(outcome)).expect("construction should succeed");
    let doc = s.query_special_files();
    assert_eq!(doc, "{\"maps\":[],\"scripts\":[],\"skins\":[]}");
}

#[test]
fn special_files_lists_captured_paths() {
    let mut s = sample_session();
    let doc = s.query_special_files();
    assert_eq!(doc, "{\"maps\":[\"map1.dmm\"],\"scripts\":[],\"skins\":[\"icons.dmi\"]}");
}

#[test]
fn failed_file_open_surfaces_the_offending_path() {
    let failure = ConstructionError::FileOpenFailed { path: "missing/include.dm".to_owned() };
    let r = ParseResult::parse(Err(failure));
    match r {
        Err(ConstructionError::FileOpenFailed { path }) => {
            assert_eq!(path, "missing/include.dm");
        },
        other => panic!("expected FileOpenFailed, got {:?}", other.err()),
    }
}

#[test]
fn encoding_failure_surfaces_the_offending_path() {
    let failure = ConstructionError::EncodingError { path: "latin1.dm".to_owned() };
    let r = ParseResult::parse(Err(failure));
    assert_eq!(r.unwrap_err(), ConstructionError::EncodingError { path: "latin1.dm".to_owned() });
}

#[test]
fn export_buffer_holds_latest_document_only() {
    let mut s = sample_session();
    assert!(s.last_export().is_none());
    let files = s.query_file_list();
    assert_eq!(s.last_export(), Some(&files));
    let types = s.query_type_list();
    assert_eq!(s.last_export(), Some(&types));
    assert_ne!(files, types);
}

#[test]
fn failed_lookup_leaves_export_buffer_untouched() {
    let mut s = sample_session();
    let files = s.query_file_list();
    let _ = s.query_type_info("/nope").unwrap_err();
    assert_eq!(s.last_export(), Some(&files));
}

#[test]
fn type_list_contains_every_declared_path() {
    let mut s = sample_session();
    let doc = s.query_type_list();
    assert_eq!(doc, "[\"\",\"/datum\",\"/datum/thing\"]");
}

#[test]
fn plan_parse_uses_last_file_as_environment() {
    let files = vec!["a.dm".to_owned(), "b.dm".to_owned(), "env.dme".to_owned()];
    let plan = plan_parse(&files).expect("non-empty list must yield a plan");
    assert_eq!(plan.environment, "env.dme");
    assert_eq!(plan.includes, vec!["b.dm".to_owned(), "a.dm".to_owned()]);
}

#[test]
fn plan_parse_rejects_an_empty_file_list() {
    let files: Vec<String> = vec![];
    assert_eq!(plan_parse(&files).unwrap_err(), ConstructionError::EnvironmentLoadFailed);
}

#[test]
fn single_file_plan_has_no_includes() {
    let files = vec!["env.dme".to_owned()];
    let plan = plan_parse(&files).expect("non-empty list must yield a plan");
    assert_eq!(plan.environment, "env.dme");
    assert!(plan.includes.is_empty());
}
