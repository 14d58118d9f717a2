use be::cache::Cache;
use be::cache::CacheError;
use be::cache::Input;
use be::cli::lint::Args;
use be::cli::lint::Command;
use be::cli::lint::HaskellArgs;
use be::exec::HLINT_PROFILE;
use be::format::Outcome;
use be::format::Source;
use be::json::JsonNode;
use be::lint::decode_hint;
use be::lint::decode_hints;
use be::lint::encode_hint;
use be::lint::encode_hints;
use be::lint::hlint;
use be::lint::lint_haskell;
use be::lint::lint_haskell_output;
use be::lint::retarget;
use be::lint::run;
use be::lint::run_lint_haskell;
use be::lint::HlintHint;
use be::lint::HlintSeverity;
use be::lint::LintError;
use be::lint::LintStep;
use be::lint::Malformed;
use be::store::Store;
use be::store::ToolKind;
use be::lint::decode_hint_list;
use be::lint::encode_hint_list;
use be::json::field;

const TWO_HINTS: &str = r#"[{"module":["Main"],"decl":["main"],"severity":"Warning","hint":"Redundant do","file":"-","startLine":3,"startColumn":8,"endLine":3,"endColumn":10,"from":"do print 1","to":"print 1","note":[],"refactorings":"[Replace {rtype = Expr}]"},
{"module":["Data","Thing"],"decl":["go","helper"],"severity":"Suggestion","hint":"Use fewer imports","file":"-","startLine":10,"startColumn":1,"endLine":12,"endColumn":20,"from":"import A\nimport A","to":null,"note":["increases laziness","removes error"],"refactorings":"[]","extra":42}]"#;

fn hint() -> HlintHint {
    HlintHint {
        module: vec![String::from("Main")],
        decl: vec![String::from("main")],
        severity: HlintSeverity::Warning,
        hint: String::from("Redundant do"),
        file: String::from("src/Main.hs"),
        start_line: 3,
        start_column: 8,
        end_line: 3,
        end_column: 10,
        from: String::from("do print 1"),
        to: Some(String::from("print 1")),
        note: vec![String::from("increases laziness"), String::from("removes error")],
        refactorings: String::from("[Replace]"),
    }
}

fn same(a: &HlintHint, b: &HlintHint) -> bool {
    a.module == b.module
        && a.decl == b.decl
        && a.severity == b.severity
        && a.hint == b.hint
        && a.file == b.file
        && a.start_line == b.start_line
        && a.start_column == b.start_column
        && a.end_line == b.end_line
        && a.end_column == b.end_column
        && a.from == b.from
        && a.to == b.to
        && a.note == b.note
        && a.refactorings == b.refactorings
}

fn lint_cache() -> Cache {
    let mut cache = Cache::new(42, Store::new());
    cache.set_hlint_version(b"HLint v3.8\n").unwrap();
    assert!(cache.set_hlint_configs("/tmp/snap", &Vec::new()));
    cache
}

#[test]
fn severity_names() {
    assert_eq!(HlintSeverity::Ignore.name(), "Ignore");
    assert_eq!(HlintSeverity::Suggestion.name(), "Suggestion");
    assert_eq!(HlintSeverity::Warning.name(), "Warning");
    assert_eq!(HlintSeverity::Error.name(), "Error");
}

#[test]
fn a_hint_is_rendered_with_the_code_found_the_suggestion_and_the_notes() {
    assert_eq!(
        hint().render(false),
        "src/Main.hs:3:8: Warning: Redundant do\nFound:\n  do print 1\nPerhaps:\n  print 1\nNote: increases laziness\nNote: removes error\n"
    );
}

#[test]
fn a_hint_is_emphasised_on_a_terminal() {
    assert_eq!(
        hint().render(true),
        "\x1b[1m\x1b[4msrc/Main.hs:3:8: Warning: Redundant do\x1b[0m\nFound:\n  do print 1\nPerhaps:\n  print 1\nNote: increases laziness\nNote: removes error\n"
    );
}

#[test]
fn a_hint_without_suggestion_or_notes_is_rendered_short() {
    let mut short = hint();
    short.to = None;
    short.note = Vec::new();
    short.severity = HlintSeverity::Error;
    short.start_line = 1200;
    short.start_column = 0;
    assert_eq!(
        short.render(false),
        "src/Main.hs:1200:0: Error: Redundant do\nFound:\n  do print 1\n"
    );
}

#[test]
fn hlint_is_asked_for_machine_output_and_given_the_rule_files() {
    let configs = vec![String::from("/snap/.hlint.yaml"), String::from("/snap/rules.yaml")];
    let inv = hlint(false, "/bin/hlint", &configs);
    assert_eq!(inv.program, "/bin/hlint");
    assert_eq!(
        inv.args,
        vec![
            "--json",
            "--no-exit-code",
            "-",
            "--hint=/snap/.hlint.yaml",
            "--hint=/snap/rules.yaml",
        ]
    );
    let inv = hlint(true, "/bin/hlint", &Vec::new());
    assert_eq!(inv.program, "/usr/bin/sandbox-exec");
    assert_eq!(
        inv.args,
        vec!["-p", HLINT_PROFILE, "--", "/bin/hlint", "--json", "--no-exit-code", "-"]
    );
}

#[test]
fn the_output_of_the_linter_is_decoded() {
    let hints = decode_hints(TWO_HINTS.as_bytes()).unwrap();
    assert_eq!(hints.len(), 2);
    assert_eq!(hints[0].module, vec!["Main"]);
    assert_eq!(hints[0].decl, vec!["main"]);
    assert_eq!(hints[0].severity, HlintSeverity::Warning);
    assert_eq!(hints[0].hint, "Redundant do");
    assert_eq!(hints[0].file, "-");
    assert_eq!(hints[0].start_line, 3);
    assert_eq!(hints[0].start_column, 8);
    assert_eq!(hints[0].end_line, 3);
    assert_eq!(hints[0].end_column, 10);
    assert_eq!(hints[0].from, "do print 1");
    assert_eq!(hints[0].to, Some(String::from("print 1")));
    assert!(hints[0].note.is_empty());
    assert_eq!(hints[0].refactorings, "[Replace {rtype = Expr}]");
    assert_eq!(hints[1].module, vec!["Data", "Thing"]);
    assert_eq!(hints[1].severity, HlintSeverity::Suggestion);
    assert_eq!(hints[1].to, None);
    assert_eq!(hints[1].note, vec!["increases laziness", "removes error"]);
    assert_eq!(hints[1].end_line, 12);
    assert_eq!(hints[1].end_column, 20);
}

#[test]
fn an_empty_list_of_hints_is_decoded() {
    assert_eq!(decode_hints(b"[]").unwrap().len(), 0);
    assert_eq!(decode_hints(b" [ ] \n").unwrap().len(), 0);
}

#[test]
fn output_that_is_no_list_of_hints_is_malformed() {
    assert!(matches!(decode_hints(b""), Err(Malformed)));
    assert!(matches!(decode_hints(b"[1"), Err(Malformed)));
    assert!(matches!(decode_hints(b"{}"), Err(Malformed)));
    assert!(matches!(decode_hints(b"[1]"), Err(Malformed)));
    assert!(matches!(decode_hints(b"[{}]"), Err(Malformed)));
    assert!(matches!(decode_hints(b"[] []"), Err(Malformed)));
    let missing_file = TWO_HINTS.replace("\"file\":\"-\",", "");
    assert!(matches!(decode_hints(missing_file.as_bytes()), Err(Malformed)));
    let bad_severity = TWO_HINTS.replace("\"Warning\"", "\"Fatal\"");
    assert!(matches!(decode_hints(bad_severity.as_bytes()), Err(Malformed)));
    let negative = TWO_HINTS.replace("\"startLine\":3", "\"startLine\":-3");
    assert!(matches!(decode_hints(negative.as_bytes()), Err(Malformed)));
    let fraction = TWO_HINTS.replace("\"startLine\":3", "\"startLine\":3.5");
    assert!(matches!(decode_hints(fraction.as_bytes()), Err(Malformed)));
    let note = TWO_HINTS.replace("\"note\":[]", "\"note\":[1]");
    assert!(matches!(decode_hints(note.as_bytes()), Err(Malformed)));
}

#[test]
fn a_hint_is_read_from_an_object_only() {
    assert!(decode_hint(&JsonNode::Null).is_none());
    assert!(decode_hint(&JsonNode::Array(Vec::new())).is_none());
    assert!(decode_hint(&JsonNode::Object(Vec::new())).is_none());
}

#[test]
fn a_hint_that_is_encoded_decodes_to_itself() {
    let given = hint();
    let node = encode_hint(&given);
    let decoded = decode_hint(&node).unwrap();
    assert!(same(&given, &decoded));
    let mut plain = hint();
    plain.to = None;
    plain.note = Vec::new();
    plain.severity = HlintSeverity::Ignore;
    let decoded = decode_hint(&encode_hint(&plain)).unwrap();
    assert!(same(&plain, &decoded));
}

#[test]
fn hints_that_are_encoded_decode_to_themselves() {
    let mut second = hint();
    second.to = None;
    second.from = String::from("line one\nline \"two\" \u{e9}");
    second.severity = HlintSeverity::Error;
    let hints = vec![hint(), second];
    let bytes = encode_hints(&hints);
    let decoded = decode_hints(&bytes).unwrap();
    assert_eq!(decoded.len(), 2);
    assert!(same(&hints[0], &decoded[0]));
    assert!(same(&hints[1], &decoded[1]));
    assert_eq!(encode_hints(&Vec::new()), b"[]".to_vec());
}

#[test]
fn the_encoding_is_json_with_the_names_of_the_linter() {
    let bytes = encode_hints(&vec![hint()]);
    let value: serde_json::Value = serde_json::from_slice(&bytes).unwrap();
    let object = value.as_array().unwrap()[0].as_object().unwrap();
    assert_eq!(object.len(), 13);
    assert_eq!(object["startLine"].as_u64(), Some(3));
    assert_eq!(object["startColumn"].as_u64(), Some(8));
    assert_eq!(object["endLine"].as_u64(), Some(3));
    assert_eq!(object["endColumn"].as_u64(), Some(10));
    assert_eq!(object["severity"].as_str(), Some("Warning"));
    assert_eq!(object["module"][0].as_str(), Some("Main"));
    assert_eq!(object["to"].as_str(), Some("print 1"));
    assert_eq!(object["refactorings"].as_str(), Some("[Replace]"));
}

#[test]
fn retarget_names_the_file_in_every_hint() {
    let mut hints = decode_hints(TWO_HINTS.as_bytes()).unwrap();
    retarget(&mut hints, Some("src/Main.hs"));
    assert_eq!(hints[0].file, "src/Main.hs");
    assert_eq!(hints[1].file, "src/Main.hs");
    assert_eq!(hints[1].hint, "Use fewer imports");
    retarget(&mut hints, None);
    assert_eq!(hints[0].file, "src/Main.hs");
    let mut untouched = decode_hints(TWO_HINTS.as_bytes()).unwrap();
    retarget(&mut untouched, None);
    assert_eq!(untouched[0].file, "-");
}

#[test]
fn two_diagnostics_are_stored_under_one_row_and_shown_again_on_a_hit() {
    let mut cache = lint_cache();
    let hash = 77;
    assert!(matches!(lint_haskell(&cache, hash), Ok(LintStep::Invoke)));
    let (hints, outcome) =
        lint_haskell_output(&mut cache, hash, Some("src/Main.hs"), TWO_HINTS.as_bytes()).unwrap();
    assert_eq!(outcome, Outcome::Processed { changed: true });
    assert_eq!(hints.len(), 2);
    assert_eq!(cache.store().len(ToolKind::Hlint), 1);
    let shown: Vec<String> = hints.iter().map(|hint| hint.render(false)).collect();
    assert_eq!(
        shown[0],
        "src/Main.hs:3:8: Warning: Redundant do\nFound:\n  do print 1\nPerhaps:\n  print 1\n"
    );
    match lint_haskell(&cache, hash) {
        Ok(LintStep::Reuse(stored)) => {
            assert_eq!(stored.len(), 2);
            assert!(same(&stored[0], &hints[0]));
            assert!(same(&stored[1], &hints[1]));
            let again: Vec<String> = stored.iter().map(|hint| hint.render(false)).collect();
            assert_eq!(again, shown);
        }
        _ => panic!("expected the stored diagnostics"),
    }
    assert_eq!(cache.store().len(ToolKind::Hlint), 1);
    assert!(matches!(lint_haskell(&cache, hash + 1), Ok(LintStep::Invoke)));
}

#[test]
fn malformed_output_of_the_linter_records_nothing() {
    let mut cache = lint_cache();
    let result = lint_haskell_output(&mut cache, 1, None, b"not json");
    assert!(matches!(result, Err(LintError::MalformedOutput)));
    assert_eq!(cache.store().len(ToolKind::Hlint), 0);
}

#[test]
fn a_stored_payload_that_is_no_list_of_hints_is_reported() {
    let mut cache = lint_cache();
    assert_eq!(cache.mark_haskell_linted(5, b"garbage".to_vec()), Ok(()));
    assert!(matches!(lint_haskell(&cache, 5), Err(LintError::MalformedPayload)));
}

#[test]
fn the_lint_pipeline_names_the_input_that_is_not_resolved() {
    let mut cache = Cache::new(42, Store::new());
    assert!(matches!(
        lint_haskell(&cache, 1),
        Err(LintError::Cache(CacheError::Unresolved(Input::HlintVersion)))
    ));
    assert!(matches!(
        lint_haskell_output(&mut cache, 1, None, b"[]"),
        Err(LintError::Cache(CacheError::Unresolved(Input::HlintVersion)))
    ));
}

#[test]
fn the_linter_reads_paths_or_the_changed_files_and_never_the_input_stream() {
    let args = HaskellArgs { paths: vec![String::from("A.hs")], stdin: true };
    assert!(matches!(run_lint_haskell(&args), Source::Paths(ref given) if given[0] == "A.hs"));
    let args = HaskellArgs { paths: Vec::new(), stdin: true };
    assert!(matches!(run_lint_haskell(&args), Source::ChangedFiles));
    assert!(matches!(run(&Args { command: None }), Source::ChangedFiles));
    let args = Args {
        command: Some(Command::Haskell(HaskellArgs {
            paths: vec![String::from("B.hs")],
            stdin: false,
        })),
    };
    assert!(matches!(run(&args), Source::Paths(ref given) if given[0] == "B.hs"));
}

#[test]
fn a_list_of_hints_is_read_from_and_written_to_a_node() {
    let hints = vec![hint(), hint()];
    let node = encode_hint_list(&hints);
    assert!(matches!(node, JsonNode::Array(ref items) if items.len() == 2));
    let decoded = decode_hint_list(&node).unwrap();
    assert_eq!(decoded.len(), 2);
    assert!(same(&decoded[1], &hints[1]));
    assert!(decode_hint_list(&JsonNode::Null).is_none());
    assert!(decode_hint_list(&JsonNode::Array(vec![JsonNode::Null])).is_none());
    assert_eq!(decode_hint_list(&JsonNode::Array(Vec::new())).unwrap().len(), 0);
}

#[test]
fn a_position_must_be_a_number_that_the_machine_holds() {
    let node = encode_hint(&hint());
    let entries = match node {
        JsonNode::Object(entries) => entries,
        _ => panic!("expected an object"),
    };
    assert!(matches!(field(&entries, "startLine"), Some(JsonNode::Unsigned(3))));
    assert!(matches!(field(&entries, "to"), Some(JsonNode::Text(text)) if text == "print 1"));
    assert!(field(&entries, "missing").is_none());
    let mut broken: Vec<(String, JsonNode)> = Vec::new();
    for (name, value) in entries {
        if name == "endColumn" {
            broken.push((name, JsonNode::OtherNumber));
        } else {
            broken.push((name, value));
        }
    }
    assert!(decode_hint(&JsonNode::Object(broken)).is_none());
}
