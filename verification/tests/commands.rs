use serde_json::Value;
use tink::error::ConfigError;
use tink::profile::{FnAdd, FnReplace, Profile, Target};

fn profile(language: &str, label: Option<&str>, target: Target, program_args: &[&str]) -> Profile {
    Profile {
        language: language.to_string(),
        label: label.map(|l| l.to_string()),
        target,
        program_args: program_args.iter().map(|a| a.to_string()).collect(),
    }
}

fn parse(text: &str) -> Value {
    serde_json::from_str(text).unwrap()
}

#[test]
fn add_to_missing_primary_file_writes_one_entry() {
    let command = FnAdd { profile: profile("rust", None, Target::Zed, &["myprog", "arg1"]) };
    let text = command.run(None).unwrap();
    let expected = parse(
        r#"[{"label":"Debug myprog","adapter":"CodeLLDB","request":"launch","program":"myprog","args":["arg1"]}]"#,
    );
    assert_eq!(parse(&text), expected);
}

#[test]
fn add_writes_pretty_printed_text() {
    let command = FnAdd { profile: profile("go", Some("x"), Target::Zed, &["p"]) };
    let text = command.run(None).unwrap();
    assert!(text.starts_with("[\n  {\n"));
    assert!(text.contains("\n    \"label\": \"x\""));
    assert!(text.ends_with("}\n]"));
}

#[test]
fn replace_in_secondary_file_keeps_place_and_version() {
    let existing = r#"{"version":"0.2.0","configurations":[{"name":"Debug old","type":"lldb","request":"launch","program":"old","args":["a","b"]}]}"#;
    let command = FnReplace {
        profile: profile("go", Some("Debug old"), Target::Vscode, &["newprog"]),
    };
    let text = command.run(Some(existing)).unwrap();
    let doc = parse(&text);
    assert_eq!(doc["version"], Value::String("0.2.0".to_string()));
    let configurations = doc["configurations"].as_array().unwrap();
    assert_eq!(configurations.len(), 1);
    let entry = &configurations[0];
    assert_eq!(entry["name"].as_str(), Some("Debug old"));
    assert_eq!(entry["type"].as_str(), Some("go"));
    assert_eq!(entry["program"].as_str(), Some("newprog"));
    assert_eq!(entry["request"].as_str(), Some("launch"));
    assert!(entry.get("args").is_none());
    assert_eq!(entry.as_object().unwrap().len(), 4);
}

#[test]
fn add_to_secondary_file_wraps_entries_in_envelope() {
    let command = FnAdd { profile: profile("python", None, Target::Vscode, &["app.py", "-v"]) };
    let text = command.run(None).unwrap();
    let expected = parse(
        r#"{"version":"0.2.0","configurations":[{"name":"Debug app.py","type":"debugpy","request":"launch","program":"app.py","args":["-v"]}]}"#,
    );
    assert_eq!(parse(&text), expected);
}

#[test]
fn secondary_version_is_rewritten_to_the_constant() {
    let existing = r#"{"version":"9.9.9","configurations":[]}"#;
    let command = FnAdd { profile: profile("php", None, Target::Vscode, &["index.php"]) };
    let doc = parse(&command.run(Some(existing)).unwrap());
    assert_eq!(doc["version"].as_str(), Some("0.2.0"));
    assert_eq!(doc.as_object().unwrap().len(), 2);
}

#[test]
fn secondary_file_without_configurations_starts_empty() {
    let command = FnAdd { profile: profile("go", None, Target::Vscode, &["srv"]) };
    for existing in [r#"{"version":"0.2.0"}"#, r#"{"configurations":"none"}"#, "[1,2]", "7"] {
        let doc = parse(&command.run(Some(existing)).unwrap());
        let configurations = doc["configurations"].as_array().unwrap();
        assert_eq!(configurations.len(), 1);
        assert_eq!(configurations[0]["name"].as_str(), Some("Debug srv"));
    }
}

#[test]
fn add_without_program_is_refused() {
    for target in [Target::Zed, Target::Vscode] {
        let command = FnAdd { profile: profile("rust", None, target, &[]) };
        assert!(matches!(command.run(None), Err(ConfigError::NoProgram)));
        assert!(matches!(command.run(Some("not json")), Err(ConfigError::NoProgram)));
    }
}

#[test]
fn replace_without_program_is_refused() {
    for target in [Target::Zed, Target::Vscode] {
        let command = FnReplace { profile: profile("rust", None, target, &[]) };
        assert!(matches!(command.run(None), Err(ConfigError::NoProgram)));
    }
}

#[test]
fn add_of_taken_label_is_refused() {
    let first = FnAdd { profile: profile("rust", None, Target::Zed, &["myprog"]) };
    let text = first.run(None).unwrap();
    let second = FnAdd { profile: profile("go", Some("Debug myprog"), Target::Zed, &["other"]) };
    match second.run(Some(&text)) {
        Err(ConfigError::DuplicateLabel(label)) => assert_eq!(label, "Debug myprog"),
        other => panic!("unexpected {:?}", other),
    }
}

#[test]
fn add_of_taken_name_is_refused() {
    let first = FnAdd { profile: profile("rust", Some("run"), Target::Vscode, &["myprog"]) };
    let text = first.run(None).unwrap();
    let second = FnAdd { profile: profile("rust", Some("run"), Target::Vscode, &["myprog"]) };
    match second.run(Some(&text)) {
        Err(ConfigError::DuplicateName(name)) => assert_eq!(name, "run"),
        other => panic!("unexpected {:?}", other),
    }
}

#[test]
fn malformed_primary_file_is_a_parse_error() {
    let command = FnAdd { profile: profile("rust", None, Target::Zed, &["p"]) };
    assert!(matches!(command.run(Some("[{")), Err(ConfigError::Parse(_))));
    assert!(matches!(command.run(Some("")), Err(ConfigError::Parse(_))));
    assert!(matches!(command.run(Some(r#"{"label":"x"}"#)), Err(ConfigError::Parse(_))));
    let replace = FnReplace { profile: profile("rust", None, Target::Zed, &["p"]) };
    assert!(matches!(replace.run(Some("[] trailing")), Err(ConfigError::Parse(_))));
}

#[test]
fn malformed_secondary_file_is_a_parse_error() {
    let command = FnAdd { profile: profile("rust", None, Target::Vscode, &["p"]) };
    assert!(matches!(command.run(Some("{\"version\":")), Err(ConfigError::Parse(_))));
    let replace = FnReplace { profile: profile("rust", None, Target::Vscode, &["p"]) };
    assert!(matches!(replace.run(Some("")), Err(ConfigError::Parse(_))));
}

#[test]
fn parse_error_carries_the_parser_message() {
    let command = FnAdd { profile: profile("rust", None, Target::Zed, &["p"]) };
    let error = command.run(Some("[1,")).unwrap_err();
    let expected = serde_json::from_str::<Vec<Value>>("[1,").unwrap_err().to_string();
    assert_eq!(error.message(), expected);
}

#[test]
fn replace_appends_when_the_key_is_new() {
    let existing = r#"[{"label":"a","program":"x"},{"label":"b","program":"y"}]"#;
    let profile_c = profile("go", Some("c"), Target::Zed, &["z"]);
    let replaced = FnReplace { profile: profile_c }.run(Some(existing)).unwrap();
    let added = FnAdd { profile: profile("go", Some("c"), Target::Zed, &["z"]) }
        .run(Some(existing))
        .unwrap();
    assert_eq!(replaced, added);
    let doc = parse(&replaced);
    let entries = doc.as_array().unwrap();
    assert_eq!(entries.len(), 3);
    assert_eq!(entries[0], parse(r#"{"label":"a","program":"x"}"#));
    assert_eq!(entries[1], parse(r#"{"label":"b","program":"y"}"#));
    assert_eq!(entries[2]["label"].as_str(), Some("c"));
}

#[test]
fn replace_overwrites_in_place_when_the_key_exists() {
    let existing = r#"[{"label":"a","program":"x"},{"label":"b","program":"y","env":{"K":1}},{"label":"c","program":"z"}]"#;
    let command = FnReplace { profile: profile("ts", Some("b"), Target::Zed, &["new", "1", "2"]) };
    let doc = parse(&command.run(Some(existing)).unwrap());
    let entries = doc.as_array().unwrap();
    assert_eq!(entries.len(), 3);
    assert_eq!(entries[0], parse(r#"{"label":"a","program":"x"}"#));
    assert_eq!(
        entries[1],
        parse(r#"{"label":"b","adapter":"JavaScript","request":"launch","program":"new","args":["1","2"]}"#)
    );
    assert_eq!(entries[2], parse(r#"{"label":"c","program":"z"}"#));
}

#[test]
fn replace_touches_only_the_first_of_equal_keys() {
    let existing = r#"[{"label":"a","program":"1"},{"label":"a","program":"2"}]"#;
    let command = FnReplace { profile: profile("go", Some("a"), Target::Zed, &["new"]) };
    let doc = parse(&command.run(Some(existing)).unwrap());
    let entries = doc.as_array().unwrap();
    assert_eq!(entries.len(), 2);
    assert_eq!(entries[0]["program"].as_str(), Some("new"));
    assert_eq!(entries[1], parse(r#"{"label":"a","program":"2"}"#));
}

#[test]
fn entries_of_other_shapes_pass_through_untouched() {
    let existing = r#"[{"label":"keep","cwd":"/tmp","n":1.5,"flags":[true,null]},42,{"label":7}]"#;
    let command = FnAdd { profile: profile("c++", None, Target::Zed, &["a.out"]) };
    let doc = parse(&command.run(Some(existing)).unwrap());
    let entries = doc.as_array().unwrap();
    assert_eq!(entries.len(), 4);
    let before = parse(existing);
    assert_eq!(entries[..3], before.as_array().unwrap()[..]);
    assert_eq!(entries[3]["adapter"].as_str(), Some("CodeLLDB"));
}

#[test]
fn written_text_reads_back_as_the_same_collection() {
    let zed = FnAdd { profile: profile("rust", None, Target::Zed, &["one", "--flag"]) };
    let first = zed.run(None).unwrap();
    let again = FnReplace { profile: profile("rust", None, Target::Zed, &["one", "--flag"]) }
        .run(Some(&first))
        .unwrap();
    assert_eq!(first, again);

    let vscode = FnAdd { profile: profile("js", None, Target::Vscode, &["main.js"]) };
    let first = vscode.run(None).unwrap();
    let again = FnReplace { profile: profile("js", None, Target::Vscode, &["main.js"]) }
        .run(Some(&first))
        .unwrap();
    assert_eq!(first, again);
}

#[test]
fn config_path_names_the_file_of_the_target() {
    assert_eq!(
        profile("go", None, Target::Zed, &["p"]).config_path().unwrap(),
        ".zed/debug.json"
    );
    assert_eq!(
        profile("go", None, Target::Vscode, &["p"]).config_path().unwrap(),
        ".vscode/launch.json"
    );
    assert!(matches!(
        profile("go", None, Target::Zed, &[]).config_path(),
        Err(ConfigError::NoProgram)
    ));
    assert!(matches!(
        profile("go", None, Target::Vscode, &[]).config_path(),
        Err(ConfigError::NoProgram)
    ));
}

#[test]
fn default_target_is_the_primary_editor() {
    assert_eq!(Target::default(), Target::Zed);
}

#[test]
fn plain_add_checks_for_a_program() {
    let empty = tink::add::FnAdd { language: "go".to_string(), program_args: vec![] };
    assert!(matches!(empty.run(), Err(ConfigError::NoProgram)));
    let full = tink::add::FnAdd { language: "go".to_string(), program_args: vec!["p".to_string()] };
    assert!(full.run().is_ok());
}

#[test]
fn messages_are_exact() {
    assert_eq!(ConfigError::NoProgram.message(), "no program specified");
    assert_eq!(
        ConfigError::DuplicateLabel("Debug x".to_string()).message(),
        "profile with label 'Debug x' already exists"
    );
    assert_eq!(
        ConfigError::DuplicateName("n".to_string()).message(),
        "configuration with name 'n' already exists"
    );
    assert_eq!(ConfigError::Parse("bad".to_string()).message(), "bad");
    assert_eq!(ConfigError::Render("worse".to_string()).message(), "worse");
}
