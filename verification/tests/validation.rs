use tab_runner::generation::generate_docker_file;
use tab_runner::json::{parse_document, JsonValue};
use tab_runner::language::LanguageFamily;
use tab_runner::schema::{get_json_schema, image_settings, log_parsers, SchemaViolation};
use tab_runner::validation::{
    config_from_document, typed_config, validate_json_config, Mismatch, ValidationError,
};
use tab_runner::{DockerSpecs, TestConfig};

fn text(s: &str) -> JsonValue {
    JsonValue::Text(s.to_string())
}

fn object(members: Vec<(&str, JsonValue)>) -> JsonValue {
    JsonValue::Object(members.into_iter().map(|(k, v)| (k.to_string(), v)).collect())
}

fn schema_messages(input: &str, language: &str) -> Vec<String> {
    match validate_json_config(input, language) {
        Err(ValidationError::Schema(messages)) => messages,
        other => panic!("expected a schema error, got {:?}", other),
    }
}

#[test]
fn js_scenario_validates_and_renders() {
    let result = generate_docker_file(
        "{\"test_cmd\":\"npm test\",\"log_parser_name\":\"jest\"}".to_string(),
        "https://example.com/j.git".to_string(),
        "0123abcd".to_string(),
        "JS".to_string(),
    );
    assert!(result.success);
    assert_eq!(result.error, None);
    let recipe = result.dockerfile.unwrap();
    assert!(recipe.contains("ubuntu:22.04"));
    assert!(recipe.contains("NODE_VERSION 20"));
    assert!(recipe.contains("pnpm@9.5.0"));
}

#[test]
fn rust_scenario_unknown_parser_is_a_schema_error() {
    let messages =
        schema_messages("{\"test_cmd\":\"cargo test\",\"log_parser_name\":\"nonexistent\"}", "Rust");
    assert_eq!(messages.len(), 1);
    assert!(messages[0].contains("log_parser_name"));
    assert!(messages[0].starts_with("At '/log_parser_name': "));
    assert!(messages[0].contains("nonexistent"));
}

#[test]
fn valid_document_becomes_the_typed_configuration() {
    let input = "{\"test_cmd\":\"cargo test\",\"log_parser_name\":\"cargo\",\
        \"pre_install\":[\"apt-get update\"],\"install\":[],\
        \"build\":[\"cargo build\",\"cargo test --no-run\"],\
        \"docker_specs\":{\"rust_version\":\"1.75\"}}";
    let config = validate_json_config(input, "Rust").unwrap();
    assert_eq!(
        config,
        TestConfig {
            test_cmd: "cargo test".to_string(),
            log_parser_name: "cargo".to_string(),
            pre_install: Some(vec!["apt-get update".to_string()]),
            install: Some(vec![]),
            build: Some(vec!["cargo build".to_string(), "cargo test --no-run".to_string()]),
            docker_specs: Some(DockerSpecs {
                ubuntu_version: None,
                node_version: None,
                pnpm_version: None,
                rust_version: Some("1.75".to_string()),
            }),
        }
    );
}

#[test]
fn minimal_document_has_no_optional_parts() {
    let config =
        validate_json_config("{\"test_cmd\":\"ctest\",\"log_parser_name\":\"doctest\"}", "C/CPP")
            .unwrap();
    assert_eq!(config.test_cmd, "ctest");
    assert_eq!(config.log_parser_name, "doctest");
    assert_eq!(config.pre_install, None);
    assert_eq!(config.install, None);
    assert_eq!(config.build, None);
    assert_eq!(config.docker_specs, None);
}

#[test]
fn missing_test_cmd_is_a_schema_error_at_the_root() {
    let messages = schema_messages("{\"log_parser_name\":\"jest\"}", "JS");
    assert!(!messages.is_empty());
    assert!(messages.iter().any(|m| m.starts_with("At 'root': ") && m.contains("test_cmd")));
}

#[test]
fn missing_log_parser_is_a_schema_error_at_the_root() {
    let messages = schema_messages("{\"test_cmd\":\"npm test\"}", "JS");
    assert!(!messages.is_empty());
    assert!(messages.iter().any(|m| m.starts_with("At 'root': ") && m.contains("log_parser_name")));
}

#[test]
fn empty_object_reports_both_missing_fields() {
    let messages = schema_messages("{}", "Rust");
    assert_eq!(messages.len(), 2);
    assert!(messages.iter().all(|m| m.starts_with("At 'root': ")));
}

#[test]
fn extra_top_level_key_is_rejected() {
    let messages = schema_messages(
        "{\"test_cmd\":\"npm test\",\"log_parser_name\":\"jest\",\"surprise\":1}",
        "JS",
    );
    assert_eq!(messages.len(), 1);
    assert!(messages[0].starts_with("At 'root': "));
    assert!(messages[0].contains("surprise"));
}

#[test]
fn extra_nested_key_is_rejected() {
    let messages = schema_messages(
        "{\"test_cmd\":\"cargo test\",\"log_parser_name\":\"cargo\",\
         \"docker_specs\":{\"node_version\":\"20\"}}",
        "Rust",
    );
    assert_eq!(messages.len(), 1);
    assert!(messages[0].starts_with("At '/docker_specs': "));
    assert!(messages[0].contains("node_version"));
}

#[test]
fn wrong_types_are_schema_errors_with_paths() {
    let messages = schema_messages(
        "{\"test_cmd\":5,\"log_parser_name\":\"jest\",\"build\":[\"ok\",7]}",
        "JS",
    );
    assert_eq!(messages.len(), 2);
    assert!(messages.iter().any(|m| m.starts_with("At '/test_cmd': ")));
    assert!(messages.iter().any(|m| m.starts_with("At '/build/1': ")));
}

#[test]
fn a_document_that_is_no_object_is_a_schema_error() {
    let messages = schema_messages("[1, 2]", "JS");
    assert_eq!(messages.len(), 1);
    assert!(messages[0].starts_with("At 'root': "));
}

#[test]
fn syntax_error_names_the_parse_failure() {
    match validate_json_config("{\"test_cmd\": ", "JS") {
        Err(ValidationError::Syntax(message)) => {
            assert!(message.contains("EOF"));
            let shown = ValidationError::Syntax(message.clone()).message();
            assert_eq!(shown, format!("Invalid JSON syntax: {}", message));
        }
        other => panic!("expected a syntax error, got {:?}", other),
    }
}

#[test]
fn parsers_depend_on_the_family() {
    let doc = "{\"test_cmd\":\"t\",\"log_parser_name\":\"cargo\"}";
    assert!(validate_json_config(doc, "Rust").is_ok());
    assert!(matches!(validate_json_config(doc, "JS"), Err(ValidationError::Schema(_))));
    assert!(matches!(validate_json_config(doc, "C/CPP"), Err(ValidationError::Schema(_))));
    let doc = "{\"test_cmd\":\"t\",\"log_parser_name\":\"googletest\"}";
    assert!(validate_json_config(doc, "C/CPP").is_ok());
    assert!(validate_json_config(doc, "Rust").is_err());
    let doc = "{\"test_cmd\":\"t\",\"log_parser_name\":\"agentic\"}";
    assert!(validate_json_config(doc, "Rust").is_ok());
    assert!(validate_json_config(doc, "C/CPP").is_ok());
    assert!(validate_json_config(doc, "JS").is_ok());
}

#[test]
fn unknown_family_uses_the_js_schema() {
    let doc = "{\"test_cmd\":\"t\",\"log_parser_name\":\"vitest\",\
               \"docker_specs\":{\"pnpm_version\":\"9\"}}";
    assert!(validate_json_config(doc, "Python").is_ok());
    assert!(validate_json_config(doc, "").is_ok());
    assert!(validate_json_config(doc, "Rust").is_err());
}

#[test]
fn every_listed_parser_validates_in_its_family() {
    for (name, family) in [
        ("Rust", LanguageFamily::Rust),
        ("C/CPP", LanguageFamily::CFamily),
        ("JS", LanguageFamily::JavaScript),
    ] {
        assert_eq!(LanguageFamily::from_name(name), family);
        for parser in log_parsers(family) {
            let doc = format!("{{\"test_cmd\":\"t\",\"log_parser_name\":\"{}\"}}", parser);
            assert!(validate_json_config(&doc, name).is_ok(), "{} in {}", parser, name);
        }
        for setting in image_settings(family) {
            let doc = format!(
                "{{\"test_cmd\":\"t\",\"log_parser_name\":\"agentic\",\
                 \"docker_specs\":{{\"{}\":\"1\"}}}}",
                setting
            );
            assert!(validate_json_config(&doc, name).is_ok(), "{} in {}", setting, name);
        }
    }
    assert_eq!(log_parsers(LanguageFamily::Rust), vec!["cargo", "agentic"]);
    assert_eq!(log_parsers(LanguageFamily::CFamily), vec!["doctest", "googletest", "agentic"]);
    assert_eq!(log_parsers(LanguageFamily::JavaScript).len(), 10);
}

#[test]
fn schema_error_message_joins_the_violations() {
    let error = ValidationError::Schema(vec!["At 'root': a".to_string(), "At '/b': c".to_string()]);
    assert_eq!(error.message(), "Validation failed:\nAt 'root': a\nAt '/b': c");
    let error = ValidationError::SchemaCompilation("bad".to_string());
    assert_eq!(error.message(), "Schema compilation error: bad");
    let error = ValidationError::Deserialization(Mismatch::MissingField);
    assert_eq!(
        error.message(),
        "Failed to parse validated JSON: the test command or the log parser is missing"
    );
}

#[test]
fn failed_generation_carries_the_error_text() {
    let result = generate_docker_file(
        "{\"test_cmd\":\"cargo test\",\"log_parser_name\":\"nonexistent\"}".to_string(),
        "u".to_string(),
        "c".to_string(),
        "Rust".to_string(),
    );
    assert!(!result.success);
    assert_eq!(result.dockerfile, None);
    let error = result.error.unwrap();
    assert!(error.starts_with("Validation failed:\nAt '/log_parser_name': "));
    let result =
        generate_docker_file("nonsense".to_string(), "u".to_string(), "c".to_string(), "JS".to_string());
    assert!(!result.success);
    assert!(result.error.unwrap().starts_with("Invalid JSON syntax: "));
}

#[test]
fn generation_is_repeatable() {
    let ask = || {
        generate_docker_file(
            "{\"test_cmd\":\"npm test\",\"log_parser_name\":\"mocha\",\"install\":[\"npm ci\"]}"
                .to_string(),
            "https://example.com/j.git".to_string(),
            "ff00".to_string(),
            "JS".to_string(),
        )
    };
    assert_eq!(ask(), ask());
}

#[test]
fn reported_violations_become_one_message_each() {
    let doc = object(vec![("test_cmd", text("t")), ("log_parser_name", text("jest"))]);
    let violations = vec![
        SchemaViolation { path: String::new(), message: "first".to_string() },
        SchemaViolation { path: "/build/0".to_string(), message: "second".to_string() },
    ];
    match config_from_document(&doc, &violations, "JS") {
        Err(ValidationError::Schema(messages)) => {
            assert_eq!(messages, vec!["At 'root': first", "At '/build/0': second"]);
        }
        other => panic!("expected a schema error, got {:?}", other),
    }
}

#[test]
fn a_document_the_validator_let_pass_is_still_held_to_the_schema() {
    let none: Vec<SchemaViolation> = Vec::new();
    let check = |doc: &JsonValue, language: &str| match config_from_document(doc, &none, language) {
        Err(ValidationError::Deserialization(mismatch)) => mismatch,
        other => panic!("expected a mismatch, got {:?}", other),
    };
    assert_eq!(check(&JsonValue::Null, "JS"), Mismatch::NotAnObject);
    assert_eq!(check(&JsonValue::Array(vec![]), "JS"), Mismatch::NotAnObject);
    assert_eq!(check(&object(vec![]), "JS"), Mismatch::MissingField);
    assert_eq!(check(&object(vec![("test_cmd", text("t"))]), "JS"), Mismatch::MissingField);
    assert_eq!(check(&object(vec![("log_parser_name", text("jest"))]), "JS"), Mismatch::MissingField);
    assert_eq!(
        check(&object(vec![("test_cmd", JsonValue::Bool(true)), ("log_parser_name", text("jest"))]), "JS"),
        Mismatch::WrongType
    );
    assert_eq!(
        check(&object(vec![("test_cmd", text("t")), ("log_parser_name", text("cargo"))]), "JS"),
        Mismatch::UnknownParser
    );
    assert_eq!(
        check(
            &object(vec![("test_cmd", text("t")), ("log_parser_name", text("jest")), ("x", text("y"))]),
            "JS"
        ),
        Mismatch::UnknownField
    );
    assert_eq!(
        check(
            &object(vec![
                ("test_cmd", text("t")),
                ("log_parser_name", text("jest")),
                ("build", JsonValue::Array(vec![text("a"), JsonValue::Null])),
            ]),
            "JS"
        ),
        Mismatch::WrongType
    );
    assert_eq!(
        check(
            &object(vec![
                ("test_cmd", text("t")),
                ("log_parser_name", text("cargo")),
                ("docker_specs", object(vec![("ubuntu_version", text("22.04"))])),
            ]),
            "Rust"
        ),
        Mismatch::UnknownField
    );
    assert_eq!(
        check(
            &object(vec![
                ("test_cmd", text("t")),
                ("log_parser_name", text("cargo")),
                ("docker_specs", object(vec![("rust_version", JsonValue::Bool(false))])),
            ]),
            "Rust"
        ),
        Mismatch::WrongType
    );
    assert_eq!(
        check(
            &object(vec![
                ("test_cmd", text("t")),
                ("log_parser_name", text("cargo")),
                ("docker_specs", text("1.75")),
            ]),
            "Rust"
        ),
        Mismatch::WrongType
    );
}

#[test]
fn typed_config_reads_every_member() {
    let doc = object(vec![
        ("docker_specs", object(vec![("node_version", text("18")), ("pnpm_version", text("8"))])),
        ("build", JsonValue::Array(vec![text("b")])),
        ("install", JsonValue::Array(vec![])),
        ("log_parser_name", text("tap")),
        ("test_cmd", text("npm test")),
    ]);
    let config = typed_config(&doc, LanguageFamily::JavaScript).unwrap();
    assert_eq!(config.test_cmd, "npm test");
    assert_eq!(config.log_parser_name, "tap");
    assert_eq!(config.pre_install, None);
    assert_eq!(config.install, Some(vec![]));
    assert_eq!(config.build, Some(vec!["b".to_string()]));
    let specs = config.docker_specs.unwrap();
    assert_eq!(specs.ubuntu_version, None);
    assert_eq!(specs.node_version, Some("18".to_string()));
    assert_eq!(specs.pnpm_version, Some("8".to_string()));
    assert_eq!(specs.rust_version, None);
}

#[test]
fn parse_document_reads_what_the_text_holds() {
    let doc = parse_document("{\"a\": [true, null, \"x\"], \"b\": {\"c\": \"d\"}}").unwrap();
    assert_eq!(
        doc.member("a"),
        Some(&JsonValue::Array(vec![JsonValue::Bool(true), JsonValue::Null, text("x")]))
    );
    assert_eq!(doc.member("b").unwrap().member("c"), Some(&text("d")));
    assert_eq!(doc.member("b").unwrap().member("c").unwrap().as_text(), Some(&"d".to_string()));
    assert_eq!(doc.member("z"), None);
    assert_eq!(text("x").member("a"), None);
    assert_eq!(doc.as_text(), None);
    assert!(parse_document("{").is_err());
    assert!(matches!(parse_document("12").unwrap(), JsonValue::Number(_)));
}

#[test]
fn schema_lists_the_family_parsers() {
    let schema = get_json_schema("Rust");
    let parsers = schema.member("properties").unwrap().member("log_parser_name").unwrap();
    assert_eq!(parsers.member("enum"), Some(&JsonValue::Array(vec![text("cargo"), text("agentic")])));
    assert_eq!(parsers.member("type"), Some(&text("string")));
    assert_eq!(schema.member("additionalProperties"), Some(&JsonValue::Bool(false)));
    assert_eq!(
        schema.member("required"),
        Some(&JsonValue::Array(vec![text("test_cmd"), text("log_parser_name")]))
    );
    let specs = schema.member("properties").unwrap().member("docker_specs").unwrap();
    assert!(specs.member("properties").unwrap().member("rust_version").is_some());
    assert!(specs.member("properties").unwrap().member("ubuntu_version").is_none());
    let js = get_json_schema("anything");
    let specs = js.member("properties").unwrap().member("docker_specs").unwrap();
    assert!(specs.member("properties").unwrap().member("ubuntu_version").is_some());
    assert!(specs.member("properties").unwrap().member("node_version").is_some());
    assert!(specs.member("properties").unwrap().member("pnpm_version").is_some());
    assert!(specs.member("properties").unwrap().member("rust_version").is_none());
}

#[test]
fn empty_settings_are_settings_without_versions() {
    let config = validate_json_config(
        "{\"test_cmd\":\"t\",\"log_parser_name\":\"jest\",\"docker_specs\":{}}",
        "JS",
    )
    .unwrap();
    assert_eq!(
        config.docker_specs,
        Some(DockerSpecs {
            ubuntu_version: None,
            node_version: None,
            pnpm_version: None,
            rust_version: None,
        })
    );
}

#[test]
fn null_is_no_list_and_no_string() {
    let messages = schema_messages(
        "{\"test_cmd\":\"t\",\"log_parser_name\":\"jest\",\"pre_install\":null}",
        "JS",
    );
    assert_eq!(messages.len(), 1);
    assert!(messages[0].starts_with("At '/pre_install': "));
    let messages = schema_messages("{\"test_cmd\":null,\"log_parser_name\":\"jest\"}", "JS");
    assert_eq!(messages.len(), 1);
    assert!(messages[0].starts_with("At '/test_cmd': "));
}

#[test]
fn text_outside_ascii_passes_through() {
    let config = validate_json_config(
        "{\"test_cmd\":\"pr\\u00fcfe \\\"alles\\\" \u{2713}\",\"log_parser_name\":\"agentic\",\
          \"build\":[\"echo \\u65e5\\u672c\"]}",
        "C/CPP",
    )
    .unwrap();
    assert_eq!(config.test_cmd, "pr\u{fc}fe \"alles\" \u{2713}");
    assert_eq!(config.build, Some(vec!["echo \u{65e5}\u{672c}".to_string()]));
}

#[test]
fn the_later_of_two_members_with_one_key_counts() {
    let config = validate_json_config(
        "{\"test_cmd\":\"first\",\"log_parser_name\":\"jest\",\"test_cmd\":\"second\"}",
        "JS",
    )
    .unwrap();
    assert_eq!(config.test_cmd, "second");
}
