use pur::diagnostic::{Diagnostic, DiagnosticSeverity, Position, Range};
use pur::error::SchemaValidationError;
use pur::json_pointer;
use pur::json_schema_validation::validate_from_file;
use pur::parsing::{ParseErrorDiagnostic, ParsedContent};
use pur::validate_liberally;
use pur::validation::{violation_diagnostics, SchemaValidator, ValidationDiagnostic};
use pur::validator::{json_pointer_into_range, schema_validated_filecontents};

const VALID_JSON: &str = r#"{
  "$schema": "here",
  "service": "api",
  "version": "1.2.3",
  "runtime": {
    "type": "docker",
    "docker": {
      "image": "nginx",
      "tag": "1.25"
    }
  },
  "ports": [
    { "containerPort": 8080, "protocol": "tcp" }
  ],
  "env": {
    "MODE": "production"
  }
}"#;

const INVALID_JSON_SYNTAX: &str = r#"{
  "service": "api",
  "version": "1.2.3"
  "runtime": {
    "type": "docker"
  }
}"#;

const JSON_WITH_SCHEMA_ERROR: &str = r#"{
  "$schema": "here",
  "service": "api",
  "version": "1.2.3",
  "runtime": {
    "type": "docker",
    "docker": {
      "image": "nginx",
      "tag": "1.25"
    }
  }
}"#;

const TEST_CONTROL_JSON: &str = r#"{
  "service": "api",
  "version": "1.2.3",
  "runtime": {
    "type": "docker",
    "docker": {
      "image": "nginx",
      "tag": "1.25"
    }
  },
  "ports": [
    { "containerPort": 8080, "protocol": "tcp" }
  ],
  "env": {
    "MODE": "production"
  }
}"#;

/// The small schema the library's tests fall back on.
fn minimal_schema() -> serde_json::Value {
    serde_json::from_str(
        r#"{
            "$schema": "http://json-schema.org/draft-07/schema#",
            "type": "object",
            "properties": {
                "service": { "type": "string" },
                "version": { "type": "string" }
            },
            "required": ["service"]
        }"#,
    )
    .unwrap()
}

/// A service description schema that the control document satisfies.
fn service_schema() -> serde_json::Value {
    serde_json::from_str(
        r#"{
            "$schema": "http://json-schema.org/draft-07/schema#",
            "type": "object",
            "properties": {
                "service": { "type": "string" },
                "version": { "type": "string" },
                "runtime": {
                    "type": "object",
                    "properties": {
                        "type": { "type": "string" },
                        "docker": {
                            "type": "object",
                            "properties": {
                                "image": { "type": "string" },
                                "tag": { "type": "string" }
                            }
                        }
                    },
                    "required": ["type"]
                },
                "ports": {
                    "type": "array",
                    "items": {
                        "type": "object",
                        "properties": {
                            "containerPort": { "type": "integer" },
                            "protocol": { "type": "string" }
                        }
                    }
                },
                "env": { "type": "object" }
            },
            "required": ["service", "version", "runtime"]
        }"#,
    )
    .unwrap()
}

fn schema_from(text: &str) -> serde_json::Value {
    serde_json::from_str(text).unwrap()
}

fn line_count(text: &str) -> u32 {
    text.lines().count() as u32
}

#[test]
fn json_schema_validation_validate_schema_works() {
    assert!(validate_from_file("document.json", "schema.json").is_ok());
}

#[test]
fn test_valid_json_passes_validation() {
    let schema = minimal_schema();
    let diagnostics = validate_liberally(&schema, VALID_JSON).unwrap();
    assert!(
        diagnostics.is_empty() || diagnostics.iter().all(|d| d.source.is_some()),
        "Expected no parse errors for valid JSON. Got {} diagnostics",
        diagnostics.len()
    );
}

#[test]
fn test_json_syntax_error_produces_diagnostic() {
    let schema = minimal_schema();
    let diagnostics = validate_liberally(&schema, INVALID_JSON_SYNTAX).unwrap();
    assert!(
        !diagnostics.is_empty(),
        "Expected at least one diagnostic for invalid JSON syntax"
    );
    let first_diagnostic = &diagnostics[0];
    assert!(
        !first_diagnostic.message.is_empty(),
        "Diagnostic message should not be empty"
    );
}

#[test]
fn test_schema_validation_error_produces_diagnostic() {
    let schema = minimal_schema();
    let diagnostics = validate_liberally(&schema, JSON_WITH_SCHEMA_ERROR).unwrap();
    if !diagnostics.is_empty() {
        assert!(
            diagnostics.iter().any(|d| d.source.is_some()),
            "Schema validation errors should have a source"
        );
    }
}

#[test]
fn test_json_pointer_resolution() {
    let test_json = "{\n  \"field1\": \"value1\",\n  \"field2\": {\n    \"nested\": \"value2\"\n  }\n}";
    let pointer = "/field2/nested";
    let range = json_pointer::into_range(pointer, test_json);
    if let Some(r) = range {
        assert!(
            r.start.line < line_count(test_json),
            "Range start line {} should be within document ({}  lines)",
            r.start.line,
            line_count(test_json)
        );
        assert!(
            r.end.line < line_count(test_json),
            "Range end line should be within document"
        );
    }
}

#[test]
fn test_diagnostic_range_is_valid() {
    let schema = minimal_schema();
    let diagnostics = validate_liberally(&schema, INVALID_JSON_SYNTAX).unwrap();
    if let Some(first_diagnostic) = diagnostics.first() {
        let range = first_diagnostic.range;
        let lines = line_count(INVALID_JSON_SYNTAX);
        assert!(
            range.start.line < lines,
            "Diagnostic range start line {} should be within document ({} lines)",
            range.start.line,
            lines
        );
        assert!(
            range.end.line < lines,
            "Diagnostic range end line should be within document"
        );
        assert!(
            range.start.line <= range.end.line,
            "Range start should not be after range end"
        );
    }
}

#[test]
fn test_empty_json_handles_gracefully() {
    let schema = minimal_schema();
    let result = validate_liberally(&schema, "");
    assert!(
        result.is_ok() || result.is_err(),
        "Empty JSON should be handled gracefully"
    );
}

#[test]
fn test_malformed_json_handles_gracefully() {
    let schema = minimal_schema();
    let malformed_inputs = vec!["{", "}", "{{}", "null", "[]", r#"{"key": }"#];
    for input in malformed_inputs {
        let result = validate_liberally(&schema, input);
        assert!(
            result.is_ok(),
            "Malformed JSON '{}' should produce diagnostics, not panic",
            input
        );
    }
}

#[test]
fn validator_validate_schema_works() {
    let schema = service_schema();
    let diagnostics = schema_validated_filecontents(&schema, TEST_CONTROL_JSON).unwrap();
    let expected_diagnostics: Vec<Diagnostic> = Vec::default();
    assert_eq!(diagnostics, expected_diagnostics);
}

#[test]
fn first_diagnostic_found() {
    let mut test_control_json = TEST_CONTROL_JSON.to_owned();
    test_control_json.remove(13);
    let schema = service_schema();
    let diagnostics = schema_validated_filecontents(&schema, &test_control_json);
    match diagnostics {
        Ok(e) => assert!(e.len() >= 1usize),
        Err(e) => panic!("{:?}", e),
    }
}

const TEST_ERROR_JSON: &str = r#"{
  "service": "api",
  "version": "1.2.3",
  "runtime": {
    "type": "docker",
    "ocker": {
      "image": "nginx",
      "tag": "1.25"
    }
  },
  "ports": [
    { "containerPort": 8080, "protocol": "tcp" }
  ],
  "env": {
    "MODE": "production"
  }
}"#;

/// A schema under which the service name of the error document is too short.
fn service_name_schema() -> serde_json::Value {
    serde_json::from_str(
        r#"{
            "type": "object",
            "properties": {
                "service": { "type": "string", "minLength": 4 },
                "runtime": { "type": "object" }
            }
        }"#,
    )
    .unwrap()
}

#[test]
fn json_pointer_to_range_works() {
    let test_error = TEST_ERROR_JSON.to_owned();
    let schema = service_name_schema();
    let diagnostics = schema_validated_filecontents(&schema, &test_error);
    let expected_range = Range {
        start: Position { line: 1, character: 0 },
        end: Position { line: 1, character: 0 },
    };
    match diagnostics {
        Ok(ds) => {
            let d = ds.iter().next().unwrap();
            let range = json_pointer_into_range(&d.source.clone().unwrap(), &test_error);
            match range {
                Some(r) => {
                    println!("line: {}, char: {}", r.start.line, r.start.character);
                    assert_eq!(range, Some(expected_range));
                }
                None => println!("None Found"),
            }
        }
        Err(e) => {
            panic!("Internal Error: {:?}", e);
        }
    }
}

#[test]
fn empty_text_gets_default_range() {
    let schema = minimal_schema();
    let diagnostics = validate_liberally(&schema, "").unwrap();
    assert_eq!(diagnostics.len(), 1);
    assert!(diagnostics[0].source.is_none());
    assert_eq!(diagnostics[0].range, Range::default());
    assert!(!diagnostics[0].message.is_empty());
}

#[test]
fn valid_json_gets_only_schema_diagnostics() {
    let schema = schema_from(r#"{"type": "object", "required": ["x"]}"#);
    let diagnostics = validate_liberally(&schema, "{\"a\": [1, 2]}").unwrap();
    assert_eq!(diagnostics.len(), 1);
    assert!(diagnostics.iter().all(|d| d.source.is_some()));
    assert_eq!(diagnostics[0].source.as_deref(), Some(""));
}

#[test]
fn malformed_json_gets_one_sourceless_diagnostic_at_reported_line() {
    let schema = minimal_schema();
    let text = "{\n  \"a\": 1,\n  \"b\" 2\n}";
    let diagnostics = validate_liberally(&schema, text).unwrap();
    let err = serde_json::from_str::<serde_json::Value>(text).unwrap_err();
    assert_eq!(diagnostics.len(), 1);
    assert!(diagnostics[0].source.is_none());
    assert_eq!(diagnostics[0].range.start.line as usize, err.line() - 1);
    assert_eq!(diagnostics[0].range.start.line, 2);
    assert_eq!(diagnostics[0].range.end.line, 2);
    assert_eq!(diagnostics[0].range.start.character, 0);
    assert_eq!(diagnostics[0].range.end.character as usize, err.column() - 1);
    assert_eq!(diagnostics[0].message, err.to_string());
    assert_eq!(diagnostics[0].severity, DiagnosticSeverity::Error);
}

#[test]
fn satisfying_document_gets_no_diagnostics() {
    let schema = minimal_schema();
    let diagnostics = validate_liberally(&schema, "{\"service\": \"api\", \"version\": \"1\"}").unwrap();
    assert!(diagnostics.is_empty());
}

#[test]
fn validation_is_repeatable() {
    let schema = schema_from(
        r#"{"type": "object", "properties": {"a": {"type": "string"}, "b": {"type": "string"}}}"#,
    );
    let text = "{\n\"a\": 1,\n\"b\": 2\n}";
    let first = validate_liberally(&schema, text).unwrap();
    let second = validate_liberally(&schema, text).unwrap();
    assert_eq!(first.len(), 2);
    assert_eq!(first, second);
}

#[test]
fn scenario_wrong_type_at_top_level() {
    let schema = schema_from(r#"{"type": "object", "properties": {"b": {"type": "string"}}}"#);
    let diagnostics = validate_liberally(&schema, "{\"a\":1,\"b\":2}").unwrap();
    assert_eq!(diagnostics.len(), 1);
    assert_eq!(diagnostics[0].source.as_deref(), Some("/b"));
    assert!(diagnostics[0].message.starts_with("Path /b, Error: "));
    assert_eq!(diagnostics[0].range, Range::default());
}

#[test]
fn scenario_malformed_member() {
    let schema = minimal_schema();
    let diagnostics = validate_liberally(&schema, "{ \"a\": }").unwrap();
    assert_eq!(diagnostics.len(), 1);
    assert!(diagnostics[0].source.is_none());
    assert!(!diagnostics[0].message.is_empty());
}

#[test]
fn scenario_nested_wrong_type() {
    let schema = schema_from(
        r#"{"type": "object", "properties": {"runtime": {"type": "object", "properties": {"type": {"type": "string"}}}}}"#,
    );
    let text = "{\n  \"runtime\": {\n    \"type\": 5\n  }\n}";
    let diagnostics = validate_liberally(&schema, text).unwrap();
    assert_eq!(diagnostics.len(), 1);
    assert_eq!(diagnostics[0].source.as_deref(), Some("/runtime/type"));
    assert_eq!(diagnostics[0].range.start.line, 2);
    assert_eq!(diagnostics[0].range.end.line, 2);
    assert_eq!(diagnostics[0].range.start.character, 0);
}

#[test]
fn schema_that_does_not_compile_is_an_error() {
    let schema = schema_from(r#"{"type": 5}"#);
    let result = validate_liberally(&schema, "{}");
    assert!(matches!(
        result,
        Err(SchemaValidationError::ValidatorCompilationError(_))
    ));
}

#[test]
fn schema_is_not_compiled_for_malformed_text() {
    let schema = schema_from(r#"{"type": 5}"#);
    let diagnostics = validate_liberally(&schema, "{").unwrap();
    assert_eq!(diagnostics.len(), 1);
    assert!(diagnostics[0].source.is_none());
}

#[test]
fn parsed_content_tells_json_from_text() {
    assert!(matches!(ParsedContent::new("[1, 2]"), Ok(ParsedContent::Valid(_))));
    match ParsedContent::new("[1, 2") {
        Ok(ParsedContent::ParseError(d)) => {
            assert!(d.source.is_none());
            assert_eq!(d.range.start.line, 0);
        }
        _ => panic!("expected a syntax error"),
    }
}

#[test]
fn parse_report_becomes_diagnostic() {
    let d = ParseErrorDiagnostic::from_report(3, 7, "bad".to_string()).into_diagnostic();
    assert_eq!(
        d,
        Diagnostic {
            range: Range {
                start: Position { line: 2, character: 0 },
                end: Position { line: 2, character: 6 },
            },
            severity: DiagnosticSeverity::Error,
            message: "bad".to_string(),
            source: None,
        }
    );
}

#[test]
fn parse_report_saturates_at_zero() {
    let report = ParseErrorDiagnostic::from_report(0, 0, String::new());
    assert_eq!(report.line, 0);
    assert_eq!(report.column, 0);
    let d = report.into_diagnostic();
    assert_eq!(d.range.end.character, 0);
}

#[test]
fn violation_diagnostic_message_and_range() {
    let text = "{\n  \"x\": {\n    \"y\": true\n  }\n}";
    let d = ValidationDiagnostic::new("/x/y".to_string(), "not a number".to_string(), text);
    assert_eq!(d.range.start.line, 2);
    let d = d.into_diagnostic();
    assert_eq!(d.message, "Path /x/y, Error: not a number");
    assert_eq!(d.source.as_deref(), Some("/x/y"));
    assert_eq!(d.severity, DiagnosticSeverity::Error);
}

#[test]
fn violation_diagnostics_keep_order() {
    let text = "{\n\"a\": 1,\n\"b\": 2\n}";
    let v = vec![
        ("/b".to_string(), "second".to_string()),
        ("/a".to_string(), "first".to_string()),
    ];
    let ds = violation_diagnostics(&v, text);
    assert_eq!(ds.len(), 2);
    assert_eq!(ds[0].message, "Path /b, Error: second");
    assert_eq!(ds[0].range.start.line, 2);
    assert_eq!(ds[1].message, "Path /a, Error: first");
    assert_eq!(ds[1].range.start.line, 1);
    assert!(violation_diagnostics(&Vec::new(), text).is_empty());
}

#[test]
fn schema_validator_reports_each_violation() {
    let schema = schema_from(r#"{"type": "array", "items": {"type": "integer"}}"#);
    let value: serde_json::Value = serde_json::from_str("[1, \"a\", 2.5]").unwrap();
    let text = "[1, \"a\", 2.5]";
    let ds = SchemaValidator::new(&schema, &value, text).validate().unwrap();
    assert_eq!(ds.len(), 2);
    assert_eq!(ds[0].source.as_deref(), Some("/1"));
    assert_eq!(ds[1].source.as_deref(), Some("/2"));
}

#[test]
fn recoverable_errors() {
    assert!(SchemaValidationError::ValidationFailed(2).is_recoverable());
    assert!(SchemaValidationError::JsonPointerResolutionError("p".to_string()).is_recoverable());
    assert!(SchemaValidationError::RangeCalculationError("p".to_string()).is_recoverable());
    assert!(!SchemaValidationError::EmptyFileContents.is_recoverable());
    assert!(!SchemaValidationError::ValidatorCompilationError("x".to_string()).is_recoverable());
    assert_eq!(
        SchemaValidationError::EmptyFileContents.to_diagnostic_range(),
        Range::default()
    );
}
