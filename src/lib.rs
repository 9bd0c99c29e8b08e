//! Validation of JSON documents against a JSON Schema, producing
//! editor diagnostics anchored to lines of the document.
pub mod diagnostic;
pub mod diagnostic_range;
pub mod error;
pub mod json_pointer;
pub mod json_schema_validation;
pub mod line_number;
pub mod parsing;
pub mod pointer_index;
pub mod validation;
pub mod validator;

use vstd::prelude::*;

use crate::diagnostic::{views_of, Diagnostic, DiagnosticView};
use crate::error::SchemaValidationError;
use crate::parsing::{
    is_json_text, json_error_line, json_value_of, syntax_error_view, zero_based_line, ParsedContent,
};
use crate::validation::{
    lemma_violation_views_have_source, schema_compiles, violation_views, violations_of,
    SchemaValidator,
};

verus! {

/// What validating `text` against `schema` yields: for text that is not
/// JSON, the one diagnostic of its syntax error; for JSON, one diagnostic
/// for each violation of the schema; nothing when the schema does not
/// compile.
pub open spec fn validation_outcome(schema: serde_json::Value, text: Seq<char>) -> Option<
    Seq<DiagnosticView>,
> {
    if !is_json_text(text) {
        Some(seq![syntax_error_view(text)])
    } else if schema_compiles(schema) {
        Some(violation_views(violations_of(schema, json_value_of(text)), text))
    } else {
        None
    }
}

/// Validates `file_contents` against `json_schema`. Text that is not JSON
/// gives exactly one diagnostic, at the syntax error; JSON gives one
/// diagnostic for each violation of the schema. Only a schema that does
/// not compile is an error.
pub fn validate_liberally(json_schema: &serde_json::Value, file_contents: &str) -> (r: Result<
    Vec<Diagnostic>,
    SchemaValidationError,
>)
    ensures
        r matches Ok(ds) ==> validation_outcome(*json_schema, file_contents@) == Some(views_of(ds@)),
        r is Err <==> validation_outcome(*json_schema, file_contents@) is None,
        r matches Err(e) ==> e is ValidatorCompilationError,
{
    let parsed = ParsedContent::new(file_contents);
    match parsed {
        Ok(ParsedContent::Valid(json)) => SchemaValidator::new(
            json_schema,
            &json,
            file_contents,
        ).validate(),
        Ok(ParsedContent::ParseError(diagnostic)) => {
            let ds = vec![diagnostic];
            assert(views_of(ds@) =~= seq![diagnostic@]);
            Ok(ds)
        },
        Err(e) => Err(e),
    }
}

/// JSON text is run through the schema: every diagnostic it gets names
/// the path of a violation, so none has the shape of a syntax error.
pub proof fn lemma_json_text_gets_schema_diagnostics(schema: serde_json::Value, text: Seq<char>)
    requires
        is_json_text(text),
    ensures
        validation_outcome(schema, text) matches Some(ds) ==> forall|k: int|
            0 <= k < ds.len() ==> (#[trigger] ds[k]).source is Some,
{
    lemma_violation_views_have_source(violations_of(schema, json_value_of(text)), text);
}

/// Text that is not JSON gets exactly one diagnostic, without source, whose
/// range starts on the line before the one the parser reports.
pub proof fn lemma_syntax_error_single_diagnostic(schema: serde_json::Value, text: Seq<char>)
    requires
        !is_json_text(text),
    ensures
        validation_outcome(schema, text) matches Some(ds) && ds.len() == 1 && ds[0].source is None
            && ds[0].range.start.line == zero_based_line(json_error_line(text) as int),
{
}

/// A document in which the schema finds no violation gets no diagnostics.
pub proof fn lemma_satisfying_document_no_diagnostics(schema: serde_json::Value, text: Seq<char>)
    requires
        is_json_text(text),
        schema_compiles(schema),
        violations_of(schema, json_value_of(text)).len() == 0,
    ensures
        validation_outcome(schema, text) == Some(Seq::<DiagnosticView>::empty()),
{
    assert(violation_views(violations_of(schema, json_value_of(text)), text) =~= Seq::<
        DiagnosticView,
    >::empty());
}

/// Validation is repeatable: two runs on the same schema and text give the
/// same diagnostics in the same order.
pub proof fn lemma_validation_repeatable(
    schema: serde_json::Value,
    text: Seq<char>,
    ds1: Seq<Diagnostic>,
    ds2: Seq<Diagnostic>,
)
    requires
        validation_outcome(schema, text) == Some(views_of(ds1)),
        validation_outcome(schema, text) == Some(views_of(ds2)),
    ensures
        views_of(ds1) == views_of(ds2),
{
}

} // verus!
