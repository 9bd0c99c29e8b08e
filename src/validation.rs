//! Running a document against a compiled schema and turning each
//! violation into a diagnostic at the range its JSON pointer resolves to.
use vstd::prelude::*;
use vstd::string::StringExecFns;
use vstd::utf8::encode_utf8;

use crate::diagnostic::{Diagnostic, DiagnosticSeverity, DiagnosticView, Range, views_of};
use crate::diagnostic_range::{self, resolved_range};
use crate::error::SchemaValidationError;

verus! {

/// Whether jsonschema compiles `schema` into a validator.
pub uninterp spec fn schema_compiles(schema: serde_json::Value) -> bool;

/// The violations of `schema` that jsonschema finds in `instance`, in the
/// order it enumerates them, each as its instance path and its message.
pub uninterp spec fn violations_of(schema: serde_json::Value, instance: serde_json::Value) -> Seq<
    (Seq<char>, Seq<char>),
>;

/// Relies on jsonschema::validator_for, which compiles `schema` (on failure,
/// the compiler's message), and on jsonschema::Validator::iter_errors, which
/// enumerates every violation of `instance`, each given as its instance path
/// and its message. The compiled validator stays inside: its type is generic
/// over a trait of jsonschema, which Verus cannot declare.
#[verifier::external_body]
fn schema_violations(schema: &serde_json::Value, instance: &serde_json::Value) -> (r: Result<
    Vec<(String, String)>,
    String,
>)
    ensures
        r is Ok <==> schema_compiles(*schema),
        r matches Ok(v) ==> violation_texts(v@) == violations_of(*schema, *instance),
{
    let validator = jsonschema::validator_for(schema).map_err(|e| e.to_string())?;
    let errors = validator.iter_errors(instance);
    Ok(errors.map(|e| (e.instance_path().to_string(), e.to_string())).collect())
}

/// The message of a violation at `path` described by `description`.
pub open spec fn violation_message(path: Seq<char>, description: Seq<char>) -> Seq<char> {
    "Path "@ + path + ", Error: "@ + description
}

/// The diagnostic of a violation at `path` of the document `text`.
pub open spec fn violation_view(path: Seq<char>, description: Seq<char>, text: Seq<char>) -> DiagnosticView {
    DiagnosticView {
        range: resolved_range(encode_utf8(path), encode_utf8(text)),
        severity: DiagnosticSeverity::Error,
        message: violation_message(path, description),
        source: Some(path),
    }
}

/// The diagnostics of the violations `v` of the document `text`, in order.
pub open spec fn violation_views(v: Seq<(Seq<char>, Seq<char>)>, text: Seq<char>) -> Seq<DiagnosticView> {
    v.map_values(|p: (Seq<char>, Seq<char>)| violation_view(p.0, p.1, text))
}

/// The paths and descriptions of a list of violations.
pub open spec fn violation_texts(v: Seq<(String, String)>) -> Seq<(Seq<char>, Seq<char>)> {
    v.map_values(|p: (String, String)| (p.0@, p.1@))
}

/// A violation with the range it resolves to.
pub struct ValidationDiagnostic {
    pub instance_path: String,
    pub error_message: String,
    pub range: Range,
}

impl ValidationDiagnostic {
    /// The violation at `instance_path` described by `error_message`, with the
    /// range of `file_contents` that the path resolves to.
    pub fn new(instance_path: String, error_message: String, file_contents: &str) -> (r: Self)
        ensures
            r.instance_path == instance_path,
            r.error_message == error_message,
            r.range == resolved_range(encode_utf8(instance_path@), encode_utf8(file_contents@)),
    {
        let range = diagnostic_range::from_pointer(instance_path.as_str(), file_contents);
        ValidationDiagnostic { instance_path, error_message, range }
    }

    /// The diagnostic shown for this violation.
    pub fn into_diagnostic(self) -> (r: Diagnostic)
        ensures
            r@.range == self.range,
            r@.severity == DiagnosticSeverity::Error,
            r@.message == violation_message(self.instance_path@, self.error_message@),
            r@.source == Some(self.instance_path@),
    {
        let message = String::from_str("Path ").concat(self.instance_path.as_str()).concat(
            ", Error: ",
        ).concat(self.error_message.as_str());
        Diagnostic {
            range: self.range,
            severity: DiagnosticSeverity::Error,
            message,
            source: Some(self.instance_path),
        }
    }
}

/// The diagnostics of the violations `violations` of the document
/// `file_contents`, one for each, in the same order.
pub fn violation_diagnostics(violations: &Vec<(String, String)>, file_contents: &str) -> (r: Vec<
    Diagnostic,
>)
    ensures
        views_of(r@) == violation_views(violation_texts(violations@), file_contents@),
{
    let ghost target = violation_views(violation_texts(violations@), file_contents@);
    let mut r: Vec<Diagnostic> = Vec::new();
    let mut i: usize = 0;
    while i < violations.len()
        invariant
            i <= violations@.len(),
            target == violation_views(violation_texts(violations@), file_contents@),
            views_of(r@) =~= target.take(i as int),
        decreases violations@.len() - i,
    {
        let path = violations[i].0.clone();
        let description = violations[i].1.clone();
        let d = ValidationDiagnostic::new(path, description, file_contents).into_diagnostic();
        proof {
            assert(d@ == target[i as int]);
            assert(views_of(r@.push(d)) =~= views_of(r@).push(d@));
            assert(target.take(i + 1) =~= target.take(i as int).push(target[i as int]));
        }
        r.push(d);
        i = i + 1;
    }
    assert(target.take(violations@.len() as int) =~= target);
    r
}

/// Validates a parsed document against a schema.
pub struct SchemaValidator<'a> {
    pub json_schema: &'a serde_json::Value,
    pub file_as_json: &'a serde_json::Value,
    pub file_contents: &'a str,
}

impl<'a> SchemaValidator<'a> {
    pub fn new(
        json_schema: &'a serde_json::Value,
        file_as_json: &'a serde_json::Value,
        file_contents: &'a str,
    ) -> (r: Self)
        ensures
            r.json_schema == json_schema,
            r.file_as_json == file_as_json,
            r.file_contents == file_contents,
    {
        SchemaValidator { json_schema, file_as_json, file_contents }
    }

    /// One diagnostic for each violation of the schema, in the order the
    /// schema validator enumerates them. A schema that does not compile is
    /// an error of its own, not a diagnostic.
    pub fn validate(self) -> (r: Result<Vec<Diagnostic>, SchemaValidationError>)
        ensures
            r is Ok <==> schema_compiles(*self.json_schema),
            r matches Ok(ds) ==> views_of(ds@) == violation_views(
                violations_of(*self.json_schema, *self.file_as_json),
                self.file_contents@,
            ),
            r matches Err(e) ==> e is ValidatorCompilationError,
    {
        match schema_violations(self.json_schema, self.file_as_json) {
            Ok(violations) => {
                let ds = violation_diagnostics(&violations, self.file_contents);
                Ok(ds)
            },
            Err(message) => Err(SchemaValidationError::ValidatorCompilationError(message)),
        }
    }
}

/// Diagnostics of schema violations all carry their path as source, so
/// none of them has the shape of a syntax error.
pub proof fn lemma_violation_views_have_source(v: Seq<(Seq<char>, Seq<char>)>, text: Seq<char>)
    ensures
        forall|k: int|
            0 <= k < v.len() ==> (#[trigger] violation_views(v, text)[k]).source == Some(v[k].0),
{
}

} // verus!
