//! The pipeline under the names of its unit helpers: ranges from pointers,
//! pointer offsets and line numbers.
use vstd::prelude::*;
use vstd::string::StringSliceAdditionalSpecFns;

pub use crate::parsing::{ParseErrorDiagnostic, ParsedContent};
pub use crate::validation::{SchemaValidator, ValidationDiagnostic};

use crate::diagnostic::{line_start_range, views_of, Diagnostic, Range};
use crate::validation_outcome;
use crate::diagnostic_range::{self, resolved_range};
use crate::error::SchemaValidationError;
use crate::json_pointer::{self, pointer_line};
use crate::line_number::{self, line_of, saturate_u32};
use crate::pointer_index::{self, pointer_offset};

verus! {

/// Validates `file_contents` against `json_schema`, as
/// [`crate::validate_liberally`] does.
pub fn schema_validated_filecontents(json_schema: &serde_json::Value, file_contents: &str) -> (r:
    Result<Vec<Diagnostic>, SchemaValidationError>)
    ensures
        r matches Ok(ds) ==> validation_outcome(*json_schema, file_contents@) == Some(views_of(ds@)),
        r is Err <==> validation_outcome(*json_schema, file_contents@) is None,
        r matches Err(e) ==> e is ValidatorCompilationError,
{
    crate::validate_liberally(json_schema, file_contents)
}

/// Resolves the ranges of diagnostics.
pub struct DiagnosticRange;

impl DiagnosticRange {
    /// The range of a diagnostic about the value `json_pointer` names.
    pub fn from_pointer(json_pointer: &str, file_contents: &str) -> (r: Range)
        ensures
            r == resolved_range(json_pointer.spec_bytes(), file_contents.spec_bytes()),
    {
        diagnostic_range::from_pointer(json_pointer, file_contents)
    }
}

/// The empty range at the start of the line on which the value that
/// `json_pointer` names is estimated to begin.
pub fn json_pointer_into_range(json_pointer: &str, raw_file_contents: &str) -> (r: Option<Range>)
    ensures
        r == Some(
            line_start_range(
                pointer_line(json_pointer.spec_bytes(), raw_file_contents.spec_bytes()),
            ),
        ),
{
    json_pointer::into_range(json_pointer, raw_file_contents)
}

/// Estimates byte offsets of JSON pointers.
pub struct PointerIndex;

impl PointerIndex {
    /// The estimated byte offset of the value `json_pointer` names.
    pub fn calculate(json_pointer: &str, raw_file_contents: &str) -> (r: usize)
        ensures
            r == pointer_offset(json_pointer.spec_bytes(), raw_file_contents.spec_bytes()),
    {
        pointer_index::calculate(json_pointer, raw_file_contents)
    }
}

/// Maps byte offsets to line numbers.
pub struct LineNumber;

impl LineNumber {
    /// The zero-based line of byte `index`.
    pub fn from_index(raw_file_contents: &str, index: usize) -> (r: u32)
        ensures
            r == saturate_u32(line_of(raw_file_contents.spec_bytes(), index as int) as int),
    {
        line_number::from_index(raw_file_contents, index)
    }
}

} // verus!
