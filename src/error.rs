//! The errors of the validation pipeline, apart from problems of the
//! document itself, which are reported as diagnostics.
use vstd::prelude::*;

use crate::diagnostic::{line_start_range, Position, Range};

verus! {

/// serde_json's parse error, carried as it is.
#[verifier::external_type_specification]
#[verifier::external_body]
pub struct ExJsonError(serde_json::Error);

/// std's I/O error, carried as it is.
#[verifier::external_type_specification]
#[verifier::external_body]
pub struct ExIoError(std::io::Error);

/// std's UTF-8 conversion error, carried as it is.
#[verifier::external_type_specification]
#[verifier::external_body]
pub struct ExFromUtf8Error(std::string::FromUtf8Error);

/// What can go wrong in the pipeline itself, as opposed to problems of the
/// document, which become diagnostics.
#[derive(Debug)]
pub enum SchemaValidationError {
    /// JSON parsing failed when reading file contents
    JsonParseError(serde_json::Error),
    /// Schema file could not be read
    SchemaFileReadError(std::io::Error),
    /// The provided JSON schema itself is invalid
    InvalidSchemaError(String),
    /// JSON schema validation failed with this many errors
    ValidationFailed(usize),
    /// Failed to compile the JSON schema validator
    ValidatorCompilationError(String),
    /// JSON pointer path could not be resolved
    JsonPointerResolutionError(String),
    /// Failed to convert position data (e.g., usize to u32)
    PositionConversionError { line: usize, column: usize },
    /// Invalid JSON pointer format
    InvalidJsonPointer(String),
    /// Range calculation failed
    RangeCalculationError(String),
    /// File contents are empty or invalid
    EmptyFileContents,
    /// UTF-8 encoding error in file contents
    Utf8Error(std::string::FromUtf8Error),
    /// Generic diagnostic generation error
    DiagnosticGenerationError(String),
}

/// Errors after which processing can go on.
pub open spec fn recoverable(e: &SchemaValidationError) -> bool {
    ||| e is JsonPointerResolutionError
    ||| e is RangeCalculationError
    ||| e is ValidationFailed
}

impl SchemaValidationError {
    /// The range at which an error is shown: the start of the document.
    pub fn to_diagnostic_range(&self) -> (r: Range)
        ensures
            r == line_start_range(0),
    {
        Range {
            start: Position { line: 0, character: 0 },
            end: Position { line: 0, character: 0 },
        }
    }

    /// Whether processing can continue after this error.
    pub fn is_recoverable(&self) -> (r: bool)
        ensures
            r == recoverable(self),
    {
        match self {
            SchemaValidationError::JsonPointerResolutionError(_) => true,
            SchemaValidationError::RangeCalculationError(_) => true,
            SchemaValidationError::ValidationFailed(_) => true,
            _ => false,
        }
    }
}

} // verus!
