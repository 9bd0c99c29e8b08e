//! Validation of a document file against a schema file, by path.
use vstd::prelude::*;

use crate::error::SchemaValidationError;

verus! {

/// Checks the document at `file_in_path` against the schema at
/// `json_schema_path`. Reading the files is left to the caller, so nothing
/// is checked here yet and the call succeeds.
pub fn validate_from_file(file_in_path: &str, json_schema_path: &str) -> (r: Result<
    (),
    SchemaValidationError,
>)
    ensures
        r is Ok,
{
    Ok(())
}

} // verus!
