//! The range shown for a diagnostic about the value a JSON pointer names.
use vstd::prelude::*;
use vstd::string::StringSliceAdditionalSpecFns;

use crate::diagnostic::{line_start_range, Range};
use crate::json_pointer::{self, pointer_line};

verus! {

/// The range shown for a diagnostic at `pointer` in `text`.
pub open spec fn resolved_range(pointer: Seq<u8>, text: Seq<u8>) -> Range {
    line_start_range(pointer_line(pointer, text))
}

/// Resolves the range of a diagnostic from its JSON pointer, falling back to
/// the empty range at the start of the document when no estimate is made.
pub fn from_pointer(json_pointer: &str, file_contents: &str) -> (r: Range)
    ensures
        r == resolved_range(json_pointer.spec_bytes(), file_contents.spec_bytes()),
{
    match json_pointer::into_range(json_pointer, file_contents) {
        Some(range) => range,
        None => Range::default(),
    }
}

} // verus!
