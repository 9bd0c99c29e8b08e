//! Turning a JSON pointer into the range of a document that it names.
use vstd::prelude::*;
use vstd::string::StringSliceAdditionalSpecFns;

use crate::diagnostic::{line_start_range, Position, Range};
use crate::line_number::{self, line_of, saturate_u32};
use crate::pointer_index::{self, pointer_offset};

verus! {

/// The line on which the value named by `pointer` is estimated to begin.
pub open spec fn pointer_line(pointer: Seq<u8>, text: Seq<u8>) -> u32 {
    saturate_u32(line_of(text, pointer_offset(pointer, text)) as int)
}

/// The range at which `json_pointer` is estimated to stand in
/// `raw_file_contents`: the start of the line holding the estimated offset,
/// with no width. The estimate always succeeds.
pub fn into_range(json_pointer: &str, raw_file_contents: &str) -> (r: Option<Range>)
    ensures
        r == Some(
            line_start_range(
                pointer_line(json_pointer.spec_bytes(), raw_file_contents.spec_bytes()),
            ),
        ),
{
    let index_summation = pointer_index::calculate(json_pointer, raw_file_contents);
    let line_number = line_number::from_index(raw_file_contents, index_summation);
    Some(
        Range {
            start: Position { line: line_number, character: 0 },
            end: Position { line: line_number, character: 0 },
        },
    )
}

} // verus!
