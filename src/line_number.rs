//! Mapping a byte offset of a document to a zero-based line number.
use vstd::prelude::*;
use vstd::string::StringSliceAdditionalSpecFns;

verus! {

/// The ASCII newline byte.
pub const NEWLINE: u8 = 10;

/// Number of newline bytes in `b`.
pub open spec fn newline_count(b: Seq<u8>) -> nat
    decreases b.len(),
{
    if b.len() == 0 {
        0
    } else {
        newline_count(b.drop_last()) + if b.last() == NEWLINE {
            1nat
        } else {
            0nat
        }
    }
}

/// `offset` clamped to the length of `text`.
pub open spec fn clamp_offset(text: Seq<u8>, offset: int) -> int {
    if offset < text.len() {
        offset
    } else {
        text.len() as int
    }
}

/// The zero-based line holding byte `offset` of `text`: the number of
/// newlines strictly before the (clamped) offset.
pub open spec fn line_of(text: Seq<u8>, offset: int) -> nat {
    newline_count(text.take(clamp_offset(text, offset)))
}

/// `n` as a `u32`, saturating at `u32::MAX`.
pub open spec fn saturate_u32(n: int) -> u32 {
    if n <= u32::MAX {
        n as u32
    } else {
        u32::MAX
    }
}

/// Counts the newlines before byte `index` of `raw_file_contents`; an index
/// past the end counts the newlines of the whole text. A count beyond the
/// range of `u32` saturates.
pub fn from_index(raw_file_contents: &str, index: usize) -> (r: u32)
    ensures
        r == saturate_u32(line_of(raw_file_contents.spec_bytes(), index as int) as int),
{
    let bytes = raw_file_contents.as_bytes();
    let ghost text = raw_file_contents.spec_bytes();
    let safe_index: usize = if index < bytes.len() {
        index
    } else {
        bytes.len()
    };
    let mut count: u32 = 0;
    let mut i: usize = 0;
    while i < safe_index
        invariant
            bytes@ == text,
            safe_index == clamp_offset(text, index as int),
            i <= safe_index,
            count == saturate_u32(newline_count(text.take(i as int)) as int),
        decreases safe_index - i,
    {
        assert(text.take(i + 1).drop_last() =~= text.take(i as int));
        if bytes[i] == NEWLINE && count < u32::MAX {
            count = count + 1;
        }
        i = i + 1;
    }
    count
}

/// Offset 0 lies on line 0, and any offset at or past the end of the text
/// lies on the line after its last newline.
pub proof fn lemma_line_of_ends(text: Seq<u8>, offset: int)
    ensures
        line_of(text, 0) == 0,
        offset >= text.len() ==> line_of(text, offset) == newline_count(text),
{
    assert(text.take(0).len() == 0);
    assert(text.take(text.len() as int) =~= text);
}

/// A prefix holds no more newlines than the whole text, so every line
/// number found lies within the document.
pub proof fn lemma_line_of_within_text(text: Seq<u8>, offset: int)
    requires
        0 <= offset,
    ensures
        line_of(text, offset) <= newline_count(text),
    decreases text.len(),
{
    let k = clamp_offset(text, offset);
    if k == text.len() {
        assert(text.take(k) =~= text);
    } else {
        assert(text.take(k) =~= text.drop_last().take(k));
        assert(clamp_offset(text.drop_last(), k) == k);
        lemma_line_of_within_text(text.drop_last(), k);
    }
}

} // verus!
