//! Estimating the byte offset at which the value named by a JSON pointer
//! begins, by searching each segment's text in what is left of the document.
use vstd::prelude::*;
use vstd::string::StringSliceAdditionalSpecFns;

verus! {

/// The ASCII byte `/` that separates pointer segments.
pub const SLASH: u8 = 47;

/// The segments of `p` split on `/`: `n` separators give `n + 1` segments,
/// and a leading `/` gives a leading empty segment.
pub open spec fn split_segments(p: Seq<u8>) -> Seq<Seq<u8>>
    decreases p.len(),
{
    if p.len() == 0 {
        seq![Seq::empty()]
    } else {
        let prev = split_segments(p.drop_last());
        if p.last() == SLASH {
            prev.push(Seq::empty())
        } else {
            prev.update(prev.len() - 1, prev.last().push(p.last()))
        }
    }
}

/// `pat` stands in `s` at index `i`.
pub open spec fn occurs_at(s: Seq<u8>, pat: Seq<u8>, i: int) -> bool {
    0 <= i && i + pat.len() <= s.len() && s.subrange(i, i + pat.len()) == pat
}

/// `i` is the least index at which `pat` stands in `s`.
pub open spec fn is_first_occurrence(s: Seq<u8>, pat: Seq<u8>, i: int) -> bool {
    occurs_at(s, pat, i) && forall|j: int| 0 <= j < i ==> !#[trigger] occurs_at(s, pat, j)
}

/// The index of the first occurrence of `pat` in `s`, if there is one.
pub open spec fn first_occurrence(s: Seq<u8>, pat: Seq<u8>) -> Option<int> {
    if exists|i: int| is_first_occurrence(s, pat, i) {
        Some(choose|i: int| is_first_occurrence(s, pat, i))
    } else {
        None
    }
}

/// One step of the search: a segment found in the text from `cursor` on moves
/// the cursor to its first occurrence; a segment not found leaves it where it is.
pub open spec fn advance(text: Seq<u8>, cursor: int, seg: Seq<u8>) -> int {
    match first_occurrence(text.skip(cursor), seg) {
        Some(i) => cursor + i,
        None => cursor,
    }
}

/// The offset reached after searching the segments `segs` in turn.
pub open spec fn locate(segs: Seq<Seq<u8>>, text: Seq<u8>) -> int
    decreases segs.len(),
{
    if segs.len() == 0 {
        0
    } else {
        advance(text, locate(segs.drop_last(), text), segs.last())
    }
}

/// The offset estimated for `pointer` in `text`.
pub open spec fn pointer_offset(pointer: Seq<u8>, text: Seq<u8>) -> int {
    locate(split_segments(pointer), text)
}

/// Splitting always yields at least one segment.
pub proof fn lemma_split_nonempty(p: Seq<u8>)
    ensures
        split_segments(p).len() >= 1,
    decreases p.len(),
{
    if p.len() > 0 {
        lemma_split_nonempty(p.drop_last());
    }
}

/// Only one index is the first occurrence.
pub proof fn lemma_first_occurrence_unique(s: Seq<u8>, pat: Seq<u8>, i: int)
    requires
        is_first_occurrence(s, pat, i),
    ensures
        first_occurrence(s, pat) == Some(i),
{
    let k = choose|k: int| is_first_occurrence(s, pat, k);
    assert(is_first_occurrence(s, pat, k));
    if k < i {
        assert(!occurs_at(s, pat, k));
    } else if i < k {
        assert(!occurs_at(s, pat, i));
    }
}

/// The search never moves the cursor past the end of the text.
pub proof fn lemma_advance_bounded(text: Seq<u8>, cursor: int, seg: Seq<u8>)
    requires
        0 <= cursor <= text.len(),
    ensures
        cursor <= advance(text, cursor, seg) <= text.len(),
{
}

/// The offset located for any segments lies within the text.
pub proof fn lemma_locate_bounded(segs: Seq<Seq<u8>>, text: Seq<u8>)
    ensures
        0 <= locate(segs, text) <= text.len(),
    decreases segs.len(),
{
    if segs.len() > 0 {
        lemma_locate_bounded(segs.drop_last(), text);
        lemma_advance_bounded(text, locate(segs.drop_last(), text), segs.last());
    }
}

/// Whether `needle` stands in `haystack` at index `at`.
fn matches_at(haystack: &[u8], at: usize, needle: &[u8]) -> (r: bool)
    requires
        at + needle@.len() <= haystack@.len(),
    ensures
        r == (haystack@.subrange(at as int, at + needle@.len()) == needle@),
{
    let n = haystack.len();
    let mut k: usize = 0;
    while k < needle.len()
        invariant
            at + needle@.len() <= haystack@.len(),
            n == haystack@.len(),
            k <= needle@.len(),
            forall|t: int| 0 <= t < k ==> haystack@[at + t] == needle@[t],
        decreases needle@.len() - k,
    {
        if haystack[at + k] != needle[k] {
            assert(haystack@.subrange(at as int, at + needle@.len())[k as int] != needle@[k as int]);
            return false;
        }
        k = k + 1;
    }
    assert(haystack@.subrange(at as int, at + needle@.len()) =~= needle@);
    true
}

/// The first index, counted from `from`, at which `needle` stands in
/// `haystack[from..]`.
pub fn find_from(haystack: &[u8], from: usize, needle: &[u8]) -> (r: Option<usize>)
    requires
        from <= haystack@.len(),
    ensures
        r matches Some(i) ==> first_occurrence(haystack@.skip(from as int), needle@) == Some(
            i as int,
        ),
        r is None ==> first_occurrence(haystack@.skip(from as int), needle@) is None,
{
    let ghost s = haystack@.skip(from as int);
    let hl = haystack.len();
    let remaining = hl - from;
    if needle.len() > remaining {
        assert forall|i: int| !is_first_occurrence(s, needle@, i) by {
            assert(!occurs_at(s, needle@, i));
        }
        return None;
    }
    let last = remaining - needle.len();
    let mut j: usize = 0;
    loop
        invariant
            j <= last,
            hl == haystack@.len(),
            s == haystack@.skip(from as int),
            remaining == s.len(),
            last + needle@.len() == remaining,
            from + remaining == haystack@.len(),
            forall|k: int| 0 <= k < j ==> !#[trigger] occurs_at(s, needle@, k),
        ensures
            forall|k: int| 0 <= k <= last ==> !#[trigger] occurs_at(s, needle@, k),
        decreases last - j,
    {
        let found = matches_at(haystack, from + j, needle);
        assert(s.subrange(j as int, j + needle@.len()) =~= haystack@.subrange(
            from + j,
            from + j + needle@.len(),
        ));
        if found {
            assert(is_first_occurrence(s, needle@, j as int));
            proof {
                lemma_first_occurrence_unique(s, needle@, j as int);
            }
            return Some(j);
        }
        if j == last {
            break;
        }
        j = j + 1;
    }
    assert forall|i: int| !is_first_occurrence(s, needle@, i) by {
        if 0 <= i <= last {
            assert(!occurs_at(s, needle@, i));
        } else {
            assert(!occurs_at(s, needle@, i));
        }
    }
    None
}

/// Copies `bytes[lo..hi]`.
fn copy_range(bytes: &[u8], lo: usize, hi: usize) -> (r: Vec<u8>)
    requires
        lo <= hi <= bytes@.len(),
    ensures
        r@ == bytes@.subrange(lo as int, hi as int),
{
    let mut r: Vec<u8> = Vec::new();
    let mut k: usize = lo;
    while k < hi
        invariant
            lo <= k <= hi <= bytes@.len(),
            r@ == bytes@.subrange(lo as int, k as int),
        decreases hi - k,
    {
        r.push(bytes[k]);
        k = k + 1;
    }
    r
}

/// Estimates the byte offset of the value that `json_pointer` names in
/// `raw_file_contents`. Each `/`-separated segment is searched, in order, in
/// the text from the current offset on; a segment that is found moves the
/// offset to its first occurrence, one that is not is skipped.
pub fn calculate(json_pointer: &str, raw_file_contents: &str) -> (r: usize)
    ensures
        r == pointer_offset(json_pointer.spec_bytes(), raw_file_contents.spec_bytes()),
        r <= raw_file_contents.spec_bytes().len(),
{
    let p = json_pointer.as_bytes();
    let text = raw_file_contents.as_bytes();
    let n = text.len();
    let ghost pv = p@;
    let ghost tv = text@;
    let mut cursor: usize = 0;
    let mut seg_start: usize = 0;
    let mut i: usize = 0;
    proof {
        assert(pv.take(0) =~= Seq::<u8>::empty());
    }
    while i < p.len()
        invariant
            p@ == pv,
            text@ == tv,
            n == tv.len(),
            seg_start <= i <= pv.len(),
            split_segments(pv.take(i as int)).len() >= 1,
            split_segments(pv.take(i as int)).last() == pv.subrange(seg_start as int, i as int),
            cursor == locate(split_segments(pv.take(i as int)).drop_last(), tv),
            cursor <= tv.len(),
        decreases pv.len() - i,
    {
        let ghost segs = split_segments(pv.take(i as int));
        assert(pv.take(i + 1).drop_last() =~= pv.take(i as int));
        if p[i] == SLASH {
            let seg = copy_range(p, seg_start, i);
            match find_from(text, cursor, seg.as_slice()) {
                Some(k) => {
                    proof {
                        lemma_advance_bounded(tv, cursor as int, seg@);
                    }
                    cursor = cursor + k;
                },
                None => {},
            }
            proof {
                let next = split_segments(pv.take(i + 1));
                assert(next == segs.push(Seq::empty()));
                assert(next.drop_last() =~= segs);
                assert(segs =~= segs.drop_last().push(segs.last()));
                assert(pv.subrange(i + 1, i + 1) =~= Seq::<u8>::empty());
            }
            seg_start = i + 1;
        } else {
            proof {
                let next = split_segments(pv.take(i + 1));
                assert(next.drop_last() =~= segs.drop_last());
                assert(pv.subrange(seg_start as int, i + 1) =~= pv.subrange(
                    seg_start as int,
                    i as int,
                ).push(pv[i as int]));
            }
        }
        i = i + 1;
    }
    proof {
        assert(pv.take(pv.len() as int) =~= pv);
    }
    let ghost segs = split_segments(pv);
    let seg = copy_range(p, seg_start, p.len());
    match find_from(text, cursor, seg.as_slice()) {
        Some(k) => {
            proof {
                lemma_advance_bounded(tv, cursor as int, seg@);
            }
            cursor = cursor + k;
        },
        None => {},
    }
    proof {
        assert(segs =~= segs.drop_last().push(segs.last()));
    }
    cursor
}

/// The empty pointer names the start of the text.
pub proof fn lemma_empty_pointer_offset(text: Seq<u8>)
    ensures
        pointer_offset(Seq::empty(), text) == 0,
{
    let segs = split_segments(Seq::<u8>::empty());
    let s = text.skip(0);
    assert(segs.drop_last() =~= Seq::<Seq<u8>>::empty());
    assert(s.subrange(0, 0) =~= Seq::<u8>::empty());
    assert(is_first_occurrence(s, Seq::empty(), 0));
    lemma_first_occurrence_unique(s, Seq::empty(), 0);
    assert(locate(segs.drop_last(), text) == 0);
    assert(segs.last() == Seq::<u8>::empty());
    assert(advance(text, 0, Seq::empty()) == 0);
}

} // verus!
