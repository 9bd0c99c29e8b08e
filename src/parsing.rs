//! Parsing document text as JSON, and turning a syntax error into a
//! diagnostic at the position the parser reports.
use vstd::prelude::*;
use vstd::std_specs::iter::IteratorSpec;
use vstd::string::StrSliceExecFns;

use crate::diagnostic::{Diagnostic, DiagnosticSeverity, DiagnosticView, Position, Range};
use crate::error::SchemaValidationError;
use crate::line_number::saturate_u32;

verus! {

/// A parsed JSON value of serde_json, carried as it is.
#[verifier::external_type_specification]
#[verifier::external_body]
pub struct ExJsonValue(serde_json::Value);

/// Whether serde_json reads `s` as one JSON value.
pub uninterp spec fn is_json_text(s: Seq<char>) -> bool;

/// The value serde_json reads from `s`.
pub uninterp spec fn json_value_of(s: Seq<char>) -> serde_json::Value;

/// The one-based line that serde_json reports for a syntax error in `s`.
pub uninterp spec fn json_error_line(s: Seq<char>) -> usize;

/// The one-based column that serde_json reports for a syntax error in `s`.
pub uninterp spec fn json_error_column(s: Seq<char>) -> usize;

/// The message that serde_json gives for a syntax error in `s`.
pub uninterp spec fn json_error_message(s: Seq<char>) -> Seq<char>;

/// Relies on serde_json::from_str into a `serde_json::Value`, and on the
/// error's `line`, `column` and `Display`: each depends on the text alone.
#[verifier::external_body]
fn parse_json(text: &str) -> (r: Result<serde_json::Value, (usize, usize, String)>)
    ensures
        r is Ok <==> is_json_text(text@),
        r matches Ok(v) ==> v == json_value_of(text@),
        r matches Err(e) ==> e.0 == json_error_line(text@) && e.1 == json_error_column(text@)
            && e.2@ == json_error_message(text@),
{
    serde_json::from_str(text).map_err(|e| (e.line(), e.column(), e.to_string()))
}

/// A one-based line number reported by the parser, made zero-based; a
/// report of line 0 stays at line 0.
pub open spec fn zero_based_line(reported_line: int) -> u32 {
    saturate_u32(if reported_line >= 1 {
        reported_line - 1
    } else {
        0
    })
}

/// The character before a one-based column, never below 0.
pub open spec fn column_before(column: u32) -> u32 {
    if column >= 1 {
        (column - 1) as u32
    } else {
        0
    }
}

/// A syntax error at zero-based `line` and one-based `column`.
pub struct ParseErrorDiagnostic {
    pub line: u32,
    pub column: u32,
    pub message: String,
}

/// The diagnostic for a syntax error: from the start of its line to the
/// character before its column, with no source.
pub open spec fn parse_error_view(line: u32, column: u32, message: Seq<char>) -> DiagnosticView {
    DiagnosticView {
        range: Range {
            start: Position { line, character: 0 },
            end: Position { line, character: column_before(column) },
        },
        severity: DiagnosticSeverity::Error,
        message,
        source: None,
    }
}

/// The diagnostic of the syntax error that serde_json reports for `s`.
pub open spec fn syntax_error_view(s: Seq<char>) -> DiagnosticView {
    parse_error_view(
        zero_based_line(json_error_line(s) as int),
        saturate_u32(json_error_column(s) as int),
        json_error_message(s),
    )
}

impl ParseErrorDiagnostic {
    /// The syntax error that the parser reported at one-based `line` and
    /// `column`, with its message.
    pub fn from_report(line: usize, column: usize, message: String) -> (r: Self)
        ensures
            r.line == zero_based_line(line as int),
            r.column == saturate_u32(column as int),
            r.message == message,
    {
        let zero_based: usize = if line >= 1 {
            line - 1
        } else {
            0
        };
        let line: u32 = if zero_based <= u32::MAX as usize {
            zero_based as u32
        } else {
            u32::MAX
        };
        let column: u32 = if column <= u32::MAX as usize {
            column as u32
        } else {
            u32::MAX
        };
        ParseErrorDiagnostic { line, column, message }
    }

    /// The diagnostic shown for this syntax error.
    pub fn into_diagnostic(self) -> (r: Diagnostic)
        ensures
            r@ == parse_error_view(self.line, self.column, self.message@),
    {
        let end_character: u32 = if self.column >= 1 {
            self.column - 1
        } else {
            0
        };
        Diagnostic {
            range: Range {
                start: Position { line: self.line, character: 0 },
                end: Position { line: self.line, character: end_character },
            },
            severity: DiagnosticSeverity::Error,
            message: self.message,
            source: None,
        }
    }
}

/// A document read as JSON, or the diagnostic of its syntax error.
pub enum ParsedContent {
    Valid(serde_json::Value),
    ParseError(Diagnostic),
}

impl ParsedContent {
    /// Parses `file_contents` as JSON. A syntax error becomes a diagnostic at
    /// the line and column that the parser reports.
    pub fn new(file_contents: &str) -> (r: Result<Self, SchemaValidationError>)
        ensures
            r matches Ok(c) && (c is Valid <==> is_json_text(file_contents@)),
            r matches Ok(ParsedContent::Valid(v)) ==> v == json_value_of(file_contents@),
            r matches Ok(ParsedContent::ParseError(d)) ==> d@ == syntax_error_view(file_contents@),
    {
        match parse_json(file_contents) {
            Ok(json) => Ok(ParsedContent::Valid(json)),
            Err((line, column, message)) => {
                let report = ParseErrorDiagnostic::from_report(line, column, message);
                let d = report.into_diagnostic();
                Ok(ParsedContent::ParseError(d))
            },
        }
    }
}

/// The ASCII newline.
pub open spec fn is_newline(c: char) -> bool {
    c == '\n'
}

/// `k` is the index of the first newline of `s`.
pub open spec fn is_first_newline(s: Seq<char>, k: int) -> bool {
    0 <= k < s.len() && is_newline(s[k]) && forall|j: int| 0 <= j < k ==> !is_newline(#[trigger] s[j])
}

/// The first line of `s` as `str::lines` yields it: the text up to the first
/// newline, without a carriage return just before it; the whole text when it
/// holds no newline; nothing for the empty text.
pub open spec fn first_line_of(s: Seq<char>) -> Option<Seq<char>> {
    if s.len() == 0 {
        None
    } else if exists|k: int| is_first_newline(s, k) {
        let k = choose|k: int| is_first_newline(s, k);
        if k > 0 && s[k - 1] == '\r' {
            Some(s.take(k - 1))
        } else {
            Some(s.take(k))
        }
    } else {
        Some(s)
    }
}

/// Only one index holds the first newline.
proof fn lemma_first_newline_unique(s: Seq<char>, k: int)
    requires
        is_first_newline(s, k),
    ensures
        (choose|j: int| is_first_newline(s, j)) == k,
{
    let j = choose|j: int| is_first_newline(s, j);
    assert(is_first_newline(s, j));
    if j < k {
        assert(!is_newline(s[j]));
    } else if k < j {
        assert(!is_newline(s[k]));
    }
}

/// The first line of `content`, as `str::lines` yields it first.
fn first_line(content: &str) -> (r: Option<&str>)
    ensures
        r matches Some(l) ==> first_line_of(content@) == Some(l@),
        r is None ==> first_line_of(content@) is None,
{
    broadcast use vstd::string::axiom_spec_iter, vstd::string::next_postcondition;

    if content.is_empty() {
        return None;
    }
    let n = content.unicode_len();
    let mut chars = content.chars();
    let mut i: usize = 0;
    let mut after_cr = false;
    loop
        invariant
            n == content@.len(),
            n > 0,
            i <= n,
            chars.remaining() == content@.skip(i as int),
            forall|j: int| 0 <= j < i ==> !is_newline(#[trigger] content@[j]),
            after_cr == (i > 0 && content@[i - 1] == '\r'),
        decreases n - i,
    {
        let ghost before = chars.remaining();
        match chars.next() {
            None => {
                assert(before.len() == 0);
                assert(!exists|k: int| is_first_newline(content@, k));
                return Some(content);
            },
            Some(c) => {
                assert(c == content@[i as int]);
                if c == '\n' {
                    assert(is_first_newline(content@, i as int));
                    proof {
                        lemma_first_newline_unique(content@, i as int);
                    }
                    let end: usize = if after_cr {
                        i - 1
                    } else {
                        i
                    };
                    let line = content.substring_char(0, end);
                    assert(line@ =~= content@.take(end as int));
                    return Some(line);
                }
                assert(chars.remaining() =~= content@.skip(i + 1));
                after_cr = c == '\r';
                i = i + 1;
            },
        }
    }
}

/// What `regex` makes of `pattern` on `text`: nothing when the pattern is
/// not a regular expression, else the first capture group of the first
/// match, if there is a match that sets it.
pub uninterp spec fn regex_first_group(pattern: Seq<char>, text: Seq<char>) -> Option<
    Option<Seq<char>>,
>;

/// Relies on regex::Regex::new, then regex::Regex::captures: the result
/// depends on the pattern and the text alone.
#[verifier::external_body]
fn first_group(pattern: &str, text: &str) -> (r: Option<Option<String>>)
    ensures
        r is None ==> regex_first_group(pattern@, text@) is None,
        r matches Some(None) ==> regex_first_group(pattern@, text@) == Some(None::<Seq<char>>),
        r matches Some(Some(g)) ==> regex_first_group(pattern@, text@) == Some(Some(g@)),
{
    let regex = regex::Regex::new(pattern).ok()?;
    Some(regex.captures(text).and_then(|caps| caps.get(1)).map(|m| m.as_str().to_string()))
}

/// A first line `#$schema IDENTIFIER`, capturing the identifier.
pub const SHEBANG_PATTERN: &'static str = "^#\\$schema\\s+(\\S+)";

/// The schema identifier that a `#$schema IDENTIFIER` line at the very start
/// of `s` declares.
pub open spec fn shebang_reference(s: Seq<char>) -> Option<Seq<char>> {
    match first_line_of(s) {
        Some(l) => match regex_first_group(SHEBANG_PATTERN@, l) {
            Some(Some(id)) => Some(id),
            _ => None,
        },
        None => None,
    }
}

/// The schema identifier declared by a `#$schema IDENTIFIER` first line of
/// `content`, if there is one.
pub fn check_shebang_schema(content: &str) -> (r: Option<String>)
    ensures
        r matches Some(id) ==> shebang_reference(content@) == Some(id@),
        r is None ==> shebang_reference(content@) is None,
{
    match first_line(content) {
        Some(line) => match first_group(SHEBANG_PATTERN, line) {
            Some(Some(id)) => Some(id),
            _ => None,
        },
        None => None,
    }
}

/// The member of `v` under `key`, when `v` is an object that has one.
pub uninterp spec fn json_member(v: serde_json::Value, key: Seq<char>) -> Option<serde_json::Value>;

/// Relies on serde_json::Value::get with a string key: the member of an
/// object under `key`, which depends on the value and the key alone.
#[verifier::external_body]
fn member<'a>(content: &'a serde_json::Value, key: &str) -> (r: Option<&'a serde_json::Value>)
    ensures
        r matches Some(m) ==> json_member(*content, key@) == Some(*m),
        r is None ==> json_member(*content, key@) is None,
{
    content.get(key)
}

/// The compact JSON text of `v`.
pub uninterp spec fn json_text_of(v: serde_json::Value) -> Seq<char>;

/// Relies on serde_json::Value's `Display`: the compact JSON text of the
/// value, which depends on the value alone.
#[verifier::external_body]
fn json_text(v: &serde_json::Value) -> (r: String)
    ensures
        r@ == json_text_of(*v),
{
    v.to_string()
}

/// The schema identifier of the document `v`: the one that a first line
/// `#$schema IDENTIFIER` of its text declares, else the text of its
/// `$schema` member.
pub open spec fn schema_reference(v: serde_json::Value) -> Option<Seq<char>> {
    match shebang_reference(json_text_of(v)) {
        Some(id) => Some(id),
        None => match json_member(v, "$schema"@) {
            Some(m) => Some(json_text_of(m)),
            None => None,
        },
    }
}

/// The schema identifier of a document: the one its first line declares
/// after `#$schema`, else the text of its `$schema` member.
pub fn extract_schema_reference(content: &serde_json::Value) -> (r: Option<String>)
    ensures
        r matches Some(id) ==> schema_reference(*content) == Some(id@),
        r is None ==> schema_reference(*content) is None,
{
    let text = json_text(content);
    if let Some(schema) = check_shebang_schema(text.as_str()) {
        return Some(schema);
    }
    match member(content, "$schema") {
        Some(v) => Some(json_text(v)),
        None => None,
    }
}

} // verus!
