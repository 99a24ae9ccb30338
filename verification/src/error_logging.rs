//! Error reports: every failure of a request handler is answered with a small
//! JSON object naming the library, the call chain, the file, the line and the
//! kind of error.
use vstd::prelude::*;
use vstd::string::*;
use crate::text::{hex_digit_lower, join, str_views};

verus! {

/// How a JSON serializer writes one character inside a string literal:
/// the quote and the backslash are escaped, the control characters get their
/// short escapes where JSON has one and a `\u00XX` escape otherwise, and every
/// other character stands for itself.
pub open spec fn json_escape_char(c: char) -> Seq<char> {
    if c == '"' {
        seq!['\\', '"']
    } else if c == '\\' {
        seq!['\\', '\\']
    } else if c == '\x08' {
        seq!['\\', 'b']
    } else if c == '\t' {
        seq!['\\', 't']
    } else if c == '\n' {
        seq!['\\', 'n']
    } else if c == '\x0c' {
        seq!['\\', 'f']
    } else if c == '\r' {
        seq!['\\', 'r']
    } else if (c as int) < 32 {
        seq!['\\', 'u', '0', '0', hex_digit_lower(c as int / 16), hex_digit_lower(c as int % 16)]
    } else {
        seq![c]
    }
}

/// The escaped body of a JSON string literal.
pub open spec fn json_escape(s: Seq<char>) -> Seq<char>
    decreases s.len(),
{
    if s.len() == 0 {
        Seq::empty()
    } else {
        json_escape(s.drop_last()) + json_escape_char(s.last())
    }
}

/// A JSON string literal for `s`, quotes included.
pub open spec fn json_string(s: Seq<char>) -> Seq<char> {
    seq!['"'] + json_escape(s) + seq!['"']
}

/// A JSON array of string literals, written without spaces.
pub open spec fn json_string_array(items: Seq<Seq<char>>) -> Seq<char> {
    "["@ + join(items.map_values(|s: Seq<char>| json_string(s)), ","@) + "]"@
}

/// The error report: a compact JSON object whose keys come in sorted order,
/// as a serializer with sorted maps writes it.
pub open spec fn error_json(
    library: Seq<char>,
    function: Seq<Seq<char>>,
    src_file: Seq<char>,
    line_num: Seq<char>,
    err_type: Seq<char>,
) -> Seq<char> {
    "{\"error_function\":"@ + json_string_array(function) + ",\"error_library\":"@
        + json_string(library) + ",\"error_line_number\":"@ + json_string(line_num)
        + ",\"error_src_file\":"@ + json_string(src_file) + ",\"error_type\":"@
        + json_string(err_type) + "}"@
}

/// `serde_json::to_string` on a string slice: serde_json writes a string as a
/// quoted literal with the escapes of `json_escape_char` (its `ESCAPE` table:
/// `\"`, `\\`, `\b`, `\t`, `\n`, `\f`, `\r`, and `\u00XX` with lower-case
/// digits for the other control bytes). Serializing a `str` into memory
/// cannot fail.
#[verifier::external_body]
pub(crate) fn json_quote(s: &str) -> (res: String)
    ensures
        res@ == json_string(s@),
{
    serde_json::to_string(s).unwrap()
}

/// Builds the JSON error report for a failure in `library`, reached through the
/// call chain `function`, at `src_file`:`line_num`, of kind `err_type`.
pub fn throw_json_error(
    library: &str,
    function: &Vec<&str>,
    src_file: &str,
    line_num: &str,
    err_type: &str,
) -> (res: String)
    ensures
        res@ == error_json(library@, str_views(function@), src_file@, line_num@, err_type@),
{
    let ghost names = str_views(function@);
    let ghost quoted = names.map_values(|s: Seq<char>| json_string(s));
    let mut res = String::new();
    res.append("{\"error_function\":");
    res.append("[");
    let ghost start = res@;
    let n = function.len();
    let mut i: usize = 0;
    while i < n
        invariant
            n == function@.len(),
            i <= n,
            names == str_views(function@),
            quoted == names.map_values(|s: Seq<char>| json_string(s)),
            res@ == start + join(quoted.take(i as int), ","@),
        decreases n - i,
    {
        let q = json_quote(function[i]);
        assert(q@ == quoted[i as int]);
        assert(quoted.take(i + 1).drop_last() =~= quoted.take(i as int));
        assert(quoted.take(i + 1).last() == quoted[i as int]);
        if i > 0 {
            res.append(",");
        }
        res.append(q.as_str());
        proof {
            if i == 0 {
                assert(quoted.take(1) =~= seq![quoted[0]]);
            }
        }
        i = i + 1;
    }
    assert(quoted.take(n as int) =~= quoted);
    res.append("]");
    res.append(",\"error_library\":");
    let q = json_quote(library);
    res.append(q.as_str());
    res.append(",\"error_line_number\":");
    let q = json_quote(line_num);
    res.append(q.as_str());
    res.append(",\"error_src_file\":");
    let q = json_quote(src_file);
    res.append(q.as_str());
    res.append(",\"error_type\":");
    let q = json_quote(err_type);
    res.append(q.as_str());
    res.append("}");
    res
}

/// The error report for a failure reached through a single named function.
pub open spec fn site_error(
    library: Seq<char>,
    function: Seq<char>,
    src_file: Seq<char>,
    line_num: Seq<char>,
    err_type: Seq<char>,
) -> Seq<char> {
    error_json(library, seq![function], src_file, line_num, err_type)
}

/// `throw_json_error` with a call chain of one function.
pub fn site_error_text(
    library: &str,
    function: &str,
    src_file: &str,
    line_num: &str,
    err_type: &str,
) -> (res: String)
    ensures
        res@ == site_error(library@, function@, src_file@, line_num@, err_type@),
{
    let chain = vec![function];
    assert(str_views(chain@) =~= seq![function@]);
    throw_json_error(library, &chain, src_file, line_num, err_type)
}

} // verus!
