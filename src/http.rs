use vstd::prelude::*;
use vstd::string::StrSliceExecFns;
use vstd::string::StringExecFns;

verus! {

/// The request methods that the service's API uses.
#[derive(PartialEq, Eq, Structural, Clone, Copy, Debug)]
pub enum Method {
    Get,
    Post,
    Delete,
}

/// A list of name/value pairs as text.
pub open spec fn pairs_view(h: Seq<(String, String)>) -> Seq<(Seq<char>, Seq<char>)> {
    h.map_values(|p: (String, String)| (p.0@, p.1@))
}

/// A request that the client asks the transport to perform.
#[derive(Debug)]
pub struct HttpRequest {
    pub method: Method,
    pub url: String,
    pub headers: Vec<(String, String)>,
    pub body: Option<String>,
}

/// What came of a request that the transport performed.
#[derive(Debug)]
pub enum Reply {
    /// The request could not be delivered or no reply was received.
    Failed(String),
    /// A reply arrived with this status; its body, or why it could not be read.
    Received { status: u16, body: Result<String, String> },
}

/// Statuses of the success class.
pub open spec fn is_success(status: u16) -> bool {
    200 <= status < 300
}

pub fn status_is_success(status: u16) -> (r: bool)
    ensures
        r == is_success(status),
{
    200 <= status && status < 300
}

/// A character that may stand in a header value: visible ASCII, a space or
/// a tab, or any character outside ASCII.
pub open spec fn header_value_char(c: char) -> bool {
    (c as u32 >= 32 && c as u32 != 127) || c == '\t'
}

#[verifier::opaque]
pub open spec fn valid_header_value(s: Seq<char>) -> bool {
    forall|i: int| 0 <= i < s.len() ==> header_value_char(#[trigger] s[i])
}

/// Relies on reqwest::header::HeaderValue::from_str, which accepts exactly the
/// strings whose every byte is at least 32 and not 127, or is a tab.
#[verifier::external_body]
pub(crate) fn header_value_accepted(s: &str) -> (r: bool)
    ensures
        r == valid_header_value(s@),
{
    reqwest::header::HeaderValue::from_str(s).is_ok()
}

/// A character that may stand in a header name: an ASCII letter or digit,
/// or one of the token symbols.
pub open spec fn header_name_char(c: char) -> bool {
    ('a' <= c <= 'z') || ('A' <= c <= 'Z') || ('0' <= c <= '9') || c == '!' || c == '"' || c
        == '#' || c == '$' || c == '%' || c == '&' || c == '\'' || c == '*' || c == '+' || c
        == '-' || c == '.' || c == '^' || c == '_' || c == '`' || c == '|' || c == '~'
}

#[verifier::opaque]
pub open spec fn valid_header_name(s: Seq<char>) -> bool {
    &&& 0 < s.len() <= 65535
    &&& forall|i: int| 0 <= i < s.len() ==> header_name_char(#[trigger] s[i])
}

/// Relies on reqwest::header::HeaderName::from_bytes, which accepts exactly
/// the non-empty names of at most 65535 bytes whose every byte its
/// HEADER_CHARS table maps to a character (letters, digits, token symbols).
#[verifier::external_body]
pub(crate) fn header_name_accepted(s: &str) -> (r: bool)
    ensures
        r == valid_header_name(s@),
{
    reqwest::header::HeaderName::from_bytes(s.as_bytes()).is_ok()
}

pub open spec fn is_upper_ascii(c: char) -> bool {
    'A' <= c <= 'Z'
}

/// Two characters that are equal up to ASCII case.
pub open spec fn same_letter(a: char, b: char) -> bool {
    a == b || (is_upper_ascii(a) && b as u32 == a as u32 + 32) || (is_upper_ascii(b) && a as u32
        == b as u32 + 32)
}

/// Header names compare without regard to ASCII case.
pub open spec fn names_match(a: Seq<char>, b: Seq<char>) -> bool {
    a.len() == b.len() && forall|i: int| 0 <= i < a.len() ==> same_letter(#[trigger] a[i], b[i])
}

fn letters_match(a: char, b: char) -> (r: bool)
    ensures
        r == same_letter(a, b),
{
    a == b || ('A' <= a && a <= 'Z' && (b as u32) == (a as u32) + 32) || ('A' <= b && b <= 'Z'
        && (a as u32) == (b as u32) + 32)
}

pub fn header_names_match(a: &str, b: &str) -> (r: bool)
    ensures
        r == names_match(a@, b@),
{
    let n = a.unicode_len();
    if n != b.unicode_len() {
        return false;
    }
    let mut i: usize = 0;
    while i < n
        invariant
            n == a@.len(),
            n == b@.len(),
            i <= n,
            forall|j: int| 0 <= j < i ==> same_letter(#[trigger] a@[j], b@[j]),
        decreases n - i,
    {
        if !letters_match(a.get_char(i), b.get_char(i)) {
            return false;
        }
        i = i + 1;
    }
    true
}

/// The header list with every entry named `name` (in any case) taken out.
pub open spec fn without_header(h: Seq<(Seq<char>, Seq<char>)>, name: Seq<char>) -> Seq<
    (Seq<char>, Seq<char>),
>
    decreases h.len(),
{
    if h.len() == 0 {
        seq![]
    } else {
        let rest = without_header(h.drop_last(), name);
        if names_match(h.last().0, name) {
            rest
        } else {
            rest.push(h.last())
        }
    }
}

/// The header list with `name` set to `value`, replacing any earlier entry of
/// that name.
pub open spec fn with_header(h: Seq<(Seq<char>, Seq<char>)>, name: Seq<char>, value: Seq<char>) -> Seq<
    (Seq<char>, Seq<char>),
> {
    without_header(h, name).push((name, value))
}

pub fn set_header(headers: &Vec<(String, String)>, name: &str, value: &str) -> (r: Vec<
    (String, String),
>)
    ensures
        pairs_view(r@) == with_header(pairs_view(headers@), name@, value@),
{
    let mut out: Vec<(String, String)> = Vec::new();
    let mut i: usize = 0;
    while i < headers.len()
        invariant
            i <= headers.len(),
            pairs_view(out@) == without_header(pairs_view(headers@.take(i as int)), name@),
        decreases headers.len() - i,
    {
        proof {
            assert(headers@.take(i + 1).drop_last() =~= headers@.take(i as int));
            assert(pairs_view(headers@.take(i + 1)).drop_last() =~= pairs_view(
                headers@.take(i as int),
            ));
        }
        let entry = &headers[i];
        if !header_names_match(entry.0.as_str(), name) {
            let pair = (entry.0.clone(), entry.1.clone());
            out.push(pair);
            proof {
                assert(pairs_view(out@) =~= pairs_view(out@.drop_last()).push(
                    (entry.0@, entry.1@),
                ));
            }
        }
        i = i + 1;
    }
    proof {
        assert(headers@.take(headers@.len() as int) =~= headers@);
    }
    let pair = (String::from_str(name), String::from_str(value));
    out.push(pair);
    proof {
        assert(pairs_view(out@) =~= pairs_view(out@.drop_last()).push((name@, value@)));
    }
    out
}

} // verus!
