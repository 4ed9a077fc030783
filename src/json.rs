use crate::collection::CollectionView;
use crate::collection::metadata_view;
use crate::http::pairs_view;
use crate::collection::Collection;
use crate::error::ChromaClientError;
use vstd::prelude::*;
use vstd::string::StringExecFns;

verus! {

pub open spec fn hex_digit(d: nat) -> char {
    seq!['0', '1', '2', '3', '4', '5', '6', '7', '8', '9', 'a', 'b', 'c', 'd', 'e', 'f'][d as int]
}

/// How one character stands in a JSON string literal: the quote and the
/// backslash are escaped, controls take their short escape or `\u00XX`
/// with lowercase hex digits, and every other character stands as it is.
pub open spec fn escape_char(c: char) -> Seq<char> {
    if c == '"' {
        seq!['\\', '"']
    } else if c == '\\' {
        seq!['\\', '\\']
    } else if c == '\u{8}' {
        seq!['\\', 'b']
    } else if c == '\t' {
        seq!['\\', 't']
    } else if c == '\n' {
        seq!['\\', 'n']
    } else if c == '\u{c}' {
        seq!['\\', 'f']
    } else if c == '\r' {
        seq!['\\', 'r']
    } else if (c as u32) < 32 {
        seq![
            '\\',
            'u',
            '0',
            '0',
            hex_digit((c as u32 / 16) as nat),
            hex_digit((c as u32 % 16) as nat),
        ]
    } else {
        seq![c]
    }
}

pub open spec fn escaped(s: Seq<char>) -> Seq<char>
    decreases s.len(),
{
    if s.len() == 0 {
        seq![]
    } else {
        escaped(s.drop_last()) + escape_char(s.last())
    }
}

/// The JSON string literal that stands for `s`.
pub open spec fn json_quoted(s: Seq<char>) -> Seq<char> {
    seq!['"'] + escaped(s) + seq!['"']
}

/// The JSON text of the member named `key` of the object that `text` holds;
/// `None` where `text` is no JSON object or has no such member.
pub uninterp spec fn json_member(text: Seq<char>, key: Seq<char>) -> Option<Seq<char>>;

/// The string that the JSON text `text` holds, where it holds a string.
pub uninterp spec fn json_string_value(text: Seq<char>) -> Option<Seq<char>>;

/// The unsigned 64-bit integer that the JSON text `text` holds, where it holds one.
pub uninterp spec fn json_u64_value(text: Seq<char>) -> Option<u64>;

/// The JSON texts of the elements of the array that `text` holds, in order.
pub uninterp spec fn json_items(text: Seq<char>) -> Option<Seq<Seq<char>>>;

/// The names and the JSON texts of the members of the object that `text`
/// holds, in the order in which serde_json's map walks them.
pub uninterp spec fn json_entries(text: Seq<char>) -> Option<Seq<(Seq<char>, Seq<char>)>>;

/// Relies on serde_json::to_string, which writes a string as a JSON string
/// literal, escaping by its ESCAPE table and `\u00XX` for other controls,
/// and cannot fail on one.
#[verifier::external_body]
fn quote(s: &str) -> (r: String)
    ensures
        r@ == json_quoted(s@),
{
    serde_json::to_string(s).unwrap_or_default()
}

/// Relies on serde_json::from_str into a Value, Value::get with a member
/// name (`None` on anything but an object), and Value's Display, which writes
/// the member back as compact JSON text.
#[verifier::external_body]
fn member(text: &str, key: &str) -> (r: Option<String>)
    ensures
        r.is_some() == json_member(text@, key@).is_some(),
        r.is_some() ==> r->Some_0@ == json_member(text@, key@)->Some_0,
{
    let v = serde_json::from_str::<serde_json::Value>(text).ok()?;
    v.get(key).map(|m| m.to_string())
}

/// Relies on serde_json::from_str into a String.
#[verifier::external_body]
fn string_value(text: &str) -> (r: Option<String>)
    ensures
        r.is_some() == json_string_value(text@).is_some(),
        r.is_some() ==> r->Some_0@ == json_string_value(text@)->Some_0,
{
    serde_json::from_str::<String>(text).ok()
}

/// Relies on serde_json::from_str into a u64.
#[verifier::external_body]
fn u64_value(text: &str) -> (r: Option<u64>)
    ensures
        r == json_u64_value(text@),
{
    serde_json::from_str::<u64>(text).ok()
}

/// Relies on serde_json::from_str into a Vec of Value, each element written
/// back as JSON text by Value's Display.
#[verifier::external_body]
fn items(text: &str) -> (r: Option<Vec<String>>)
    ensures
        r.is_some() == json_items(text@).is_some(),
        r.is_some() ==> r->Some_0@.map_values(|s: String| s@) == json_items(text@)->Some_0,
{
    let v = serde_json::from_str::<Vec<serde_json::Value>>(text).ok()?;
    Some(v.iter().map(|e| e.to_string()).collect())
}

/// Relies on serde_json::from_str into a serde_json::Map, each member's value
/// written back as JSON text by Value's Display.
#[verifier::external_body]
fn entries(text: &str) -> (r: Option<Vec<(String, String)>>)
    ensures
        r.is_some() == json_entries(text@).is_some(),
        r.is_some() ==> r->Some_0@.map_values(|p: (String, String)| (p.0@, p.1@))
            == json_entries(text@)->Some_0,
{
    let m = serde_json::from_str::<serde_json::Map<String, serde_json::Value>>(text).ok()?;
    Some(m.iter().map(|(k, v)| (k.clone(), v.to_string())).collect())
}

/// `"k":"v"` for one metadata entry.
pub open spec fn member_json(k: Seq<char>, v: Seq<char>) -> Seq<char> {
    json_quoted(k) + ":"@ + json_quoted(v)
}

/// The entries written as object members, separated by commas.
pub open spec fn members_json(es: Seq<(Seq<char>, Seq<char>)>) -> Seq<char>
    decreases es.len(),
{
    if es.len() == 0 {
        seq![]
    } else if es.len() == 1 {
        member_json(es[0].0, es[0].1)
    } else {
        members_json(es.drop_last()) + ","@ + member_json(es.last().0, es.last().1)
    }
}

/// Metadata as JSON: `null`, or an object of string members in the given order.
pub open spec fn metadata_json(m: Option<Seq<(Seq<char>, Seq<char>)>>) -> Seq<char> {
    match m {
        None => "null"@,
        Some(es) => "{"@ + members_json(es) + "}"@,
    }
}

pub open spec fn bool_json(b: bool) -> Seq<char> {
    if b {
        "true"@
    } else {
        "false"@
    }
}

/// The body of a collection-creation request.
pub open spec fn create_body_json(
    name: Seq<char>,
    m: Option<Seq<(Seq<char>, Seq<char>)>>,
    get_or_create: bool,
) -> Seq<char> {
    "{\"name\":"@ + json_quoted(name) + ",\"metadata\":"@ + metadata_json(m)
        + ",\"get_or_create\":"@ + bool_json(get_or_create) + "}"@
}

pub fn encode_metadata(m: &Option<Vec<(String, String)>>) -> (r: String)
    ensures
        r@ == metadata_json(metadata_view(*m)),
{
    match m {
        None => String::from_str("null"),
        Some(es) => {
            let mut out = String::from_str("{");
            let mut i: usize = 0;
            while i < es.len()
                invariant
                    i <= es.len(),
                    out@ == "{"@ + members_json(pairs_view(es@.take(i as int))),
                decreases es.len() - i,
            {
                let ghost before = out@;
                proof {
                    assert(pairs_view(es@.take(i + 1)).drop_last() =~= pairs_view(
                        es@.take(i as int),
                    ));
                }
                if i > 0 {
                    out.append(",");
                }
                let k = quote(es[i].0.as_str());
                let v = quote(es[i].1.as_str());
                out.append(k.as_str());
                out.append(":");
                out.append(v.as_str());
                proof {
                    let vs = pairs_view(es@.take(i + 1));
                    assert(vs.last() == (es@[i as int].0@, es@[i as int].1@));
                    if i == 0 {
                        assert(vs.len() == 1);
                        assert(members_json(pairs_view(es@.take(0))) =~= seq![]);
                        assert(out@ =~= "{"@ + members_json(vs));
                    } else {
                        assert(out@ =~= "{"@ + members_json(vs));
                    }
                }
                i = i + 1;
            }
            proof {
                assert(es@.take(es@.len() as int) =~= es@);
            }
            out.append("}");
            out
        },
    }
}

pub fn create_collection_body(
    name: &str,
    metadata: &Option<Vec<(String, String)>>,
    get_or_create: bool,
) -> (r: String)
    ensures
        r@ == create_body_json(name@, metadata_view(*metadata), get_or_create),
{
    let mut out = String::from_str("{\"name\":");
    let q = quote(name);
    out.append(q.as_str());
    out.append(",\"metadata\":");
    let m = encode_metadata(metadata);
    out.append(m.as_str());
    out.append(",\"get_or_create\":");
    if get_or_create {
        out.append("true");
    } else {
        out.append("false");
    }
    out.append("}");
    out
}

/// The string held by the member `key` of the object in `body`.
pub open spec fn string_member(body: Seq<char>, key: Seq<char>) -> Option<Seq<char>> {
    match json_member(body, key) {
        Some(t) => json_string_value(t),
        None => None,
    }
}

/// The entries with each value read as a JSON string; `None` if one is not.
pub open spec fn string_entries(es: Seq<(Seq<char>, Seq<char>)>) -> Option<
    Seq<(Seq<char>, Seq<char>)>,
>
    decreases es.len(),
{
    if es.len() == 0 {
        Some(seq![])
    } else {
        match (string_entries(es.drop_last()), json_string_value(es.last().1)) {
            (Some(r), Some(v)) => Some(r.push((es.last().0, v))),
            _ => None,
        }
    }
}

/// Metadata read from the member's JSON text: absent or `null` is no
/// metadata, an object of strings is its entries, anything else is
/// malformed (outer `None`).
pub open spec fn metadata_of(member: Option<Seq<char>>) -> Option<
    Option<Seq<(Seq<char>, Seq<char>)>>,
> {
    match member {
        None => Some(None),
        Some(t) => if t == "null"@ {
            Some(None)
        } else {
            match json_entries(t) {
                None => None,
                Some(es) => match string_entries(es) {
                    None => None,
                    Some(m) => Some(Some(m)),
                },
            }
        },
    }
}

/// The collection that a body describes: `name` and `id` must be strings,
/// `metadata` is optional.
pub open spec fn collection_of(body: Seq<char>) -> Option<CollectionView> {
    match (
        string_member(body, "name"@),
        string_member(body, "id"@),
        metadata_of(json_member(body, "metadata"@)),
    ) {
        (Some(n), Some(i), Some(m)) => Some((n, i, m)),
        _ => None,
    }
}

/// The collections that a body holding an array of them describes.
pub open spec fn collections_of_items(ts: Seq<Seq<char>>) -> Option<Seq<CollectionView>>
    decreases ts.len(),
{
    if ts.len() == 0 {
        Some(seq![])
    } else {
        match (collections_of_items(ts.drop_last()), collection_of(ts.last())) {
            (Some(r), Some(c)) => Some(r.push(c)),
            _ => None,
        }
    }
}

pub open spec fn collections_of(body: Seq<char>) -> Option<Seq<CollectionView>> {
    match json_items(body) {
        Some(ts) => collections_of_items(ts),
        None => None,
    }
}

/// The heartbeat that a body reports.
pub open spec fn heartbeat_of(body: Seq<char>) -> Option<u64> {
    match json_member(body, "nanosecond heartbeat"@) {
        Some(t) => json_u64_value(t),
        None => None,
    }
}

pub open spec fn is_parse_error<T>(r: Result<T, ChromaClientError>) -> bool {
    r is Err && r->Err_0 is ResponseParseError
}

fn read_string_member(body: &str, key: &str) -> (r: Option<String>)
    ensures
        r.is_some() == string_member(body@, key@).is_some(),
        r.is_some() ==> r->Some_0@ == string_member(body@, key@)->Some_0,
{
    match member(body, key) {
        Some(t) => string_value(t.as_str()),
        None => None,
    }
}

fn read_string_entries(es: &Vec<(String, String)>) -> (r: Option<Vec<(String, String)>>)
    ensures
        r.is_some() == string_entries(pairs_view(es@)).is_some(),
        r.is_some() ==> pairs_view(r->Some_0@) == string_entries(pairs_view(es@))->Some_0,
{
    let mut out: Vec<(String, String)> = Vec::new();
    let mut i: usize = 0;
    while i < es.len()
        invariant
            i <= es.len(),
            string_entries(pairs_view(es@.take(i as int))) == Some(pairs_view(out@)),
        decreases es.len() - i,
    {
        proof {
            assert(pairs_view(es@.take(i + 1)).drop_last() =~= pairs_view(es@.take(i as int)));
        }
        match string_value(es[i].1.as_str()) {
            Some(v) => {
                let pair = (es[i].0.clone(), v);
                out.push(pair);
                proof {
                    assert(pairs_view(out@) =~= pairs_view(out@.drop_last()).push(
                        (es@[i as int].0@, pair.1@),
                    ));
                }
            },
            None => {
                proof {
                    let vs = pairs_view(es@.take(i + 1));
                    assert(vs.last().1 == es@[i as int].1@);
                    assert(string_entries(vs) is None);
                    lemma_string_entries_extend_none(es@, i as int + 1, es@.len() as int);
                    assert(es@.take(es@.len() as int) =~= es@);
                }
                return None;
            },
        }
        i = i + 1;
    }
    proof {
        assert(es@.take(es@.len() as int) =~= es@);
    }
    Some(out)
}

proof fn lemma_string_entries_extend_none(es: Seq<(String, String)>, i: int, j: int)
    requires
        0 <= i <= j <= es.len(),
        string_entries(pairs_view(es.take(i))) is None,
    ensures
        string_entries(pairs_view(es.take(j))) is None,
    decreases j - i,
{
    if i < j {
        assert(pairs_view(es.take(i + 1)).drop_last() =~= pairs_view(es.take(i)));
        lemma_string_entries_extend_none(es, i + 1, j);
    }
}

fn read_metadata(body: &str) -> (r: Option<Option<Vec<(String, String)>>>)
    ensures
        r.is_some() == metadata_of(json_member(body@, "metadata"@)).is_some(),
        r.is_some() ==> metadata_view(r->Some_0) == metadata_of(
            json_member(body@, "metadata"@),
        )->Some_0,
{
    match member(body, "metadata") {
        None => Some(None),
        Some(t) => {
            let null = String::from_str("null");
            if t == null {
                Some(None)
            } else {
                match entries(t.as_str()) {
                    None => None,
                    Some(es) => {
                        proof {
                            assert(pairs_view(es@) == es@.map_values(
                                |p: (String, String)| (p.0@, p.1@),
                            ));
                        }
                        match read_string_entries(&es) {
                            None => None,
                            Some(m) => Some(Some(m)),
                        }
                    },
                }
            }
        },
    }
}

/// Reads a collection from a reply body.
pub fn decode_collection(body: &str) -> (r: Result<Collection, ChromaClientError>)
    ensures
        r is Ok <==> collection_of(body@) is Some,
        r is Ok ==> r->Ok_0@ == collection_of(body@)->Some_0,
        r is Err ==> is_parse_error(r),
{
    let name = match read_string_member(body, "name") {
        Some(n) => n,
        None => {
            return Err(
                ChromaClientError::ResponseParseError(
                    String::from_str("missing or malformed field `name`"),
                ),
            )
        },
    };
    let id = match read_string_member(body, "id") {
        Some(i) => i,
        None => {
            return Err(
                ChromaClientError::ResponseParseError(
                    String::from_str("missing or malformed field `id`"),
                ),
            )
        },
    };
    let metadata = match read_metadata(body) {
        Some(m) => m,
        None => {
            return Err(
                ChromaClientError::ResponseParseError(
                    String::from_str("malformed field `metadata`"),
                ),
            )
        },
    };
    Ok(Collection { name, id, metadata })
}

/// The collection that a creation reply describes: as `collection_of`, and
/// the reply must also name its tenant and database as strings.
pub open spec fn created_of(body: Seq<char>) -> Option<CollectionView> {
    if string_member(body, "tenant"@) is Some && string_member(body, "database"@) is Some {
        collection_of(body)
    } else {
        None
    }
}

/// Reads the collection that a creation request's reply describes.
pub fn decode_created_collection(body: &str) -> (r: Result<Collection, ChromaClientError>)
    ensures
        r is Ok <==> created_of(body@) is Some,
        r is Ok ==> r->Ok_0@ == created_of(body@)->Some_0,
        r is Err ==> is_parse_error(r),
{
    if read_string_member(body, "tenant").is_none() {
        return Err(
            ChromaClientError::ResponseParseError(
                String::from_str("missing or malformed field `tenant`"),
            ),
        );
    }
    if read_string_member(body, "database").is_none() {
        return Err(
            ChromaClientError::ResponseParseError(
                String::from_str("missing or malformed field `database`"),
            ),
        );
    }
    decode_collection(body)
}

/// Reads a list of collections from a reply body.
pub fn decode_collections(body: &str) -> (r: Result<Vec<Collection>, ChromaClientError>)
    ensures
        r is Ok <==> collections_of(body@) is Some,
        r is Ok ==> r->Ok_0@.map_values(|c: Collection| c@) == collections_of(body@)->Some_0,
        r is Err ==> is_parse_error(r),
{
    let ts = match items(body) {
        Some(ts) => ts,
        None => {
            return Err(
                ChromaClientError::ResponseParseError(String::from_str("expected a JSON array")),
            )
        },
    };
    let ghost tv = ts@.map_values(|s: String| s@);
    let mut out: Vec<Collection> = Vec::new();
    let mut i: usize = 0;
    while i < ts.len()
        invariant
            i <= ts.len(),
            tv == ts@.map_values(|s: String| s@),
            tv == json_items(body@)->Some_0,
            json_items(body@) is Some,
            collections_of_items(tv.take(i as int)) == Some(
                out@.map_values(|c: Collection| c@),
            ),
        decreases ts.len() - i,
    {
        proof {
            assert(tv.take(i + 1).drop_last() =~= tv.take(i as int));
            assert(tv.take(i + 1).last() == ts@[i as int]@);
        }
        match decode_collection(ts[i].as_str()) {
            Ok(c) => {
                out.push(c);
                proof {
                    assert(out@.map_values(|c: Collection| c@) =~= out@.drop_last().map_values(
                        |c: Collection| c@,
                    ).push(out@.last()@));
                }
            },
            Err(e) => {
                proof {
                    lemma_collections_extend_none(tv, i as int + 1, tv.len() as int);
                    assert(tv.take(tv.len() as int) =~= tv);
                }
                return Err(e);
            },
        }
        i = i + 1;
    }
    proof {
        assert(tv.take(tv.len() as int) =~= tv);
    }
    Ok(out)
}

proof fn lemma_collections_extend_none(ts: Seq<Seq<char>>, i: int, j: int)
    requires
        0 <= i <= j <= ts.len(),
        collections_of_items(ts.take(i)) is None,
    ensures
        collections_of_items(ts.take(j)) is None,
    decreases j - i,
{
    if i < j {
        assert(ts.take(i + 1).drop_last() =~= ts.take(i));
        lemma_collections_extend_none(ts, i + 1, j);
    }
}

/// Reads the heartbeat from a reply body.
pub fn decode_heartbeat(body: &str) -> (r: Result<u64, ChromaClientError>)
    ensures
        r is Ok <==> heartbeat_of(body@) is Some,
        r is Ok ==> r->Ok_0 == heartbeat_of(body@)->Some_0,
        r is Err ==> is_parse_error(r),
{
    match member(body, "nanosecond heartbeat") {
        Some(t) => match u64_value(t.as_str()) {
            Some(n) => Ok(n),
            None => Err(
                ChromaClientError::ResponseParseError(
                    String::from_str("field `nanosecond heartbeat` is not an unsigned integer"),
                ),
            ),
        },
        None => Err(
            ChromaClientError::ResponseParseError(
                String::from_str("missing field `nanosecond heartbeat`"),
            ),
        ),
    }
}

} // verus!
