use crate::collection::Collection;
use crate::collection::metadata_view;
use crate::error::ChromaClientError;
use crate::http::HttpRequest;
use crate::http::Method;
use crate::http::Reply;
use crate::http::is_success;
use crate::http::status_is_success;
use crate::json::collection_of;
use crate::json::created_of;
use crate::json::decode_created_collection;
use crate::json::collections_of;
use crate::json::create_body_json;
use crate::json::create_collection_body;
use crate::json::decode_collection;
use crate::json::decode_collections;
use crate::json::decode_heartbeat;
use crate::json::heartbeat_of;
use crate::json::is_parse_error;
use crate::json::json_member;
use crate::json::string_member;
use crate::http::header_name_accepted;
use crate::http::header_value_accepted;
use crate::http::pairs_view;
use crate::http::set_header;
use crate::http::valid_header_name;
use crate::http::valid_header_value;
use crate::http::with_header;
use vstd::prelude::*;
use vstd::string::StringExecFns;

verus! {

/// The tenant and database that scoped requests name.
#[derive(Debug)]
pub struct Settings {
    pub tenant: String,
    pub database: String,
}

impl Default for Settings {
    fn default() -> (r: Self)
        ensures
            r.tenant@ == "default_tenant"@,
            r.database@ == "default_database"@,
    {
        Settings {
            tenant: String::from_str("default_tenant"),
            database: String::from_str("default_database"),
        }
    }
}

/// The parameters to create a new client.
pub struct ChromaClientParams {
    pub host: String,
    pub port: String,
    pub ssl: bool,
    /// Headers sent with every request, as name/value pairs.
    pub headers: Option<Vec<(String, String)>>,
    pub settings: Option<Settings>,
}

impl Default for ChromaClientParams {
    fn default() -> (r: Self)
        ensures
            r.host@ == "localhost"@,
            r.port@ == "8000"@,
            !r.ssl,
            r.headers is None,
            r.settings is Some,
            r.settings->Some_0.tenant@ == "default_tenant"@,
            r.settings->Some_0.database@ == "default_database"@,
    {
        ChromaClientParams {
            host: String::from_str("localhost"),
            port: String::from_str("8000"),
            ssl: false,
            headers: None,
            settings: Some(Settings::default()),
        }
    }
}

/// A client's connection context: fixed when the client is made.
pub struct ClientView {
    pub origin: Seq<char>,
    pub headers: Seq<(Seq<char>, Seq<char>)>,
    pub tenant: Seq<char>,
    pub database: Seq<char>,
}

/// A client of the service's HTTP API. It performs no I/O itself: each
/// operation says which request to send next, given the replies so far.
#[derive(Debug)]
pub struct ChromaClient {
    path: String,
    headers: Vec<(String, String)>,
    tenant: String,
    database: String,
}

impl View for ChromaClient {
    type V = ClientView;

    closed spec fn view(&self) -> ClientView {
        ClientView {
            origin: self.path@,
            headers: pairs_view(self.headers@),
            tenant: self.tenant@,
            database: self.database@,
        }
    }
}

/// Every header name and value is one that may be sent.
pub open spec fn headers_valid(h: Seq<(Seq<char>, Seq<char>)>) -> bool {
    forall|i: int|
        0 <= i < h.len() ==> valid_header_name(#[trigger] h[i].0) && valid_header_value(h[i].1)
}

pub open spec fn scheme_of(ssl: bool) -> Seq<char> {
    if ssl {
        "https"@
    } else {
        "http"@
    }
}

/// `scheme://host:port`.
pub open spec fn origin_of(ssl: bool, host: Seq<char>, port: Seq<char>) -> Seq<char> {
    scheme_of(ssl) + "://"@ + host + ":"@ + port
}

pub open spec fn given_headers(params: ChromaClientParams) -> Seq<(Seq<char>, Seq<char>)> {
    match params.headers {
        Some(h) => pairs_view(h@),
        None => seq![],
    }
}

/// The context that a client made from `params` holds.
pub open spec fn context_of(params: ChromaClientParams) -> ClientView {
    ClientView {
        origin: origin_of(params.ssl, params.host@, params.port@),
        headers: with_header(given_headers(params), "accept"@, "application/json"@),
        tenant: match params.settings {
            Some(s) => s.tenant@,
            None => "default_tenant"@,
        },
        database: match params.settings {
            Some(s) => s.database@,
            None => "default_database"@,
        },
    }
}

fn header_ok(name: &String, value: &String) -> (r: bool)
    ensures
        r == (valid_header_name(name@) && valid_header_value(value@)),
{
    let name_ok = header_name_accepted(name.as_str());
    let value_ok = header_value_accepted(value.as_str());
    name_ok && value_ok
}

fn check_headers(h: &Vec<(String, String)>) -> (r: bool)
    ensures
        r == headers_valid(pairs_view(h@)),
{
    let ghost v = pairs_view(h@);
    let mut i: usize = 0;
    while i < h.len()
        invariant
            i <= h.len(),
            v == pairs_view(h@),
            v.len() == h@.len(),
            forall|j: int|
                0 <= j < i ==> valid_header_name(#[trigger] v[j].0) && valid_header_value(v[j].1),
        decreases h.len() - i,
    {
        let ok = header_ok(&h[i].0, &h[i].1);
        assert(v[i as int] == (h@[i as int].0@, h@[i as int].1@));
        if !ok {
            assert(!(valid_header_name(v[i as int].0) && valid_header_value(v[i as int].1)));
            return false;
        }
        i = i + 1;
    }
    true
}

impl ChromaClient {
    /// Makes a client from its parameters. Fails when a header name or value
    /// is not one that may be sent.
    pub fn new(params: ChromaClientParams) -> (r: Result<ChromaClient, ChromaClientError>)
        ensures
            r is Ok <==> headers_valid(given_headers(params)),
            r is Ok ==> r->Ok_0@ == context_of(params),
            r is Err ==> r->Err_0 is ConfigurationError,
    {
        let ghost p = params;
        let given = match params.headers {
            Some(h) => h,
            None => Vec::new(),
        };
        assert(pairs_view(given@) =~= given_headers(p));
        if !check_headers(&given) {
            return Err(
                ChromaClientError::ConfigurationError(
                    String::from_str("a header name or value holds a character that may not be sent"),
                ),
            );
        }
        let headers = set_header(&given, "accept", "application/json");
        let mut path = if params.ssl {
            String::from_str("https")
        } else {
            String::from_str("http")
        };
        path.append("://");
        path.append(params.host.as_str());
        path.append(":");
        path.append(params.port.as_str());
        let settings = match params.settings {
            Some(s) => s,
            None => Settings::default(),
        };
        let c = ChromaClient { path, headers, tenant: settings.tenant, database: settings.database };
        assert(c@.headers == context_of(p).headers);
        Ok(c)
    }
}

/// The URL at `origin` whose path is `segments`, each percent-encoded as
/// one segment (`.` and `..` are left out); or the text of the error where
/// `origin` is no URL that can take a path.
pub uninterp spec fn url_of(origin: Seq<char>, segments: Seq<Seq<char>>) -> Result<
    Seq<char>,
    Seq<char>,
>;

/// As `url_of`, with `params` form-encoded into the query, in order.
pub uninterp spec fn url_with_params_of(
    origin: Seq<char>,
    segments: Seq<Seq<char>>,
    params: Seq<(Seq<char>, Seq<char>)>,
) -> Result<Seq<char>, Seq<char>>;

pub open spec fn texts_view(v: Seq<String>) -> Seq<Seq<char>> {
    v.map_values(|s: String| s@)
}

/// Relies on url::Url::parse, and on Url::path_segments_mut with pop_if_empty
/// and extend, which fail only where the parsed URL cannot be a base.
#[verifier::external_body]
fn url_at(origin: &str, segments: &Vec<String>) -> (r: Result<String, String>)
    ensures
        r is Ok <==> url_of(origin@, texts_view(segments@)) is Ok,
        r is Ok ==> r->Ok_0@ == url_of(origin@, texts_view(segments@))->Ok_0,
        r is Err ==> r->Err_0@ == url_of(origin@, texts_view(segments@))->Err_0,
{
    let mut url = url::Url::parse(origin).map_err(|e| e.to_string())?;
    url.path_segments_mut()
        .map_err(|_| String::from("the origin cannot carry a path"))?
        .pop_if_empty()
        .extend(segments.iter());
    Ok(url.to_string())
}

/// Relies on url::Url::parse_with_params, which form-encodes the pairs into
/// the query, and on Url::path_segments_mut as `url_at` does.
#[verifier::external_body]
fn url_at_with_params(origin: &str, segments: &Vec<String>, params: &Vec<(String, String)>) -> (r:
    Result<String, String>)
    ensures
        r is Ok <==> url_with_params_of(origin@, texts_view(segments@), pairs_view(params@)) is Ok,
        r is Ok ==> r->Ok_0@ == url_with_params_of(
            origin@,
            texts_view(segments@),
            pairs_view(params@),
        )->Ok_0,
        r is Err ==> r->Err_0@ == url_with_params_of(
            origin@,
            texts_view(segments@),
            pairs_view(params@),
        )->Err_0,
{
    let mut url = url::Url::parse_with_params(origin, params.iter()).map_err(|e| e.to_string())?;
    url.path_segments_mut()
        .map_err(|_| String::from("the origin cannot carry a path"))?
        .pop_if_empty()
        .extend(segments.iter());
    Ok(url.to_string())
}

/// The query parameters of a scoped request: exactly the tenant, then the
/// database.
pub open spec fn scope_params(c: ClientView) -> Seq<(Seq<char>, Seq<char>)> {
    seq![("tenant"@, c.tenant), ("database"@, c.database)]
}

/// The URL of `segments` below the origin, scoped or not.
pub open spec fn built_url(c: ClientView, segments: Seq<Seq<char>>, scoped: bool) -> Result<
    Seq<char>,
    Seq<char>,
> {
    if scoped {
        url_with_params_of(c.origin, segments, scope_params(c))
    } else {
        url_of(c.origin, segments)
    }
}

/// A URL build's result: the URL, or a URL error with the text of why it
/// cannot be formed.
pub open spec fn url_result_ok(r: Result<String, ChromaClientError>, u: Result<Seq<char>, Seq<char>>) -> bool {
    match u {
        Ok(t) => r is Ok && r->Ok_0@ == t,
        Err(e) => r is Err && r->Err_0 is UrlParseError && r->Err_0->UrlParseError_0@ == e,
    }
}

/// The path segments of the readiness probe.
pub open spec fn preflight_segments() -> Seq<Seq<char>> {
    seq!["api"@, "v1"@, "pre-flight-checks"@]
}

/// One of the service's operations, with its arguments.
#[derive(Debug)]
pub enum Operation {
    Heartbeat,
    CreateCollection { name: String, metadata: Option<Vec<(String, String)>> },
    GetOrCreateCollection { name: String, metadata: Option<Vec<(String, String)>> },
    GetCollection { name: String },
    ListCollections,
    DeleteCollection { name: String },
    Reset,
    Version,
}

/// An operation and its arguments, as text.
pub enum OpView {
    Heartbeat,
    CreateCollection(Seq<char>, Option<Seq<(Seq<char>, Seq<char>)>>),
    GetOrCreateCollection(Seq<char>, Option<Seq<(Seq<char>, Seq<char>)>>),
    GetCollection(Seq<char>),
    ListCollections,
    DeleteCollection(Seq<char>),
    Reset,
    Version,
}

impl View for Operation {
    type V = OpView;

    open spec fn view(&self) -> OpView {
        match self {
            Operation::Heartbeat => OpView::Heartbeat,
            Operation::CreateCollection { name, metadata } => OpView::CreateCollection(
                name@,
                metadata_view(*metadata),
            ),
            Operation::GetOrCreateCollection { name, metadata } => OpView::GetOrCreateCollection(
                name@,
                metadata_view(*metadata),
            ),
            Operation::GetCollection { name } => OpView::GetCollection(name@),
            Operation::ListCollections => OpView::ListCollections,
            Operation::DeleteCollection { name } => OpView::DeleteCollection(name@),
            Operation::Reset => OpView::Reset,
            Operation::Version => OpView::Version,
        }
    }
}

pub open spec fn op_method(op: OpView) -> Method {
    match op {
        OpView::Heartbeat => Method::Get,
        OpView::CreateCollection(..) => Method::Post,
        OpView::GetOrCreateCollection(..) => Method::Post,
        OpView::GetCollection(..) => Method::Get,
        OpView::ListCollections => Method::Get,
        OpView::DeleteCollection(..) => Method::Delete,
        OpView::Reset => Method::Post,
        OpView::Version => Method::Get,
    }
}

/// The path segments of an operation, below the origin.
pub open spec fn op_segments(op: OpView) -> Seq<Seq<char>> {
    match op {
        OpView::Heartbeat => seq!["api"@, "v1"@, "heartbeat"@],
        OpView::CreateCollection(..) => seq!["api"@, "v1"@, "collections"@],
        OpView::GetOrCreateCollection(..) => seq!["api"@, "v1"@, "collections"@],
        OpView::GetCollection(name) => seq!["api"@, "v1"@, "collections"@, name],
        OpView::ListCollections => seq!["api"@, "v1"@, "collections"@],
        OpView::DeleteCollection(name) => seq!["api"@, "v1"@, "collections"@, name],
        OpView::Reset => seq!["api"@, "v1"@, "reset"@],
        OpView::Version => seq!["api"@, "v1"@, "version"@],
    }
}

/// Collection operations name the tenant and database; the others do not.
pub open spec fn op_scoped(op: OpView) -> bool {
    match op {
        OpView::Heartbeat | OpView::Reset | OpView::Version => false,
        _ => true,
    }
}

pub open spec fn op_body(op: OpView) -> Option<Seq<char>> {
    match op {
        OpView::CreateCollection(name, metadata) => Some(create_body_json(name, metadata, false)),
        OpView::GetOrCreateCollection(name, metadata) => Some(
            create_body_json(name, metadata, true),
        ),
        _ => None,
    }
}

/// The headers of a request: the client's, and a JSON content type where a
/// body is sent.
pub open spec fn request_headers(c: ClientView, has_body: bool) -> Seq<(Seq<char>, Seq<char>)> {
    if has_body {
        with_header(c.headers, "content-type"@, "application/json"@)
    } else {
        c.headers
    }
}

pub open spec fn body_view(b: Option<String>) -> Option<Seq<char>> {
    match b {
        Some(s) => Some(s@),
        None => None,
    }
}

/// `req` is the request of `method` to `url` with the client's headers and `body`.
pub open spec fn request_is(
    req: HttpRequest,
    c: ClientView,
    method: Method,
    url: Seq<char>,
    body: Option<Seq<char>>,
) -> bool {
    &&& req.method == method
    &&& req.url@ == url
    &&& pairs_view(req.headers@) == request_headers(c, body is Some)
    &&& body_view(req.body) == body
}

/// What an operation calls for next.
#[derive(Debug)]
pub enum Exchange {
    /// Send this request and hand back what comes of it.
    Send(HttpRequest),
    /// The operation failed.
    Failed(ChromaClientError),
    /// The operation's request succeeded; this is its body, or why it could
    /// not be read.
    Replied(Result<String, String>),
}

/// The message of a failed readiness probe.
pub open spec fn preflight_message(status: u16) -> Seq<char> {
    "Preflight request failed, status: "@ + decimal(status as nat)
}

pub open spec fn digit_text(d: nat) -> Seq<char> {
    if d == 0 {
        "0"@
    } else if d == 1 {
        "1"@
    } else if d == 2 {
        "2"@
    } else if d == 3 {
        "3"@
    } else if d == 4 {
        "4"@
    } else if d == 5 {
        "5"@
    } else if d == 6 {
        "6"@
    } else if d == 7 {
        "7"@
    } else if d == 8 {
        "8"@
    } else {
        "9"@
    }
}

/// The decimal digits of `n`.
pub open spec fn decimal(n: nat) -> Seq<char>
    decreases n,
{
    if n >= 10 {
        decimal(n / 10) + digit_text(n % 10)
    } else {
        digit_text(n)
    }
}

fn digit_str(d: u16) -> (r: &'static str)
    requires
        d < 10,
    ensures
        r@ == digit_text(d as nat),
{
    if d == 0 {
        "0"
    } else if d == 1 {
        "1"
    } else if d == 2 {
        "2"
    } else if d == 3 {
        "3"
    } else if d == 4 {
        "4"
    } else if d == 5 {
        "5"
    } else if d == 6 {
        "6"
    } else if d == 7 {
        "7"
    } else if d == 8 {
        "8"
    } else {
        "9"
    }
}

pub fn decimal_string(n: u16) -> (r: String)
    ensures
        r@ == decimal(n as nat),
    decreases n,
{
    if n >= 10 {
        let mut s = decimal_string(n / 10);
        s.append(digit_str(n % 10));
        s
    } else {
        String::from_str(digit_str(n))
    }
}

/// A URL build that fails ends the operation with a URL error of that text.
pub open spec fn url_failed(r: Exchange, e: Seq<char>) -> bool {
    r is Failed && r->Failed_0 is UrlParseError && r->Failed_0->UrlParseError_0@ == e
}

/// The step that an operation takes after `replies`: a name that cannot
/// stand as a path segment is refused before anything is sent; otherwise
/// first the readiness probe, then the operation's own request, then the
/// outcome.
pub open spec fn exchange_is(
    c: ClientView,
    op: OpView,
    replies: Seq<Reply>,
    r: Exchange,
) -> bool {
    if !op_path_ok(op) {
        url_failed(r, bad_name_message())
    } else if replies.len() == 0 {
        match url_of(c.origin, preflight_segments()) {
            Ok(u) => r is Send && request_is(r->Send_0, c, Method::Get, u, None),
            Err(e) => url_failed(r, e),
        }
    } else {
        match replies[0] {
            Reply::Failed(m) => r is Failed && r->Failed_0 is PreflightError
                && r->Failed_0->PreflightError_0@ == m@,
            Reply::Received { status, .. } => if !is_success(status) {
                r is Failed && r->Failed_0 is PreflightError && r->Failed_0->PreflightError_0@
                    == preflight_message(status)
            } else if replies.len() == 1 {
                match built_url(c, op_segments(op), op_scoped(op)) {
                    Ok(u) => r is Send && request_is(
                        r->Send_0,
                        c,
                        op_method(op),
                        u,
                        op_body(op),
                    ),
                    Err(e) => url_failed(r, e),
                }
            } else {
                outcome_is(op, replies[1], r)
            },
        }
    }
}

/// How the operation's own reply is read: a transport failure, a status
/// outside the success class, or the body.
pub open spec fn outcome_is(op: OpView, reply: Reply, r: Exchange) -> bool {
    match reply {
        Reply::Failed(m) => r is Failed && r->Failed_0 is RequestError
            && r->Failed_0->RequestError_0@ == m@,
        Reply::Received { status, body } => if !is_success(status) {
            r is Failed && r->Failed_0 is ResponseStatusError
                && r->Failed_0->ResponseStatusError_0 == status
                && r->Failed_0->ResponseStatusError_1@ == status_message(op, status)
        } else {
            r is Replied && match (r->Replied_0, body) {
                (Ok(a), Ok(b)) => a@ == b@,
                (Err(a), Err(b)) => a@ == b@,
                _ => false,
            }
        },
    }
}

/// A collection name that can stand as one path segment: not empty, `.` or
/// `..`, which would name another resource.
pub open spec fn path_name_ok(name: Seq<char>) -> bool {
    name != ""@ && name != "."@ && name != ".."@
}

pub open spec fn op_path_ok(op: OpView) -> bool {
    match op {
        OpView::GetCollection(name) => path_name_ok(name),
        OpView::DeleteCollection(name) => path_name_ok(name),
        _ => true,
    }
}

pub open spec fn bad_name_message() -> Seq<char> {
    "a collection name in a path may not be empty, `.` or `..`"@
}

/// The start of the message of a failure status, by operation.
pub open spec fn failure_text(op: OpView) -> Seq<char> {
    match op {
        OpView::Heartbeat => "Failed to get heartbeat with status code: "@,
        OpView::CreateCollection(..) => "Failed to create collection with status code: "@,
        OpView::GetOrCreateCollection(..) => "Failed to get or create collection with status code: "@,
        OpView::GetCollection(..) => "Failed to get collection with status code: "@,
        OpView::ListCollections => "Failed to list collections with status code: "@,
        OpView::DeleteCollection(..) => "Failed to delete collection with status code: "@,
        OpView::Reset => "Failed to reset with status code: "@,
        OpView::Version => "Failed to get version with status code: "@,
    }
}

/// The message of a failure status: the operation, the status, and for a
/// reset the setting that the service needs.
pub open spec fn status_message(op: OpView, status: u16) -> Seq<char> {
    if op is Reset {
        failure_text(op) + decimal(status as nat) + " - make sure `ALLOW_RESET=TRUE`"@
    } else {
        failure_text(op) + decimal(status as nat)
    }
}

fn failure_str(op: &Operation) -> (r: &'static str)
    ensures
        r@ == failure_text(op@),
{
    match op {
        Operation::Heartbeat => "Failed to get heartbeat with status code: ",
        Operation::CreateCollection { .. } => "Failed to create collection with status code: ",
        Operation::GetOrCreateCollection { .. } => "Failed to get or create collection with status code: ",
        Operation::GetCollection { .. } => "Failed to get collection with status code: ",
        Operation::ListCollections => "Failed to list collections with status code: ",
        Operation::DeleteCollection { .. } => "Failed to delete collection with status code: ",
        Operation::Reset => "Failed to reset with status code: ",
        Operation::Version => "Failed to get version with status code: ",
    }
}

pub fn failure_message(op: &Operation, status: u16) -> (r: String)
    ensures
        r@ == status_message(op@, status),
{
    let mut msg = String::from_str(failure_str(op));
    let digits = decimal_string(status);
    msg.append(digits.as_str());
    if let Operation::Reset = op {
        msg.append(" - make sure `ALLOW_RESET=TRUE`");
    }
    msg
}

fn name_fits_path(name: &String) -> (r: bool)
    ensures
        r == path_name_ok(name@),
{
    let empty = String::from_str("");
    let dot = String::from_str(".");
    let dots = String::from_str("..");
    !(*name == empty) && !(*name == dot) && !(*name == dots)
}

fn path_fits(op: &Operation) -> (r: bool)
    ensures
        r == op_path_ok(op@),
{
    match op {
        Operation::GetCollection { name } => name_fits_path(name),
        Operation::DeleteCollection { name } => name_fits_path(name),
        _ => true,
    }
}

fn string_vec(parts: &[&str]) -> (r: Vec<String>)
    ensures
        r@.len() == parts@.len(),
        forall|i: int| 0 <= i < parts@.len() ==> #[trigger] r@[i]@ == parts@[i]@,
{
    let mut out: Vec<String> = Vec::new();
    let mut i: usize = 0;
    while i < parts.len()
        invariant
            i <= parts@.len(),
            out@.len() == i,
            forall|j: int| 0 <= j < i ==> #[trigger] out@[j]@ == parts@[j]@,
        decreases parts@.len() - i,
    {
        out.push(String::from_str(parts[i]));
        i = i + 1;
    }
    out
}

fn copy_text(s: &String) -> (r: String)
    ensures
        r@ == s@,
{
    String::from_str(s.as_str())
}

fn copy_pairs(v: &Vec<(String, String)>) -> (r: Vec<(String, String)>)
    ensures
        pairs_view(r@) == pairs_view(v@),
{
    let mut out: Vec<(String, String)> = Vec::new();
    let mut i: usize = 0;
    while i < v.len()
        invariant
            i <= v@.len(),
            pairs_view(out@) == pairs_view(v@.take(i as int)),
        decreases v@.len() - i,
    {
        let pair = (copy_text(&v[i].0), copy_text(&v[i].1));
        out.push(pair);
        proof {
            assert(pairs_view(out@) =~= pairs_view(out@.drop_last()).push(
                (v@[i as int].0@, v@[i as int].1@),
            ));
            assert(pairs_view(v@.take(i + 1)) =~= pairs_view(v@.take(i as int)).push(
                (v@[i as int].0@, v@[i as int].1@),
            ));
        }
        i = i + 1;
    }
    proof {
        assert(v@.take(v@.len() as int) =~= v@);
    }
    out
}

fn copy_metadata(m: &Option<Vec<(String, String)>>) -> (r: Option<Vec<(String, String)>>)
    ensures
        metadata_view(r) == metadata_view(*m),
{
    match m {
        Some(v) => Some(copy_pairs(v)),
        None => None,
    }
}

fn copy_result(b: &Result<String, String>) -> (r: Result<String, String>)
    ensures
        match (r, *b) {
            (Ok(x), Ok(y)) => x@ == y@,
            (Err(x), Err(y)) => x@ == y@,
            _ => false,
        },
{
    match b {
        Ok(s) => Ok(copy_text(s)),
        Err(s) => Err(copy_text(s)),
    }
}

/// What the readiness probe's reply means: it must have a success status; a
/// probe that fails in transport is a preflight error with the transport's
/// message.
pub open spec fn preflight_ok(reply: Reply, r: Result<(), ChromaClientError>) -> bool {
    match reply {
        Reply::Failed(m) => r is Err && r->Err_0 is PreflightError && r->Err_0->PreflightError_0@
            == m@,
        Reply::Received { status, .. } => if is_success(status) {
            r is Ok
        } else {
            r is Err && r->Err_0 is PreflightError && r->Err_0->PreflightError_0@
                == preflight_message(status)
        },
    }
}

/// Reads the reply to the readiness probe.
pub fn check_pre_flight_status(reply: &Reply) -> (r: Result<(), ChromaClientError>)
    ensures
        preflight_ok(*reply, r),
{
    match reply {
        Reply::Failed(m) => Err(ChromaClientError::PreflightError(copy_text(m))),
        Reply::Received { status, .. } => {
            if status_is_success(*status) {
                Ok(())
            } else {
                let mut msg = String::from_str("Preflight request failed, status: ");
                let digits = decimal_string(*status);
                msg.append(digits.as_str());
                Err(ChromaClientError::PreflightError(msg))
            }
        },
    }
}

impl ChromaClient {
    /// The URL of `segments` below the origin, without query parameters.
    pub fn get_url(&self, segments: &Vec<String>) -> (r: Result<String, ChromaClientError>)
        ensures
            url_result_ok(r, built_url(self@, texts_view(segments@), false)),
    {
        match url_at(self.path.as_str(), segments) {
            Ok(u) => Ok(u),
            Err(e) => Err(ChromaClientError::UrlParseError(e)),
        }
    }

    /// The URL of `segments` below the origin, with the tenant and database
    /// as query parameters.
    pub fn get_url_with_params(&self, segments: &Vec<String>) -> (r: Result<
        String,
        ChromaClientError,
    >)
        ensures
            url_result_ok(r, built_url(self@, texts_view(segments@), true)),
    {
        let params = vec![
            (String::from_str("tenant"), copy_text(&self.tenant)),
            (String::from_str("database"), copy_text(&self.database)),
        ];
        assert(pairs_view(params@) =~= scope_params(self@));
        match url_at_with_params(self.path.as_str(), segments, &params) {
            Ok(u) => Ok(u),
            Err(e) => Err(ChromaClientError::UrlParseError(e)),
        }
    }

    fn copy_headers(&self) -> (r: Vec<(String, String)>)
        ensures
            pairs_view(r@) == self@.headers,
    {
        copy_pairs(&self.headers)
    }

    /// The request of `method` to `url` with this client's headers and `body`.
    fn request(&self, method: Method, url: String, body: Option<String>) -> (r: HttpRequest)
        ensures
            request_is(r, self@, method, url@, body_view(body)),
    {
        let headers = match body {
            Some(_) => {
                let own = self.copy_headers();
                set_header(&own, "content-type", "application/json")
            },
            None => self.copy_headers(),
        };
        HttpRequest { method, url, headers, body }
    }

    /// The operation's own request.
    fn operation_request(&self, op: &Operation) -> (r: Result<HttpRequest, ChromaClientError>)
        ensures
            match built_url(self@, op_segments(op@), op_scoped(op@)) {
                Ok(u) => r is Ok && request_is(r->Ok_0, self@, op_method(op@), u, op_body(op@)),
                Err(e) => r is Err && r->Err_0 is UrlParseError && r->Err_0->UrlParseError_0@ == e,
            },
    {
        let (segments, body): (Vec<String>, Option<String>) = match op {
            Operation::Heartbeat => (string_vec(&["api", "v1", "heartbeat"]), None),
            Operation::CreateCollection { name, metadata } => (
                string_vec(&["api", "v1", "collections"]),
                Some(create_collection_body(name.as_str(), metadata, false)),
            ),
            Operation::GetOrCreateCollection { name, metadata } => (
                string_vec(&["api", "v1", "collections"]),
                Some(create_collection_body(name.as_str(), metadata, true)),
            ),
            Operation::GetCollection { name } => (
                string_vec(&["api", "v1", "collections", name.as_str()]),
                None,
            ),
            Operation::ListCollections => (string_vec(&["api", "v1", "collections"]), None),
            Operation::DeleteCollection { name } => (
                string_vec(&["api", "v1", "collections", name.as_str()]),
                None,
            ),
            Operation::Reset => (string_vec(&["api", "v1", "reset"]), None),
            Operation::Version => (string_vec(&["api", "v1", "version"]), None),
        };
        assert(texts_view(segments@) =~= op_segments(op@));
        assert(body_view(body) == op_body(op@));
        let method = match op {
            Operation::Heartbeat => Method::Get,
            Operation::CreateCollection { .. } => Method::Post,
            Operation::GetOrCreateCollection { .. } => Method::Post,
            Operation::GetCollection { .. } => Method::Get,
            Operation::ListCollections => Method::Get,
            Operation::DeleteCollection { .. } => Method::Delete,
            Operation::Reset => Method::Post,
            Operation::Version => Method::Get,
        };
        let scoped = match op {
            Operation::Heartbeat | Operation::Reset | Operation::Version => false,
            _ => true,
        };
        let url = if scoped {
            self.get_url_with_params(&segments)
        } else {
            self.get_url(&segments)
        };
        match url {
            Ok(u) => Ok(self.request(method, u, body)),
            Err(e) => Err(e),
        }
    }

    /// The next step of `op` after `replies`: the readiness probe first, which
    /// must come back with a success status, then the operation's request.
    pub fn advance(&self, op: &Operation, replies: &Vec<Reply>) -> (r: Exchange)
        ensures
            exchange_is(self@, op@, replies@, r),
    {
        if !path_fits(op) {
            return Exchange::Failed(
                ChromaClientError::UrlParseError(
                    String::from_str("a collection name in a path may not be empty, `.` or `..`"),
                ),
            );
        }
        if replies.len() == 0 {
            let segments = string_vec(&["api", "v1", "pre-flight-checks"]);
            assert(texts_view(segments@) =~= preflight_segments());
            return match self.get_url(&segments) {
                Ok(u) => Exchange::Send(self.request(Method::Get, u, None)),
                Err(e) => Exchange::Failed(e),
            };
        }
        if let Err(e) = check_pre_flight_status(&replies[0]) {
            return Exchange::Failed(e);
        }
        if replies.len() == 1 {
            return match self.operation_request(op) {
                Ok(req) => Exchange::Send(req),
                Err(e) => Exchange::Failed(e),
            };
        }
        match &replies[1] {
            Reply::Failed(m) => Exchange::Failed(ChromaClientError::RequestError(copy_text(m))),
            Reply::Received { status, body } => {
                if !status_is_success(*status) {
                    Exchange::Failed(
                        ChromaClientError::ResponseStatusError(*status, failure_message(op, *status)),
                    )
                } else {
                    Exchange::Replied(copy_result(body))
                }
            },
        }
    }
}

/// What an operation asks of its caller after the replies so far.
#[derive(Debug)]
pub enum Step<T> {
    /// Send this request and call again with what came of it appended.
    Send(HttpRequest),
    /// The operation is over.
    Done(Result<T, ChromaClientError>),
}

/// The operation's own request came back with a success status, so its
/// body decides the outcome.
pub open spec fn body_due(op: OpView, replies: Seq<Reply>) -> bool {
    &&& op_path_ok(op)
    &&& replies.len() >= 2
    &&& replies[0] is Received
    &&& is_success(replies[0]->Received_status)
    &&& replies[1] is Received
    &&& is_success(replies[1]->Received_status)
}

/// Before the body is due, a step sends or fails just as the exchange does.
pub open spec fn step_is<T>(c: ClientView, op: OpView, replies: Seq<Reply>, s: Step<T>) -> bool {
    match s {
        Step::Send(req) => exchange_is(c, op, replies, Exchange::Send(req)),
        Step::Done(Err(e)) => exchange_is(c, op, replies, Exchange::Failed(e)),
        Step::Done(Ok(_)) => false,
    }
}

/// A success reply's body that could not be read is a response error.
pub open spec fn body_read<T>(body: Result<String, String>, r: Result<T, ChromaClientError>) -> bool {
    match body {
        Ok(_) => true,
        Err(m) => r is Err && r->Err_0 is ResponseError && r->Err_0->ResponseError_0@ == m@,
    }
}

pub open spec fn heartbeat_done(body: Result<String, String>, r: Result<u64, ChromaClientError>) -> bool {
    body_read(body, r) && match body {
        Ok(b) => match heartbeat_of(b@) {
            Some(n) => r == Ok::<u64, ChromaClientError>(n),
            None => is_parse_error(r),
        },
        Err(_) => true,
    }
}

pub open spec fn collection_done(
    body: Result<String, String>,
    r: Result<Collection, ChromaClientError>,
) -> bool {
    body_read(body, r) && match body {
        Ok(b) => match collection_of(b@) {
            Some(v) => r is Ok && r->Ok_0@ == v,
            None => is_parse_error(r),
        },
        Err(_) => true,
    }
}

/// As `collection_done`, for the reply to a creation request.
pub open spec fn created_done(
    body: Result<String, String>,
    r: Result<Collection, ChromaClientError>,
) -> bool {
    body_read(body, r) && match body {
        Ok(b) => match created_of(b@) {
            Some(v) => r is Ok && r->Ok_0@ == v,
            None => is_parse_error(r),
        },
        Err(_) => true,
    }
}

pub open spec fn collections_done(
    body: Result<String, String>,
    r: Result<Vec<Collection>, ChromaClientError>,
) -> bool {
    body_read(body, r) && match body {
        Ok(b) => match collections_of(b@) {
            Some(v) => r is Ok && r->Ok_0@.map_values(|c: Collection| c@) == v,
            None => is_parse_error(r),
        },
        Err(_) => true,
    }
}

pub open spec fn version_done(body: Result<String, String>, r: Result<String, ChromaClientError>) -> bool {
    body_read(body, r) && match body {
        Ok(b) => r is Ok && r->Ok_0@ == b@,
        Err(_) => true,
    }
}

impl ChromaClient {
    /// The service's current time in nanoseconds since the epoch; shows that
    /// it is alive.
    pub fn heartbeat(&self, replies: &Vec<Reply>) -> (r: Step<u64>)
        ensures
            !body_due(OpView::Heartbeat, replies@) ==> step_is(self@, OpView::Heartbeat, replies@, r),
            body_due(OpView::Heartbeat, replies@) ==> r is Done && heartbeat_done(
                replies@[1]->Received_body,
                r->Done_0,
            ),
    {
        match self.advance(&Operation::Heartbeat, replies) {
            Exchange::Send(req) => Step::Send(req),
            Exchange::Failed(e) => Step::Done(Err(e)),
            Exchange::Replied(Ok(b)) => Step::Done(decode_heartbeat(b.as_str())),
            Exchange::Replied(Err(m)) => Step::Done(Err(ChromaClientError::ResponseError(m))),
        }
    }

    fn collection_step(&self, op: &Operation, replies: &Vec<Reply>, created: bool) -> (r: Step<
        Collection,
    >)
        ensures
            !body_due(op@, replies@) ==> step_is(self@, op@, replies@, r),
            body_due(op@, replies@) && !created ==> r is Done && collection_done(
                replies@[1]->Received_body,
                r->Done_0,
            ),
            body_due(op@, replies@) && created ==> r is Done && created_done(
                replies@[1]->Received_body,
                r->Done_0,
            ),
    {
        match self.advance(op, replies) {
            Exchange::Send(req) => Step::Send(req),
            Exchange::Failed(e) => Step::Done(Err(e)),
            Exchange::Replied(Ok(b)) => Step::Done(
                if created {
                    decode_created_collection(b.as_str())
                } else {
                    decode_collection(b.as_str())
                },
            ),
            Exchange::Replied(Err(m)) => Step::Done(Err(ChromaClientError::ResponseError(m))),
        }
    }

    fn unit_step(&self, op: &Operation, replies: &Vec<Reply>) -> (r: Step<()>)
        ensures
            !body_due(op@, replies@) ==> step_is(self@, op@, replies@, r),
            body_due(op@, replies@) ==> r == Step::<()>::Done(Ok(())),
    {
        match self.advance(op, replies) {
            Exchange::Send(req) => Step::Send(req),
            Exchange::Failed(e) => Step::Done(Err(e)),
            Exchange::Replied(_) => Step::Done(Ok(())),
        }
    }

    /// Creates a collection; fails where one of that name exists.
    pub fn create_collection(
        &self,
        name: &str,
        metadata: &Option<Vec<(String, String)>>,
        replies: &Vec<Reply>,
    ) -> (r: Step<Collection>)
        ensures
            !body_due(OpView::CreateCollection(name@, metadata_view(*metadata)), replies@) ==> step_is(
                self@,
                OpView::CreateCollection(name@, metadata_view(*metadata)),
                replies@,
                r,
            ),
            body_due(OpView::CreateCollection(name@, metadata_view(*metadata)), replies@) ==> r is Done && created_done(
                replies@[1]->Received_body,
                r->Done_0,
            ),
    {
        let op = Operation::CreateCollection {
            name: String::from_str(name),
            metadata: copy_metadata(metadata),
        };
        self.collection_step(&op, replies, true)
    }

    /// The collection of that name.
    pub fn get_collection(&self, name: &str, replies: &Vec<Reply>) -> (r: Step<Collection>)
        ensures
            !body_due(OpView::GetCollection(name@), replies@) ==> step_is(self@, OpView::GetCollection(name@), replies@, r),
            body_due(OpView::GetCollection(name@), replies@) ==> r is Done && collection_done(
                replies@[1]->Received_body,
                r->Done_0,
            ),
    {
        let op = Operation::GetCollection { name: String::from_str(name) };
        self.collection_step(&op, replies, false)
    }

    /// The collection of that name, created first where there is none.
    pub fn get_or_create_collection(
        &self,
        name: &str,
        metadata: &Option<Vec<(String, String)>>,
        replies: &Vec<Reply>,
    ) -> (r: Step<Collection>)
        ensures
            !body_due(OpView::GetOrCreateCollection(name@, metadata_view(*metadata)), replies@) ==> step_is(
                self@,
                OpView::GetOrCreateCollection(name@, metadata_view(*metadata)),
                replies@,
                r,
            ),
            body_due(OpView::GetOrCreateCollection(name@, metadata_view(*metadata)), replies@) ==> r is Done && created_done(
                replies@[1]->Received_body,
                r->Done_0,
            ),
    {
        let op = Operation::GetOrCreateCollection {
            name: String::from_str(name),
            metadata: copy_metadata(metadata),
        };
        self.collection_step(&op, replies, true)
    }

    /// Deletes the collection of that name.
    pub fn delete_collection(&self, name: &str, replies: &Vec<Reply>) -> (r: Step<()>)
        ensures
            !body_due(OpView::DeleteCollection(name@), replies@) ==> step_is(self@, OpView::DeleteCollection(name@), replies@, r),
            body_due(OpView::DeleteCollection(name@), replies@) ==> r == Step::<()>::Done(Ok(())),
    {
        let op = Operation::DeleteCollection { name: String::from_str(name) };
        self.unit_step(&op, replies)
    }

    /// All collections of the tenant and database.
    pub fn list_collections(&self, replies: &Vec<Reply>) -> (r: Step<Vec<Collection>>)
        ensures
            !body_due(OpView::ListCollections, replies@) ==> step_is(self@, OpView::ListCollections, replies@, r),
            body_due(OpView::ListCollections, replies@) ==> r is Done && collections_done(
                replies@[1]->Received_body,
                r->Done_0,
            ),
    {
        match self.advance(&Operation::ListCollections, replies) {
            Exchange::Send(req) => Step::Send(req),
            Exchange::Failed(e) => Step::Done(Err(e)),
            Exchange::Replied(Ok(b)) => Step::Done(decode_collections(b.as_str())),
            Exchange::Replied(Err(m)) => Step::Done(Err(ChromaClientError::ResponseError(m))),
        }
    }

    /// Resets the database, deleting every collection. The service refuses
    /// unless it allows resets.
    pub fn reset(&self, replies: &Vec<Reply>) -> (r: Step<()>)
        ensures
            !body_due(OpView::Reset, replies@) ==> step_is(self@, OpView::Reset, replies@, r),
            body_due(OpView::Reset, replies@) ==> r == Step::<()>::Done(Ok(())),
    {
        self.unit_step(&Operation::Reset, replies)
    }

    /// The service's version, as the body it sends.
    pub fn version(&self, replies: &Vec<Reply>) -> (r: Step<String>)
        ensures
            !body_due(OpView::Version, replies@) ==> step_is(self@, OpView::Version, replies@, r),
            body_due(OpView::Version, replies@) ==> r is Done && version_done(
                replies@[1]->Received_body,
                r->Done_0,
            ),
    {
        match self.advance(&Operation::Version, replies) {
            Exchange::Send(req) => Step::Send(req),
            Exchange::Failed(e) => Step::Done(Err(e)),
            Exchange::Replied(Ok(b)) => Step::Done(Ok(b)),
            Exchange::Replied(Err(m)) => Step::Done(Err(ChromaClientError::ResponseError(m))),
        }
    }
}

/// Every scoped request of a client names exactly its tenant and its
/// database, in that order, as the query parameters `tenant` and `database`,
/// and the operation's own path segments.
pub proof fn lemma_scoped_request_names_scope(
    c: ClientView,
    op: OpView,
    replies: Seq<Reply>,
    r: Exchange,
)
    requires
        op_scoped(op),
        replies.len() == 1,
        replies[0] is Received,
        is_success(replies[0]->Received_status),
        exchange_is(c, op, replies, r),
        r is Send,
    ensures
        r->Send_0.url@ == url_with_params_of(c.origin, op_segments(op), scope_params(c))->Ok_0,
        scope_params(c).len() == 2,
        scope_params(c)[0] == ("tenant"@, c.tenant),
        scope_params(c)[1] == ("database"@, c.database),
{
}

/// A reply to an operation's own request whose status is outside the success
/// class ends the operation with a status error that carries that status and
/// the operation's message for it, whatever the operation (one whose name
/// cannot stand in a path sends no request at all).
pub proof fn lemma_failure_status_surfaces<T>(
    c: ClientView,
    op: OpView,
    replies: Seq<Reply>,
    s: Step<T>,
)
    requires
        op_path_ok(op),
        replies.len() >= 2,
        replies[0] is Received,
        is_success(replies[0]->Received_status),
        replies[1] is Received,
        !is_success(replies[1]->Received_status),
        step_is(c, op, replies, s),
    ensures
        !body_due(op, replies),
        s is Done,
        s->Done_0 is Err,
        s->Done_0->Err_0 is ResponseStatusError,
        s->Done_0->Err_0->ResponseStatusError_0 == replies[1]->Received_status,
        s->Done_0->Err_0->ResponseStatusError_1@ == status_message(
            op,
            replies[1]->Received_status,
        ),
{
}

/// A readiness probe that comes back with a status outside the success class
/// ends every operation with a preflight error, before its own request.
pub proof fn lemma_failed_preflight_stops<T>(
    c: ClientView,
    op: OpView,
    replies: Seq<Reply>,
    s: Step<T>,
)
    requires
        op_path_ok(op),
        replies.len() >= 1,
        replies[0] is Received,
        !is_success(replies[0]->Received_status),
        step_is(c, op, replies, s),
    ensures
        !body_due(op, replies),
        s is Done,
        s->Done_0 is Err,
        s->Done_0->Err_0 is PreflightError,
{
}

/// A success body that lacks a collection's `name` or `id`, or holds one that
/// is no string, is a parse error and never a collection.
pub proof fn lemma_missing_field_is_parse_error(body: String, r: Result<Collection, ChromaClientError>)
    requires
        string_member(body@, "name"@) is None || string_member(body@, "id"@) is None,
        collection_done(Ok::<String, String>(body), r),
    ensures
        is_parse_error(r),
{
}

/// A creation reply whose `id` member is absent is a parse error, whatever
/// else it holds.
pub proof fn lemma_absent_id_is_parse_error(body: String, r: Result<Collection, ChromaClientError>)
    requires
        json_member(body@, "id"@) is None,
        created_done(Ok::<String, String>(body), r),
    ensures
        is_parse_error(r),
{
}

/// Asking twice to get or create a collection of one name, with the same
/// metadata, sends the same request both times; and the collections read
/// from two bodies that name the same id carry that id.
pub proof fn lemma_get_or_create_repeats(
    c: ClientView,
    name: Seq<char>,
    m: Option<Seq<(Seq<char>, Seq<char>)>>,
    replies1: Seq<Reply>,
    replies2: Seq<Reply>,
    s1: Step<Collection>,
    s2: Step<Collection>,
)
    requires
        replies1.len() == replies2.len(),
        forall|i: int|
            0 <= i < replies1.len() ==> (#[trigger] replies1[i] is Received) == replies2[i] is Received
                && (replies1[i] is Received ==> replies1[i]->Received_status
                == replies2[i]->Received_status),
        !body_due(OpView::GetOrCreateCollection(name, m), replies1),
        step_is(c, OpView::GetOrCreateCollection(name, m), replies1, s1),
        step_is(c, OpView::GetOrCreateCollection(name, m), replies2, s2),
        s1 is Send,
    ensures
        s2 is Send,
        s1->Send_0.method == s2->Send_0.method,
        s1->Send_0.url@ == s2->Send_0.url@,
        pairs_view(s1->Send_0.headers@) == pairs_view(s2->Send_0.headers@),
        body_view(s1->Send_0.body) == body_view(s2->Send_0.body),
{
}

/// The collection read from a creation reply carries exactly the id that the
/// reply names, so two replies naming one id give collections with that id.
pub proof fn lemma_same_id_read(
    b1: String,
    b2: String,
    r1: Result<Collection, ChromaClientError>,
    r2: Result<Collection, ChromaClientError>,
)
    requires
        created_done(Ok::<String, String>(b1), r1),
        created_done(Ok::<String, String>(b2), r2),
        r1 is Ok,
        r2 is Ok,
        string_member(b1@, "id"@) == string_member(b2@, "id"@),
    ensures
        r1->Ok_0.id@ == r2->Ok_0.id@,
{
}

} // verus!
