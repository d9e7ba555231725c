//! The authenticated request layer: auth headers, request URLs and queries
//! of each endpoint, and the classification of a response by its status.
use vstd::prelude::*;

use crate::config::Config;
use crate::error::KimaiError;
use crate::query::{build_query, params_view, query_of, query_view, QueryValue};
use reqwest::header::{HeaderMap, HeaderValue};

verus! {

#[verifier::external_type_specification]
#[verifier::external_body]
pub struct ExHeaderValue(HeaderValue);

#[verifier::external_type_specification]
#[verifier::external_body]
#[verifier::reject_recursive_types(T)]
pub struct ExHeaderMap<T>(HeaderMap<T>);

/// The bytes that a header value holds.
pub uninterp spec fn header_value_bytes(v: HeaderValue) -> Seq<u8>;

/// The headers that a map holds: each name with the bytes of its value.
pub uninterp spec fn header_entries(m: HeaderMap) -> Map<Seq<char>, Seq<u8>>;

/// Whether a byte may stand in an HTTP header value: visible ASCII, a space
/// or a tab, or any byte above ASCII; no other control character.
pub open spec fn is_header_byte(b: u8) -> bool {
    (b >= 32 && b != 127) || b == 9
}

/// Whether a text can be sent as an HTTP header value.
pub open spec fn is_header_text(s: Seq<char>) -> bool {
    let bytes = vstd::utf8::encode_utf8(s);
    forall|i: int| 0 <= i < bytes.len() ==> is_header_byte(#[trigger] bytes[i])
}

/// Whether a text is a header name that needs no conversion: non-empty,
/// of lower-case letters and `-`.
pub open spec fn is_plain_header_name(s: Seq<char>) -> bool {
    0 < s.len() <= 64 && forall|i: int|
        0 <= i < s.len() ==> (('a' <= #[trigger] s[i] && s[i] <= 'z') || s[i] == '-')
}

/// Relies on `HeaderValue::from_str` of the http crate: it accepts a text
/// exactly when each of its UTF-8 bytes is a header byte, and keeps those
/// bytes.
#[verifier::external_body]
fn header_value(s: &str) -> (r: Option<HeaderValue>)
    ensures
        r is Some <==> is_header_text(s@),
        r matches Some(v) ==> header_value_bytes(v) == vstd::utf8::encode_utf8(s@),
{
    HeaderValue::from_str(s).ok()
}

/// Relies on `HeaderMap::new` of the http crate: an empty map.
#[verifier::external_body]
fn empty_headers() -> (r: HeaderMap)
    ensures
        header_entries(r).dom().is_empty(),
{
    HeaderMap::new()
}

/// Relies on `HeaderMap::insert` of the http crate with a static name: the
/// name's earlier values, if any, give way to the new one. A plain
/// lower-case name is kept as it is. With fewer than 128 names no insertion
/// can shift 128 entries, so the map never enters the state in which it
/// grows early, and it has room for one more name.
#[verifier::external_body]
fn insert_header(m: &mut HeaderMap, name: &'static str, v: HeaderValue)
    requires
        is_plain_header_name(name@),
        header_entries(*old(m)).dom().len() < 128,
    ensures
        header_entries(*final(m)) == header_entries(*old(m)).insert(name@, header_value_bytes(v)),
{
    m.insert(name, v);
}

/// Name of the header that carries the user.
pub const AUTH_USER_HEADER: &'static str = "x-auth-user";

/// Name of the header that carries the secret.
pub const AUTH_TOKEN_HEADER: &'static str = "x-auth-token";

/// The headers of every request: the user and the secret, as UTF-8.
pub open spec fn auth_headers(config: &Config) -> Map<Seq<char>, Seq<u8>> {
    map![
        AUTH_USER_HEADER@ => vstd::utf8::encode_utf8(config.user@),
        AUTH_TOKEN_HEADER@ => vstd::utf8::encode_utf8(config.password@),
    ]
}

/// The message of a user or secret that no header can carry.
pub open spec fn bad_header_message() -> Seq<char> {
    "user or password holds characters that an HTTP header cannot carry"@
}

/// The auth headers of a configuration; a configuration error where the
/// user or the secret holds a character that a header cannot carry.
pub fn get_headers(config: &Config) -> (r: Result<HeaderMap, KimaiError>)
    ensures
        r is Ok <==> is_header_text(config.user@) && is_header_text(config.password@),
        r matches Ok(m) ==> header_entries(m) == auth_headers(config),
        r matches Err(e) ==> (e matches KimaiError::Config(msg) && msg@ == bad_header_message()),
{
    let user = match header_value(config.user.as_str()) {
        Some(v) => v,
        None => {
            return Err(
                KimaiError::Config(
                    "user or password holds characters that an HTTP header cannot carry".to_string(),
                ),
            );
        },
    };
    let token = match header_value(config.password.as_str()) {
        Some(v) => v,
        None => {
            return Err(
                KimaiError::Config(
                    "user or password holds characters that an HTTP header cannot carry".to_string(),
                ),
            );
        },
    };
    let mut headers = empty_headers();
    proof {
        reveal_strlit("x-auth-user");
        reveal_strlit("x-auth-token");
        assert(header_entries(headers).dom() =~= Set::<Seq<char>>::empty());
    }
    insert_header(&mut headers, AUTH_USER_HEADER, user);
    proof {
        assert(header_entries(headers).dom() =~= set![AUTH_USER_HEADER@]);
        assert(header_entries(headers).dom().len() == 1);
    }
    insert_header(&mut headers, AUTH_TOKEN_HEADER, token);
    assert(header_entries(headers) =~= auth_headers(config));
    Ok(headers)
}

/// The URL of an endpoint: the host, a `/`, then the endpoint's path.
pub open spec fn url_of(host: Seq<char>, endpoint: Seq<char>) -> Seq<char> {
    host + seq!['/'] + endpoint
}

pub fn api_url(host: &String, endpoint: &str) -> (r: String)
    ensures
        r@ == url_of(host@, endpoint@),
{
    let mut url = host.clone();
    url.append("/");
    url.append(endpoint);
    proof {
        reveal_strlit("/");
    }
    url
}

/// Whether a status is a success: one of the 2xx range.
pub open spec fn is_success(status: u16) -> bool {
    200 <= status < 300
}

/// The body of a response that is to be decoded: passed on unchanged after a
/// success status, else an API error that carries it.
pub fn check_response(status: u16, body: String) -> (r: Result<String, KimaiError>)
    ensures
        is_success(status) ==> r == Ok::<String, KimaiError>(body),
        !is_success(status) ==> r == Err::<String, KimaiError>(KimaiError::Api(body)),
{
    if 200 <= status && status < 300 {
        Ok(body)
    } else {
        Err(KimaiError::Api(body))
    }
}

/// A request to one endpoint: its URL and its query, `None` when there is no
/// query string to send.
pub struct ApiRequest {
    pub url: String,
    pub query: Option<Vec<(String, String)>>,
}

pub open spec fn text_param(v: Option<String>) -> Option<QueryValue> {
    match v {
        Some(s) => Some(QueryValue::Text(s)),
        None => None,
    }
}

pub open spec fn ids_param(v: Option<Vec<usize>>) -> Option<QueryValue> {
    match v {
        Some(ids) => Some(QueryValue::Ids(ids)),
        None => None,
    }
}

pub open spec fn id_param(v: Option<usize>) -> Option<QueryValue> {
    match v {
        Some(n) => Some(QueryValue::Id(n)),
        None => None,
    }
}

fn text_value(v: Option<String>) -> (r: Option<QueryValue>)
    ensures
        r == text_param(v),
{
    match v {
        Some(s) => Some(QueryValue::Text(s)),
        None => None,
    }
}

fn ids_value(v: Option<Vec<usize>>) -> (r: Option<QueryValue>)
    ensures
        r == ids_param(v),
{
    match v {
        Some(ids) => Some(QueryValue::Ids(ids)),
        None => None,
    }
}

fn id_value(v: Option<usize>) -> (r: Option<QueryValue>)
    ensures
        r == id_param(v),
{
    match v {
        Some(n) => Some(QueryValue::Id(n)),
        None => None,
    }
}

/// Whether a request goes to `endpoint` of the host with the query of
/// `params`.
pub open spec fn request_is(
    r: ApiRequest,
    config: &Config,
    endpoint: Seq<char>,
    params: Seq<(Seq<char>, Option<QueryValue>)>,
) -> bool {
    r.url@ == url_of(config.host@, endpoint) && query_view(r.query) == query_of(params)
}

fn param(key: &str, value: Option<QueryValue>) -> (r: (String, Option<QueryValue>))
    ensures
        r.0@ == key@,
        r.1 == value,
{
    (key.to_string(), value)
}

/// The customers, filtered by a search term.
pub fn customers_request(config: &Config, term: Option<String>) -> (r: ApiRequest)
    ensures
        request_is(r, config, "api/customers"@, seq![("term"@, text_param(term))]),
{
    let params = vec![param("term", text_value(term))];
    assert(params_view(params@) =~= seq![("term"@, text_param(term))]);
    ApiRequest { url: api_url(&config.host, "api/customers"), query: build_query(params) }
}

/// The projects, filtered by customer ids and a search term.
pub fn projects_request(config: &Config, customers: Option<Vec<usize>>, term: Option<String>) -> (r:
    ApiRequest)
    ensures
        request_is(
            r,
            config,
            "api/projects"@,
            seq![("customers"@, ids_param(customers)), ("term"@, text_param(term))],
        ),
{
    let params = vec![param("customers", ids_value(customers)), param("term", text_value(term))];
    assert(params_view(params@) =~= seq![
        ("customers"@, ids_param(customers)),
        ("term"@, text_param(term)),
    ]);
    ApiRequest { url: api_url(&config.host, "api/projects"), query: build_query(params) }
}

/// The activities, filtered by project ids and a search term.
pub fn activities_request(config: &Config, projects: Option<Vec<usize>>, term: Option<String>) -> (r:
    ApiRequest)
    ensures
        request_is(
            r,
            config,
            "api/activities"@,
            seq![("projects"@, ids_param(projects)), ("term"@, text_param(term))],
        ),
{
    let params = vec![param("projects", ids_value(projects)), param("term", text_value(term))];
    assert(params_view(params@) =~= seq![
        ("projects"@, ids_param(projects)),
        ("term"@, text_param(term)),
    ]);
    ApiRequest { url: api_url(&config.host, "api/activities"), query: build_query(params) }
}

/// The timesheet records, filtered by user, customer, project and activity
/// ids.
pub fn timesheet_request(
    config: &Config,
    user: Option<usize>,
    customers: Option<Vec<usize>>,
    projects: Option<Vec<usize>>,
    activities: Option<Vec<usize>>,
) -> (r: ApiRequest)
    ensures
        request_is(
            r,
            config,
            "api/timesheets"@,
            seq![
                ("user"@, id_param(user)),
                ("customers"@, ids_param(customers)),
                ("projects"@, ids_param(projects)),
                ("activities"@, ids_param(activities)),
            ],
        ),
{
    let params = vec![
        param("user", id_value(user)),
        param("customers", ids_value(customers)),
        param("projects", ids_value(projects)),
        param("activities", ids_value(activities)),
    ];
    assert(params_view(params@) =~= seq![
        ("user"@, id_param(user)),
        ("customers"@, ids_param(customers)),
        ("projects"@, ids_param(projects)),
        ("activities"@, ids_param(activities)),
    ]);
    ApiRequest { url: api_url(&config.host, "api/timesheets"), query: build_query(params) }
}

/// The user whose credentials the configuration holds.
pub fn current_user_request(config: &Config) -> (r: ApiRequest)
    ensures
        r.url@ == url_of(config.host@, "api/users/me"@),
        r.query is None,
{
    ApiRequest { url: api_url(&config.host, "api/users/me"), query: None }
}

/// The request that starts a new timesheet record; its body is a
/// `NewTimesheetRecord`.
pub fn begin_record_request(config: &Config) -> (r: ApiRequest)
    ensures
        r.url@ == url_of(config.host@, "api/timesheets"@),
        r.query is None,
{
    ApiRequest { url: api_url(&config.host, "api/timesheets"), query: None }
}

} // verus!
