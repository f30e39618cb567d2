//! How the Teawie Archive is asked for its listings on GitHub: the URLs, the
//! directories, the authorization header and the client's user agent.

use axum::http::header::InvalidHeaderValue;
use axum::http::HeaderValue;

use vstd::prelude::*;
use vstd::string::*;

verus! {

#[verifier::external_type_specification]
#[verifier::external_body]
pub struct ExHeaderValue(HeaderValue);

#[verifier::external_type_specification]
#[verifier::external_body]
pub struct ExInvalidHeaderValue(InvalidHeaderValue);

/// A byte that may stand in an HTTP header value: visible ASCII, a space,
/// a tab, or any byte from 128 up (everything but the other control bytes).
pub open spec fn header_byte_ok(b: u8) -> bool {
    (b >= 32 && b != 127) || b == 9
}

/// Whether every byte of `bytes` may stand in an HTTP header value.
pub open spec fn header_bytes_ok(bytes: Seq<u8>) -> bool {
    forall|i: int| 0 <= i < bytes.len() ==> header_byte_ok(#[trigger] bytes[i])
}

/// The header value that `HeaderValue::from_str` builds from a valid string.
pub uninterp spec fn header_value_from(s: Seq<char>) -> HeaderValue;

/// `http::HeaderValue::from_str` (reached through `axum::http`): it checks
/// each UTF-8 byte of `s` and fails if one is a control byte other than tab;
/// otherwise it returns the value holding those bytes, which is named
/// `header_value_from(s@)`.
#[verifier::external_body]
fn header_value(s: &str) -> (r: Result<HeaderValue, InvalidHeaderValue>)
    ensures
        r is Ok <==> header_bytes_ok(s.spec_bytes()),
        r matches Ok(v) ==> v == header_value_from(s@),
{
    HeaderValue::from_str(s)
}

/// Why a request to GitHub could not be prepared.
#[derive(Debug, PartialEq, Eq, Structural)]
pub enum RequestError {
    /// The token makes an `Authorization` header value that HTTP does not allow.
    InvalidHeaderValue,
}

/// The base URL of GitHub's REST API.
pub open spec fn api_url() -> Seq<char> {
    "https://api.github.com"@
}

/// Owner of the Teawie repository.
pub open spec fn repo_owner() -> Seq<char> {
    "SympathyTea"@
}

/// Name of the Teawie repository.
pub open spec fn repo_name() -> Seq<char> {
    "Teawie-Archive"@
}

/// `GET /repos/{owner}/{repo}/contents/{path}` for the Teawie repository.
pub open spec fn contents_url_of(path: Seq<char>) -> Seq<char> {
    api_url() + "/repos/"@ + repo_owner() + "/"@ + repo_name() + "/contents/"@ + path
}

/// The directories of the archive that hold Teawie pictures.
pub open spec fn teawie_subdirs() -> Seq<Seq<char>> {
    seq![
        "teawie-media/Original Teawies"@,
        "teawie-media/Teawie Variants"@,
        "teawie-media/Teawie in Places"@,
        "teawie-media/Unfinished Teawies"@,
    ]
}

/// The `Authorization` header value that a token makes.
pub open spec fn bearer_of(token: Seq<char>) -> Seq<char> {
    "Bearer "@ + token
}

/// The user agent of the service's HTTP client.
pub open spec fn user_agent_of(version: Option<Seq<char>>) -> Seq<char> {
    "teawie-api/"@ + match version {
        Some(v) => v,
        None => "development"@,
    }
}

/// The URL of the listing of `path` in the Teawie repository.
pub fn contents_url(path: &str) -> (url: String)
    ensures
        url@ == contents_url_of(path@),
{
    let mut url = "https://api.github.com".to_owned();
    url.append("/repos/");
    url.append("SympathyTea");
    url.append("/");
    url.append("Teawie-Archive");
    url.append("/contents/");
    url.append(path);
    url
}

/// The directories of the archive that hold Teawie pictures, in the order
/// they are fetched.
pub fn teawie_subdirectories() -> (dirs: Vec<String>)
    ensures
        dirs.deep_view() == teawie_subdirs(),
{
    let mut dirs: Vec<String> = Vec::new();
    dirs.push("teawie-media/Original Teawies".to_owned());
    dirs.push("teawie-media/Teawie Variants".to_owned());
    dirs.push("teawie-media/Teawie in Places".to_owned());
    dirs.push("teawie-media/Unfinished Teawies".to_owned());
    proof {
        assert(dirs.deep_view() =~= teawie_subdirs());
    }
    dirs
}

/// The `Authorization` header for a token: `Bearer {token}`, if HTTP allows
/// that value.
pub fn authorization(token: &str) -> (r: Result<HeaderValue, RequestError>)
    ensures
        r is Ok <==> header_bytes_ok(vstd::utf8::encode_utf8(bearer_of(token@))),
        r matches Ok(v) ==> v == header_value_from(bearer_of(token@)),
        r matches Err(e) ==> e == RequestError::InvalidHeaderValue,
{
    let mut value = "Bearer ".to_owned();
    value.append(token);
    match header_value(value.as_str()) {
        Ok(v) => Ok(v),
        Err(_) => Err(RequestError::InvalidHeaderValue),
    }
}

/// A GET request for one listing: where it goes, and the `Authorization`
/// header it carries, if any.
pub struct ContentsRequest {
    pub url: String,
    pub authorization: Option<HeaderValue>,
}

/// Plan the request for the listing of `path`: with a GitHub token it is
/// authenticated by a bearer header; without one it goes out anonymously
/// (and is subject to lower rate limits).
pub fn contents_request(path: &str, token: Option<String>) -> (r: Result<
    ContentsRequest,
    RequestError,
>)
    ensures
        r matches Ok(req) ==> req.url@ == contents_url_of(path@),
        token is None ==> (r matches Ok(req) && req.authorization is None),
        token matches Some(t) ==> {
            &&& r is Ok <==> header_bytes_ok(vstd::utf8::encode_utf8(bearer_of(t@)))
            &&& r matches Ok(req) ==> req.authorization == Some(header_value_from(bearer_of(t@)))
        },
        r matches Err(e) ==> e == RequestError::InvalidHeaderValue,
{
    match token {
        Some(t) => {
            let v = authorization(t.as_str())?;
            Ok(ContentsRequest { url: contents_url(path), authorization: Some(v) })
        },
        None => Ok(ContentsRequest { url: contents_url(path), authorization: None }),
    }
}

/// The user agent `teawie-api/{version}`, with `development` when the
/// version is not known.
pub fn user_agent(version: Option<&str>) -> (ua: String)
    ensures
        ua@ == user_agent_of(
            match version {
                Some(v) => Some(v@),
                None => None,
            },
        ),
{
    let mut ua = "teawie-api/".to_owned();
    match version {
        Some(v) => ua.append(v),
        None => ua.append("development"),
    }
    ua
}

} // verus!
