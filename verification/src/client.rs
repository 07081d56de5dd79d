//! What the device control client sends: the address and the JSON body of
//! each of the three requests that the router understands.
//!
//! Sending a request and reading the answer are left to the caller.

use crate::job::Operation;
use vstd::prelude::*;

verus! {

/// Address of the router's only endpoint.
pub const BASE_URL: &'static str = "http://192.168.0.1/";

/// The views of both sides of a textual result.
pub open spec fn texts(r: Result<String, String>) -> Result<Seq<char>, Seq<char>> {
    match r {
        Ok(s) => Ok(s@),
        Err(e) => Err(e@),
    }
}

/// What joining the URL reference `reference` onto the URL `base` gives: the
/// resulting URL's text, or the text of the parser's complaint.
pub uninterp spec fn joined_url(base: Seq<char>, reference: Seq<char>) -> Result<
    Seq<char>,
    Seq<char>,
>;

/// What `value` looks like as a JSON string literal, quotes and escapes
/// included, or the text of the serializer's complaint.
pub uninterp spec fn json_text(value: Seq<char>) -> Result<Seq<char>, Seq<char>>;

/// Calls `reqwest::Url::parse` on `base` and `Url::join` on the parsed URL
/// with `reference`.
///
/// Trusted: the result is the joined URL in its serialized form, or the
/// display text of the `ParseError` that either call gave; it depends on the
/// two texts alone, which is all that the contract claims by naming it.
#[verifier::external_body]
fn join_url(base: &str, reference: &str) -> (r: Result<String, String>)
    ensures
        texts(r) == joined_url(base@, reference@),
{
    let joined = match reqwest::Url::parse(base) {
        Ok(url) => url.join(reference),
        Err(e) => Err(e),
    };
    match joined {
        Ok(url) => Ok(String::from(url)),
        Err(e) => Err(e.to_string()),
    }
}

/// Calls `serde_json::to_string` on the string `value`.
///
/// Trusted: the result is the JSON text that serde_json writes for a string,
/// or the display text of its error; it depends on `value` alone, which is
/// all that the contract claims by naming it.
#[verifier::external_body]
fn quote_json(value: &str) -> (r: Result<String, String>)
    ensures
        texts(r) == json_text(value@),
{
    match serde_json::to_string(value) {
        Ok(text) => Ok(text),
        Err(e) => Err(e.to_string()),
    }
}

/// The path of the authenticated endpoint: the token, verbatim, between a
/// fixed prefix and a fixed suffix.
pub open spec fn authenticated_path_text(stok: Seq<char>) -> Seq<char> {
    "/stok="@ + stok + "/ds"@
}

/// Body of the login request, given the password as a JSON string literal.
pub open spec fn login_body_text(quoted_password: Seq<char>) -> Seq<char> {
    "{\"method\":\"do\",\"login\":{\"password\":"@ + quoted_password + "}}"@
}

/// Body of the request that switches the WAN link.
pub open spec fn switch_wan_body_text(operation: Operation) -> Seq<char> {
    "{\"method\":\"do\",\"network\":{\"change_wan_status\":{\"proto\":\"pppoe\",\"operate\":\""@
        + operation.text() + "\"}}}"@
}

/// Body of the request that asks for the WAN status.
pub open spec fn wan_status_body_text() -> Seq<char> {
    "{\"method\":\"get\",\"network\":{\"name\":[\"wan_status\"]}}"@
}

/// A request to the router: a POST of `body`, which is JSON, to `url`.
#[derive(Debug, PartialEq, Eq)]
pub struct Request {
    pub url: String,
    pub body: String,
}

/// Mathematical value of a [`Request`].
pub ghost struct RequestView {
    pub url: Seq<char>,
    pub body: Seq<char>,
}

impl View for Request {
    type V = RequestView;

    open spec fn view(&self) -> RequestView {
        RequestView { url: self.url@, body: self.body@ }
    }
}

/// The view of a request that was built, or of the text that says why not.
pub open spec fn built(r: Result<Request, String>) -> Result<RequestView, Seq<char>> {
    match r {
        Ok(request) => Ok(request@),
        Err(e) => Err(e@),
    }
}

/// The request with body `body` to the address `url`, where there is one.
pub open spec fn addressed(url: Result<Seq<char>, Seq<char>>, body: Seq<char>) -> Result<
    RequestView,
    Seq<char>,
> {
    match url {
        Ok(url) => Ok(RequestView { url, body }),
        Err(e) => Err(e),
    }
}

/// The login request for a password, given what quoting the password gave.
pub open spec fn login_request_for(quoted: Result<Seq<char>, Seq<char>>) -> Result<
    RequestView,
    Seq<char>,
> {
    match quoted {
        Ok(q) => Ok(RequestView { url: BASE_URL@, body: login_body_text(q) }),
        Err(e) => Err(e),
    }
}

/// The path of the authenticated endpoint for the session token `stok`.
pub fn authenticated_path(stok: &str) -> (r: String)
    ensures
        r@ == authenticated_path_text(stok@),
{
    String::from_str("/stok=").concat(stok).concat("/ds")
}

/// The address of the authenticated endpoint for the session token `stok`:
/// the base address joined with the token's path. A token that the URL
/// parser refuses gives the parser's complaint.
pub fn get_url(stok: &str) -> (r: Result<String, String>)
    ensures
        texts(r) == joined_url(BASE_URL@, authenticated_path_text(stok@)),
{
    let path = authenticated_path(stok);
    join_url(BASE_URL, path.as_str())
}

/// Body of the login request, given the password as a JSON string literal.
pub fn login_body(quoted_password: &str) -> (r: String)
    ensures
        r@ == login_body_text(quoted_password@),
{
    String::from_str("{\"method\":\"do\",\"login\":{\"password\":").concat(
        quoted_password,
    ).concat("}}")
}

/// Body of the request that switches the WAN link: the protocol is always
/// PPPoE.
pub fn switch_wan_body(operation: Operation) -> (r: String)
    ensures
        r@ == switch_wan_body_text(operation),
{
    String::from_str(
        "{\"method\":\"do\",\"network\":{\"change_wan_status\":{\"proto\":\"pppoe\",\"operate\":\"",
    ).concat(operation.name()).concat("\"}}}")
}

/// Body of the request that asks for the WAN status.
pub fn wan_status_body() -> (r: String)
    ensures
        r@ == wan_status_body_text(),
{
    String::from_str("{\"method\":\"get\",\"network\":{\"name\":[\"wan_status\"]}}")
}

/// The login request, given what quoting the password as JSON gave: a POST
/// to the base address, or the serializer's complaint.
pub fn login_request_from(quoted: Result<String, String>) -> (r: Result<Request, String>)
    ensures
        built(r) == login_request_for(texts(quoted)),
{
    match quoted {
        Ok(q) => Ok(Request { url: String::from_str(BASE_URL), body: login_body(q.as_str()) }),
        Err(e) => Err(e),
    }
}

/// The login request for `password`.
pub fn login_request(password: &str) -> (r: Result<Request, String>)
    ensures
        built(r) == login_request_for(json_text(password@)),
{
    login_request_from(quote_json(password))
}

/// The request with body `body` to the address that joining gave, or the
/// parser's complaint where it gave none.
pub fn request_to(url: Result<String, String>, body: String) -> (r: Result<Request, String>)
    ensures
        built(r) == addressed(texts(url), body@),
{
    match url {
        Ok(url) => Ok(Request { url, body }),
        Err(e) => Err(e),
    }
}

/// The request that switches the WAN link, authenticated by `stok`.
pub fn switch_wan_request(stok: &str, operation: Operation) -> (r: Result<Request, String>)
    ensures
        built(r) == addressed(
            joined_url(BASE_URL@, authenticated_path_text(stok@)),
            switch_wan_body_text(operation),
        ),
{
    request_to(get_url(stok), switch_wan_body(operation))
}

/// The request that asks for the WAN status, authenticated by `stok`.
pub fn get_ip_request(stok: &str) -> (r: Result<Request, String>)
    ensures
        built(r) == addressed(
            joined_url(BASE_URL@, authenticated_path_text(stok@)),
            wan_status_body_text(),
        ),
{
    request_to(get_url(stok), wan_status_body())
}

} // verus!
