//! Fetching an existing flow: the CSRF cookie already set on the browser
//! is found in the inbound cookie jar, and the flows endpoint is asked for
//! the flow's detail with that token as a header and the raw cookie
//! re-attached (the call is made without a shared cookie store).

use vstd::prelude::*;
use crate::http::HttpRequest;
use crate::http::csrf_first;
use crate::http::find_csrf_cookie;
use crate::initiate::flows_path;
use crate::model::Cookie;
use crate::model::Flow;
use crate::model::FlowError;
use crate::model::FlowKind;

verus! {

/// The wire form of one cookie: `name=value`.
pub open spec fn cookie_pair(name: Seq<char>, value: Seq<char>) -> Seq<char> {
    name + "="@ + value
}

/// Builds one `name=value` cookie header value.
pub fn cookie_header_value(c: &Cookie) -> (r: String)
    ensures
        r@ == cookie_pair(c.name@, c.value@),
{
    let mut s = c.name.clone();
    s.append("=");
    s.append(c.value.as_str());
    s
}

/// Builds the call that fetches an existing flow: a GET of the flows
/// endpoint with the flow identifier, the jar's CSRF token as the
/// `x-csrf-token` header, and the CSRF cookie re-attached as a `cookie`
/// header. Fails with `MissingCsrfCookie` when the jar holds no cookie
/// whose name carries a CSRF token.
pub fn fetch_request(kind: FlowKind, base: &str, flow_id: &str, jar: &Vec<Cookie>) -> (r: Result<
    HttpRequest,
    FlowError,
>)
    ensures
        match r {
            Ok(req) => {
                &&& csrf_first(jar@) is Some
                &&& req.method@ == "GET"@
                &&& req.url@ == base@ + flows_path(kind)
                &&& req.query@.len() == 1
                &&& req.query@[0].0@ == "id"@
                &&& req.query@[0].1@ == flow_id@
                &&& req.headers@.len() == 2
                &&& req.headers@[0].0@ == "x-csrf-token"@
                &&& req.headers@[0].1@ == csrf_first(jar@).unwrap().1
                &&& req.headers@[1].0@ == "cookie"@
                &&& req.headers@[1].1@ == cookie_pair(
                    csrf_first(jar@).unwrap().0,
                    csrf_first(jar@).unwrap().1,
                )
                &&& req.body is None
            },
            Err(e) => {
                &&& e == FlowError::MissingCsrfCookie
                &&& csrf_first(jar@) is None
            },
        },
{
    let cookie = match find_csrf_cookie(jar) {
        Ok(c) => c,
        Err(e) => {
            return Err(e);
        },
    };
    let mut url = base.to_owned();
    url.append(crate::initiate::flows_path_str(kind));
    let mut query: Vec<(String, String)> = Vec::new();
    query.push(("id".to_owned(), flow_id.to_owned()));
    let mut headers: Vec<(String, String)> = Vec::new();
    headers.push(("x-csrf-token".to_owned(), cookie.value.clone()));
    headers.push(("cookie".to_owned(), cookie_header_value(&cookie)));
    Ok(HttpRequest { method: "GET".to_owned(), url, query, headers, body: None })
}

/// Accepts the fetched flow detail: the body must have parsed as a flow;
/// anything else is a malformed payload. No header is relayed — the CSRF
/// cookie is already set on the client.
pub fn fetch_finish(parsed: Option<Flow>) -> (r: Result<Flow, FlowError>)
    ensures
        match r {
            Ok(flow) => parsed is Some && flow == parsed.unwrap(),
            Err(e) => parsed is None && e == FlowError::MalformedFlowPayload,
        },
{
    match parsed {
        Some(f) => Ok(f),
        None => Err(FlowError::MalformedFlowPayload),
    }
}

} // verus!
