//! Starting a new flow: the browser endpoint is asked for a redirect,
//! the CSRF cookie and flow identifier are harvested from its answer, the
//! flow detail is then requested, and the CSRF cookie is relayed to the
//! end user's browser.

use vstd::prelude::*;
use crate::http::HttpRequest;
use crate::http::HttpResponse;
use crate::location::flow_id_of_location;
use crate::model::Flow;
use crate::model::FlowError;
use crate::model::FlowKind;
use crate::pairs::first_value_for;
use crate::pairs::lookup_value;
use crate::relay::HeaderRelay;
use crate::text::str_eq;

verus! {

/// The upstream path that starts a browser flow of the given kind.
pub open spec fn browser_path(kind: FlowKind) -> Seq<char> {
    match kind {
        FlowKind::Login => "/self-service/login/browser"@,
        FlowKind::Registration => "/self-service/registration/browser"@,
    }
}

/// The upstream path that reports the detail of a flow of the given kind.
pub open spec fn flows_path(kind: FlowKind) -> Seq<char> {
    match kind {
        FlowKind::Login => "/self-service/login/flows"@,
        FlowKind::Registration => "/self-service/registration/flows"@,
    }
}

fn browser_path_str(kind: FlowKind) -> (r: &'static str)
    ensures
        r@ == browser_path(kind),
{
    match kind {
        FlowKind::Login => "/self-service/login/browser",
        FlowKind::Registration => "/self-service/registration/browser",
    }
}

pub(crate) fn flows_path_str(kind: FlowKind) -> (r: &'static str)
    ensures
        r@ == flows_path(kind),
{
    match kind {
        FlowKind::Login => "/self-service/login/flows",
        FlowKind::Registration => "/self-service/registration/flows",
    }
}

/// The flow identifier the redirect answer names: the `flow` query
/// parameter of the first `location` header's URL.
pub open spec fn redirect_flow_id(headers: Seq<(String, String)>) -> Option<Seq<char>> {
    match first_value_for(headers, "location"@) {
        Some(loc) => flow_id_of_location(loc),
        None => None,
    }
}

/// What the redirect answer yielded, carried between the two outbound
/// calls of one `initiate`: the flow identifier, the CSRF token, and the
/// wire-form CSRF cookie to relay onto the outbound response.
#[derive(Clone, Debug)]
pub struct PendingFlow {
    pub kind: FlowKind,
    pub flow_id: String,
    pub csrf_token: String,
    pub set_cookie: String,
}

/// The first outbound call of `initiate`: a GET of the browser endpoint
/// for the given kind. The caller must not follow redirects and must keep
/// the answer's cookies.
pub fn initiate_request(kind: FlowKind, base: &str) -> (r: HttpRequest)
    ensures
        r.method@ == "GET"@,
        r.url@ == base@ + browser_path(kind),
        r.query@.len() == 0,
        r.headers@.len() == 0,
        r.body is None,
{
    let mut url = base.to_owned();
    url.append(browser_path_str(kind));
    HttpRequest {
        method: "GET".to_owned(),
        url,
        query: Vec::new(),
        headers: Vec::new(),
        body: None,
    }
}

/// Reads the browser endpoint's redirect answer and builds the follow-up
/// call. The first cookie's value is the CSRF token; the `location`
/// header must name a `flow` query parameter — the flow identifier; a
/// `set-cookie` header must be present to relay. The follow-up call asks
/// the flows endpoint for that identifier, with the CSRF token attached.
pub fn initiate_redirect(kind: FlowKind, base: &str, resp: &HttpResponse) -> (r: Result<
    (PendingFlow, HttpRequest),
    FlowError,
>)
    ensures
        match r {
            Ok((pending, req)) => {
                &&& resp.cookies@.len() > 0
                &&& pending.kind == kind
                &&& pending.csrf_token@ == resp.cookies@[0].value@
                &&& redirect_flow_id(resp.headers@) == Some(pending.flow_id@)
                &&& first_value_for(resp.headers@, "set-cookie"@) == Some(pending.set_cookie@)
                &&& req.method@ == "GET"@
                &&& req.url@ == base@ + flows_path(kind)
                &&& req.query@.len() == 1
                &&& req.query@[0].0@ == "id"@
                &&& req.query@[0].1@ == pending.flow_id@
                &&& req.headers@.len() == 1
                &&& req.headers@[0].0@ == "x-csrf-token"@
                &&& req.headers@[0].1@ == pending.csrf_token@
                &&& req.body is None
            },
            Err(e) => {
                ||| (e == FlowError::MissingCsrfCookie && resp.cookies@.len() == 0)
                ||| (e == FlowError::MissingRedirectLocation && resp.cookies@.len() > 0
                    && first_value_for(resp.headers@, "location"@) is None)
                ||| (e == FlowError::MissingFlowIdentifier && resp.cookies@.len() > 0
                    && first_value_for(resp.headers@, "location"@) is Some && redirect_flow_id(
                    resp.headers@,
                ) is None)
                ||| (e == FlowError::MissingSetCookieHeader && resp.cookies@.len() > 0
                    && redirect_flow_id(resp.headers@) is Some && first_value_for(
                    resp.headers@,
                    "set-cookie"@,
                ) is None)
            },
        },
{
    if resp.cookies.len() == 0 {
        return Err(FlowError::MissingCsrfCookie);
    }
    let csrf_token = resp.cookies[0].value.clone();
    let location = match lookup_value(&resp.headers, "location") {
        Some(l) => l,
        None => {
            return Err(FlowError::MissingRedirectLocation);
        },
    };
    let flow_id = match crate::location::flow_id_from_location(location.as_str()) {
        Ok(id) => id,
        Err(_) => {
            return Err(FlowError::MissingFlowIdentifier);
        },
    };
    let set_cookie = match lookup_value(&resp.headers, "set-cookie") {
        Some(s) => s,
        None => {
            return Err(FlowError::MissingSetCookieHeader);
        },
    };
    let mut url = base.to_owned();
    url.append(flows_path_str(kind));
    let mut query: Vec<(String, String)> = Vec::new();
    query.push(("id".to_owned(), flow_id.clone()));
    let mut headers: Vec<(String, String)> = Vec::new();
    headers.push(("x-csrf-token".to_owned(), csrf_token.clone()));
    let req = HttpRequest { method: "GET".to_owned(), url, query, headers, body: None };
    Ok((PendingFlow { kind, flow_id, csrf_token, set_cookie }, req))
}

/// Accepts the flow detail the upstream reported. The flow must name the
/// identifier the redirect promised; the harvested CSRF cookie is relayed
/// onto the outbound response so the browser persists it.
pub fn initiate_finish(pending: &PendingFlow, parsed: Option<Flow>) -> (r: Result<
    (Flow, HeaderRelay),
    FlowError,
>)
    ensures
        match r {
            Ok((flow, relay)) => {
                &&& parsed is Some
                &&& flow == parsed.unwrap()
                &&& flow.id@ == pending.flow_id@
                &&& relay.headers@.len() == 1
                &&& relay.headers@[0].0@ == "set-cookie"@
                &&& relay.headers@[0].1@ == pending.set_cookie@
            },
            Err(e) => {
                &&& e == FlowError::MalformedFlowPayload
                &&& (parsed is None || parsed.unwrap().id@ != pending.flow_id@)
            },
        },
{
    let flow = match parsed {
        Some(f) => f,
        None => {
            return Err(FlowError::MalformedFlowPayload);
        },
    };
    if !str_eq(flow.id.as_str(), pending.flow_id.as_str()) {
        return Err(FlowError::MalformedFlowPayload);
    }
    let mut relay = HeaderRelay::new();
    relay.insert_header("set-cookie".to_owned(), pending.set_cookie.clone());
    Ok((flow, relay))
}

} // verus!
