//! Submitting a filled form: the `action` entry is stripped from the body
//! and used as the target URL, the CSRF token and cookie are forwarded,
//! and the upstream answer is classified as completion (a session marker
//! among its `Set-Cookie` values), rejection (status 403), or
//! continuation (a new flow to render).

use vstd::prelude::*;
use crate::form::FormState;
use crate::http::HttpRequest;
use crate::http::csrf_first;
use crate::http::find_csrf_cookie;
use crate::http::header_values;
use crate::http::header_value_all;
use crate::fetch::cookie_pair;
use crate::fetch::cookie_header_value;
use crate::json::json_object;
use crate::json::encode_object_string;
use crate::model::Cookie;
use crate::model::Flow;
use crate::model::FlowError;
use crate::model::SubmissionOutcome;
use crate::pairs::first_value_for;
use crate::pairs::remove_key;
use crate::pairs::lemma_remove_key_excludes;
use crate::relay::HeaderRelay;
use crate::relay::cache_control_spec;
use crate::relay::cache_control_value;
use crate::text::contains_seq;
use crate::text::str_contains;

verus! {

/// The cookie name the upstream sets once a session is established; its
/// appearance among the answer's `Set-Cookie` values is the sole
/// completion signal.
pub open spec fn session_marker() -> Seq<char> {
    "ory_kratos_session"@
}

/// Does any of the given `Set-Cookie` values carry the session marker?
pub open spec fn has_session_marker(values: Seq<Seq<char>>) -> bool {
    exists|i: int| 0 <= i < values.len() && contains_seq(values[i], session_marker())
}

/// The submitted body never carries the `action` entry the form state
/// holds: every entry of the encoded body has some other name.
pub proof fn lemma_body_excludes_action(entries: Seq<(String, String)>)
    ensures
        forall|i: int|
            0 <= i < remove_key(entries, "action"@).len() ==> #[trigger] remove_key(
                entries,
                "action"@,
            )[i].0@ != "action"@,
{
    lemma_remove_key_excludes(entries, "action"@);
}

/// Builds the submission call: a POST to the form state's `action` URL
/// whose body is the JSON object of every other entry, in order, with the
/// jar's CSRF token and cookie forwarded. Fails with `MissingActionTarget`
/// when the form state holds no `action` entry, and with
/// `MissingCsrfCookie` when the jar holds no CSRF cookie.
pub fn submit_request(form: &FormState, jar: &Vec<Cookie>) -> (r: Result<HttpRequest, FlowError>)
    ensures
        match r {
            Ok(req) => {
                &&& first_value_for(form@, "action"@) == Some(req.url@)
                &&& csrf_first(jar@) is Some
                &&& req.method@ == "POST"@
                &&& req.query@.len() == 0
                &&& req.headers@.len() == 3
                &&& req.headers@[0].0@ == "x-csrf-token"@
                &&& req.headers@[0].1@ == csrf_first(jar@).unwrap().1
                &&& req.headers@[1].0@ == "content-type"@
                &&& req.headers@[1].1@ == "application/json"@
                &&& req.headers@[2].0@ == "cookie"@
                &&& req.headers@[2].1@ == cookie_pair(
                    csrf_first(jar@).unwrap().0,
                    csrf_first(jar@).unwrap().1,
                )
                &&& req.body is Some
                &&& req.body.unwrap()@ == json_object(remove_key(form@, "action"@))
            },
            Err(e) => {
                ||| (e == FlowError::MissingActionTarget && first_value_for(
                    form@,
                    "action"@,
                ) is None)
                ||| (e == FlowError::MissingCsrfCookie && first_value_for(
                    form@,
                    "action"@,
                ) is Some && csrf_first(jar@) is None)
            },
        },
{
    let action = match form.get("action") {
        Some(a) => a,
        None => {
            return Err(FlowError::MissingActionTarget);
        },
    };
    let cookie = match find_csrf_cookie(jar) {
        Ok(c) => c,
        Err(e) => {
            return Err(e);
        },
    };
    let body_entries = form.without_key("action");
    let body = encode_object_string(&body_entries);
    let mut headers: Vec<(String, String)> = Vec::new();
    headers.push(("x-csrf-token".to_owned(), cookie.value.clone()));
    headers.push(("content-type".to_owned(), "application/json".to_owned()));
    headers.push(("cookie".to_owned(), cookie_header_value(&cookie)));
    Ok(HttpRequest {
        method: "POST".to_owned(),
        url: action,
        query: Vec::new(),
        headers,
        body: Some(body),
    })
}

/// How a submission answer is classified before any body is read.
#[derive(Clone, Copy, PartialEq, Eq, Structural, Debug)]
pub enum SubmissionClass {
    /// A session marker among the `Set-Cookie` values: the flow completed.
    Completed,
    /// No marker and status 403: the upstream refused the submission.
    Rejected,
    /// No marker, any other status: the body must be read as a flow.
    NeedsBody,
}

/// The classification of a submission answer: a session marker means
/// completion whatever the status or body; without one, a 403 means
/// rejection; anything else continues the flow.
pub open spec fn classified(status: u16, cookie_values: Seq<Seq<char>>) -> SubmissionClass {
    if has_session_marker(cookie_values) {
        SubmissionClass::Completed
    } else if status == 403 {
        SubmissionClass::Rejected
    } else {
        SubmissionClass::NeedsBody
    }
}

/// A session marker always means completion, whatever the status and
/// whatever the rest of the answer holds.
pub proof fn lemma_marker_completes(status: u16, cookie_values: Seq<Seq<char>>)
    requires
        has_session_marker(cookie_values),
    ensures
        classified(status, cookie_values) == SubmissionClass::Completed,
{
}

/// A 403 without a session marker is always a rejection — never a
/// continuation, whatever the body holds.
pub proof fn lemma_forbidden_rejects(cookie_values: Seq<Seq<char>>)
    requires
        !has_session_marker(cookie_values),
    ensures
        classified(403, cookie_values) == SubmissionClass::Rejected,
{
}

/// Classifies a submission answer from its status and headers alone — the
/// body is not consulted — and collects the headers to relay onto the
/// outbound response: the cache suppression first, then every `Set-Cookie`
/// value in wire order.
pub fn classify_submission(status: u16, resp_headers: &Vec<(String, String)>) -> (r: (
    SubmissionClass,
    HeaderRelay,
))
    ensures
        r.0 == classified(status, header_values(resp_headers@, "set-cookie"@)),
        r.1.headers@.len() == 1 + header_values(resp_headers@, "set-cookie"@).len(),
        r.1.headers@[0].0@ == "cache-control"@,
        r.1.headers@[0].1@ == cache_control_spec(),
        forall|i: int|
            0 <= i < header_values(resp_headers@, "set-cookie"@).len() ==> {
                &&& (#[trigger] r.1.headers@[i + 1]).0@ == "set-cookie"@
                &&& r.1.headers@[i + 1].1@ == header_values(resp_headers@, "set-cookie"@)[i]
            },
{
    let ghost values = header_values(resp_headers@, "set-cookie"@);
    let cookies = header_value_all(resp_headers, "set-cookie");
    let n = cookies.len();
    let mut relay = HeaderRelay::new();
    relay.insert_header("cache-control".to_owned(), cache_control_value().to_owned());
    let mut done = false;
    let mut i: usize = 0;
    while i < n
        invariant
            n == cookies@.len(),
            n == values.len(),
            forall|k: int| 0 <= k < n ==> cookies@[k]@ == values[k],
            0 <= i <= n,
            done == exists|k: int| 0 <= k < i && contains_seq(values[k], session_marker()),
            relay.headers@.len() == 1 + i,
            relay.headers@[0].0@ == "cache-control"@,
            relay.headers@[0].1@ == cache_control_spec(),
            forall|k: int|
                0 <= k < i ==> {
                    &&& (#[trigger] relay.headers@[k + 1]).0@ == "set-cookie"@
                    &&& relay.headers@[k + 1].1@ == values[k]
                },
        decreases n - i,
    {
        let found = str_contains(cookies[i].as_str(), "ory_kratos_session");
        if found {
            done = true;
        }
        proof {
            assert(found == contains_seq(values[i as int], session_marker()));
            if done {
                if found {
                    assert(exists|k: int|
                        0 <= k < i + 1 && contains_seq(values[k], session_marker())) by {
                        assert(contains_seq(values[i as int], session_marker()));
                    }
                }
            } else {
                assert forall|k: int| 0 <= k < i + 1 implies !contains_seq(
                    values[k],
                    session_marker(),
                ) by {
                    if k < i {
                        assert(!contains_seq(values[k], session_marker()));
                    }
                }
            }
        }
        relay.insert_header("set-cookie".to_owned(), cookies[i].clone());
        i += 1;
    }
    let class = if done {
        SubmissionClass::Completed
    } else if status == 403 {
        SubmissionClass::Rejected
    } else {
        SubmissionClass::NeedsBody
    };
    (class, relay)
}

/// Turns the classification and the body — parsed only when the
/// classification asked for it — into the submission outcome. Completion
/// discards the body; rejection carries the body text verbatim; a
/// continuation requires the body to have parsed as a flow.
pub fn finish_submission(class: SubmissionClass, body: &String, parsed: Option<Flow>) -> (r:
    Result<SubmissionOutcome, FlowError>)
    ensures
        match class {
            SubmissionClass::Completed => r matches Ok(o) && o is Completed,
            SubmissionClass::Rejected => r matches Ok(o) && o matches SubmissionOutcome::Rejected(
                m,
            ) && m@ == body@,
            SubmissionClass::NeedsBody => match parsed {
                Some(f) => r matches Ok(o) && o matches SubmissionOutcome::Continue(g) && g == f,
                None => r matches Err(e) && e == FlowError::MalformedFlowPayload,
            },
        },
{
    match class {
        SubmissionClass::Completed => Ok(SubmissionOutcome::Completed),
        SubmissionClass::Rejected => Ok(SubmissionOutcome::Rejected(body.clone())),
        SubmissionClass::NeedsBody => match parsed {
            Some(f) => Ok(SubmissionOutcome::Continue(f)),
            None => Err(FlowError::MalformedFlowPayload),
        },
    }
}

} // verus!
