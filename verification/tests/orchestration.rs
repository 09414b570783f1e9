use flow_core::fetch::{fetch_finish, fetch_request};
use flow_core::form::FormState;
use flow_core::http::{HttpResponse, find_csrf_cookie};
use flow_core::initiate::{initiate_finish, initiate_redirect, initiate_request};
use flow_core::location::flow_id_from_location;
use flow_core::model::{Cookie, Flow, FlowError, FlowKind, SubmissionOutcome, UiContainer};
use flow_core::submit::{SubmissionClass, classify_submission, finish_submission, submit_request};

fn cookie(name: &str, value: &str) -> Cookie {
    Cookie { name: name.to_string(), value: value.to_string() }
}

fn header(name: &str, value: &str) -> (String, String) {
    (name.to_string(), value.to_string())
}

fn sample_flow(id: &str) -> Flow {
    Flow {
        id: id.to_string(),
        ui: UiContainer {
            nodes: Vec::new(),
            action: "http://127.0.0.1:4433/self-service/login?flow=abc123".to_string(),
            method: "POST".to_string(),
            messages: None,
        },
        messages: None,
    }
}

#[test]
fn initiate_builds_browser_request() {
    let req = initiate_request(FlowKind::Login, "http://127.0.0.1:4433");
    assert_eq!(req.method, "GET");
    assert_eq!(req.url, "http://127.0.0.1:4433/self-service/login/browser");
    assert!(req.query.is_empty());
    assert!(req.headers.is_empty());
    assert!(req.body.is_none());
    let req = initiate_request(FlowKind::Registration, "http://127.0.0.1:4433");
    assert_eq!(req.url, "http://127.0.0.1:4433/self-service/registration/browser");
}

#[test]
fn initiate_scenario_harvests_flow_id_and_relays_cookie() {
    let resp = HttpResponse {
        status: 303,
        headers: vec![
            header("location", "/?flow=abc123"),
            header("set-cookie", "csrf_token_x=tok; Path=/; HttpOnly"),
        ],
        cookies: vec![cookie("csrf_token_x", "tok")],
        body: String::new(),
    };
    let (pending, req) =
        initiate_redirect(FlowKind::Login, "http://127.0.0.1:4433", &resp).unwrap();
    assert_eq!(pending.flow_id, "abc123");
    assert_eq!(pending.csrf_token, "tok");
    assert_eq!(pending.set_cookie, "csrf_token_x=tok; Path=/; HttpOnly");
    assert_eq!(req.method, "GET");
    assert_eq!(req.url, "http://127.0.0.1:4433/self-service/login/flows");
    assert_eq!(req.query, vec![header("id", "abc123")]);
    assert_eq!(req.headers, vec![header("x-csrf-token", "tok")]);

    let (flow, relay) = initiate_finish(&pending, Some(sample_flow("abc123"))).unwrap();
    assert_eq!(flow.id, "abc123");
    assert_eq!(
        relay.headers,
        vec![header("set-cookie", "csrf_token_x=tok; Path=/; HttpOnly")]
    );
}

#[test]
fn initiate_rejects_flow_naming_another_identifier() {
    let resp = HttpResponse {
        status: 303,
        headers: vec![
            header("location", "/?flow=abc123"),
            header("set-cookie", "csrf_token_x=tok"),
        ],
        cookies: vec![cookie("csrf_token_x", "tok")],
        body: String::new(),
    };
    let (pending, _req) =
        initiate_redirect(FlowKind::Login, "http://127.0.0.1:4433", &resp).unwrap();
    let err = initiate_finish(&pending, Some(sample_flow("other"))).unwrap_err();
    assert_eq!(err, FlowError::MalformedFlowPayload);
    let err = initiate_finish(&pending, None).unwrap_err();
    assert_eq!(err, FlowError::MalformedFlowPayload);
}

#[test]
fn initiate_requires_a_cookie() {
    let resp = HttpResponse {
        status: 303,
        headers: vec![header("location", "/?flow=abc123"), header("set-cookie", "x=y")],
        cookies: Vec::new(),
        body: String::new(),
    };
    let err = initiate_redirect(FlowKind::Login, "http://h", &resp).unwrap_err();
    assert_eq!(err, FlowError::MissingCsrfCookie);
}

#[test]
fn initiate_requires_a_location_header() {
    let resp = HttpResponse {
        status: 303,
        headers: vec![header("set-cookie", "csrf_token_x=tok")],
        cookies: vec![cookie("csrf_token_x", "tok")],
        body: String::new(),
    };
    let err = initiate_redirect(FlowKind::Login, "http://h", &resp).unwrap_err();
    assert_eq!(err, FlowError::MissingRedirectLocation);
}

#[test]
fn initiate_requires_a_flow_parameter() {
    let resp = HttpResponse {
        status: 303,
        headers: vec![
            header("location", "/welcome?aal=aal2"),
            header("set-cookie", "csrf_token_x=tok"),
        ],
        cookies: vec![cookie("csrf_token_x", "tok")],
        body: String::new(),
    };
    let err = initiate_redirect(FlowKind::Login, "http://h", &resp).unwrap_err();
    assert_eq!(err, FlowError::MissingFlowIdentifier);
}

#[test]
fn initiate_requires_a_set_cookie_header() {
    let resp = HttpResponse {
        status: 303,
        headers: vec![header("location", "/?flow=abc123")],
        cookies: vec![cookie("csrf_token_x", "tok")],
        body: String::new(),
    };
    let err = initiate_redirect(FlowKind::Login, "http://h", &resp).unwrap_err();
    assert_eq!(err, FlowError::MissingSetCookieHeader);
}

#[test]
fn location_flow_parameter_is_decoded() {
    assert_eq!(
        flow_id_from_location("http://127.0.0.1:4433/?flow=abc123").unwrap(),
        "abc123"
    );
    assert_eq!(flow_id_from_location("/?flow=abc123").unwrap(), "abc123");
    assert_eq!(
        flow_id_from_location("/login?aal=aal2&flow=deadbeef").unwrap(),
        "deadbeef"
    );
    assert_eq!(flow_id_from_location("/cb?flow=a%20b").unwrap(), "a b");
    assert_eq!(
        flow_id_from_location("/callback").unwrap_err(),
        FlowError::MissingFlowIdentifier
    );
}

#[test]
fn fetch_scenario_forwards_token_and_cookie() {
    let jar = vec![cookie("other", "1"), cookie("csrf_token_x", "tok")];
    let req = fetch_request(FlowKind::Login, "http://127.0.0.1:4433", "abc123", &jar).unwrap();
    assert_eq!(req.method, "GET");
    assert_eq!(req.url, "http://127.0.0.1:4433/self-service/login/flows");
    assert_eq!(req.query, vec![header("id", "abc123")]);
    assert_eq!(
        req.headers,
        vec![header("x-csrf-token", "tok"), header("cookie", "csrf_token_x=tok")]
    );
    assert!(req.body.is_none());
}

#[test]
fn fetch_requires_a_csrf_cookie() {
    let jar = vec![cookie("session", "s")];
    let err = fetch_request(FlowKind::Login, "http://h", "abc", &jar).unwrap_err();
    assert_eq!(err, FlowError::MissingCsrfCookie);
}

#[test]
fn fetch_finish_requires_a_parsed_flow() {
    assert_eq!(fetch_finish(None).unwrap_err(), FlowError::MalformedFlowPayload);
    assert_eq!(fetch_finish(Some(sample_flow("z"))).unwrap().id, "z");
}

#[test]
fn csrf_cookie_first_match_wins() {
    let jar = vec![
        cookie("theme", "dark"),
        cookie("csrf_token_89124901834098", "first"),
        cookie("csrf_token_other", "second"),
    ];
    let c = find_csrf_cookie(&jar).unwrap();
    assert_eq!(c.name, "csrf_token_89124901834098");
    assert_eq!(c.value, "first");
    assert_eq!(find_csrf_cookie(&Vec::new()).unwrap_err(), FlowError::MissingCsrfCookie);
}

#[test]
fn submit_strips_action_from_body() {
    let mut form = FormState::new();
    form.set("password".to_string(), "p".to_string());
    form.set("action".to_string(), "http://up/flows/login".to_string());
    let jar = vec![cookie("csrf_token_x", "tok")];
    let req = submit_request(&form, &jar).unwrap();
    assert_eq!(req.method, "POST");
    assert_eq!(req.url, "http://up/flows/login");
    assert_eq!(req.body.as_deref(), Some("{\"password\":\"p\"}"));
    assert_eq!(
        req.headers,
        vec![
            header("x-csrf-token", "tok"),
            header("content-type", "application/json"),
            header("cookie", "csrf_token_x=tok"),
        ]
    );
}

#[test]
fn submit_requires_an_action_target() {
    let mut form = FormState::new();
    form.set("password".to_string(), "p".to_string());
    let jar = vec![cookie("csrf_token_x", "tok")];
    assert_eq!(submit_request(&form, &jar).unwrap_err(), FlowError::MissingActionTarget);
    form.set("action".to_string(), "http://up".to_string());
    assert_eq!(
        submit_request(&form, &Vec::new()).unwrap_err(),
        FlowError::MissingCsrfCookie
    );
}

#[test]
fn submit_scenario_session_cookie_completes() {
    let mut form = FormState::new();
    form.set("action".to_string(), "http://up/flows/login".to_string());
    form.set("password".to_string(), "p".to_string());
    let jar = vec![cookie("csrf_token_x", "tok")];
    let _req = submit_request(&form, &jar).unwrap();
    let headers = vec![
        header("content-type", "text/html"),
        header("set-cookie", "ory_kratos_session=opaque; Path=/; HttpOnly"),
    ];
    let (class, relay) = classify_submission(200, &headers);
    assert_eq!(class, SubmissionClass::Completed);
    assert_eq!(relay.headers[0], header("cache-control", "private, no-cache, no-store, must-revalidate"));
    assert_eq!(
        relay.headers[1],
        header("set-cookie", "ory_kratos_session=opaque; Path=/; HttpOnly")
    );
    // The body is not parsed on completion: even one that is no flow at
    // all leaves the outcome untouched.
    let body = "<not json>".to_string();
    let outcome = finish_submission(class, &body, None).unwrap();
    assert!(matches!(outcome, SubmissionOutcome::Completed));
}

#[test]
fn submit_session_cookie_completes_even_on_error_status() {
    let headers = vec![header("set-cookie", "ory_kratos_session=opaque")];
    let (class, _relay) = classify_submission(403, &headers);
    assert_eq!(class, SubmissionClass::Completed);
}

#[test]
fn submit_forbidden_rejects_even_a_parseable_flow() {
    let headers = vec![header("set-cookie", "csrf_token_x=rotated")];
    let (class, _relay) = classify_submission(403, &headers);
    assert_eq!(class, SubmissionClass::Rejected);
    let body = "step-up required".to_string();
    let outcome = finish_submission(class, &body, Some(sample_flow("abc123"))).unwrap();
    match outcome {
        SubmissionOutcome::Rejected(m) => assert_eq!(m, "step-up required"),
        _ => panic!("expected rejection"),
    }
}

#[test]
fn submit_scenario_continue_surfaces_flow_messages() {
    let headers = vec![header("set-cookie", "csrf_token_x=rotated")];
    let (class, relay) = classify_submission(200, &headers);
    assert_eq!(class, SubmissionClass::NeedsBody);
    assert_eq!(relay.headers.len(), 2);
    let mut flow = sample_flow("abc123");
    flow.ui.messages = Some(vec![flow_core::model::Message {
        id: 4000006,
        text: "The provided credentials are invalid.".to_string(),
        kind: flow_core::model::MessageKind::Error,
    }]);
    let body = String::new();
    let outcome = finish_submission(class, &body, Some(flow)).unwrap();
    match outcome {
        SubmissionOutcome::Continue(f) => {
            let messages = f.ui.messages.unwrap();
            assert_eq!(messages.len(), 1);
            assert_eq!(messages[0].id, 4000006);
            assert_eq!(messages[0].text, "The provided credentials are invalid.");
        },
        _ => panic!("expected continuation"),
    }
}

#[test]
fn submit_relays_every_set_cookie_in_order() {
    let headers = vec![
        header("set-cookie", "csrf_token_x=rotated; Path=/"),
        header("content-length", "12"),
        header("set-cookie", "ory_kratos_session=opaque; Path=/"),
    ];
    let (class, relay) = classify_submission(200, &headers);
    assert_eq!(class, SubmissionClass::Completed);
    assert_eq!(relay.headers.len(), 3);
    assert_eq!(
        relay.headers[0],
        header("cache-control", "private, no-cache, no-store, must-revalidate")
    );
    assert_eq!(relay.headers[1], header("set-cookie", "csrf_token_x=rotated; Path=/"));
    assert_eq!(relay.headers[2], header("set-cookie", "ory_kratos_session=opaque; Path=/"));
}

#[test]
fn registration_initiate_uses_registration_endpoints() {
    let resp = HttpResponse {
        status: 303,
        headers: vec![
            header("location", "http://127.0.0.1:4433/self-service/registration?flow=reg42"),
            header("set-cookie", "csrf_token_y=tok2"),
        ],
        cookies: vec![cookie("csrf_token_y", "tok2")],
        body: String::new(),
    };
    let (pending, req) =
        initiate_redirect(FlowKind::Registration, "http://127.0.0.1:4433", &resp).unwrap();
    assert_eq!(pending.flow_id, "reg42");
    assert_eq!(req.url, "http://127.0.0.1:4433/self-service/registration/flows");
}

#[test]
fn submit_malformed_continuation_body_fails() {
    let headers: Vec<(String, String)> = Vec::new();
    let (class, _relay) = classify_submission(400, &headers);
    assert_eq!(class, SubmissionClass::NeedsBody);
    let body = "not a flow".to_string();
    assert_eq!(
        finish_submission(class, &body, None).unwrap_err(),
        FlowError::MalformedFlowPayload
    );
}
