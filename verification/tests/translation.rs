use flow_core::form::FormState;
use flow_core::json::encode_object_string;
use flow_core::model::{Message, MessageKind, UiNode};
use flow_core::pages::{App, FlowStage, HomePage, PageKind, RenderDecision, ObservedFlow, entry_stage, reduce_observed};
use flow_core::model::{Flow, SubmissionOutcome, UiContainer};
use flow_core::text::{str_contains, str_eq};
use flow_core::translate::{RenderableField, render, render_all};

fn input_node(name: &str, value: &str) -> UiNode {
    UiNode::Input {
        name: name.to_string(),
        value: value.to_string(),
        group: "default".to_string(),
        messages: Vec::new(),
    }
}

#[test]
fn render_seeds_missing_fields_with_defaults() {
    let mut form = FormState::new();
    let node = input_node("traits.email", "user@example.com");
    let field = render(&node, &mut form);
    match field {
        RenderableField::InputField { name, value, group, messages } => {
            assert_eq!(name, "traits.email");
            assert_eq!(value, "user@example.com");
            assert_eq!(group, "default");
            assert!(messages.is_empty());
        },
        _ => panic!("expected an input field"),
    }
    assert_eq!(form.get("traits.email").as_deref(), Some("user@example.com"));
}

#[test]
fn render_is_idempotent_and_keeps_typed_values() {
    let mut form = FormState::new();
    form.seed(&"password".to_string(), &"typed-by-user".to_string());
    let node = input_node("password", "default");
    let first = render(&node, &mut form);
    let second = render(&node, &mut form);
    for field in [first, second] {
        match field {
            RenderableField::InputField { value, .. } => assert_eq!(value, "typed-by-user"),
            _ => panic!("expected an input field"),
        }
    }
    assert_eq!(form.get("password").as_deref(), Some("typed-by-user"));
    assert_eq!(form.entries().len(), 1);
}

#[test]
fn render_leaves_form_alone_for_decorative_nodes() {
    let mut form = FormState::new();
    let text = UiNode::Text { content: "hello".to_string(), messages: Vec::new() };
    let script = UiNode::Script { source: "/hydra.js".to_string(), messages: Vec::new() };
    let image = UiNode::Image { source: "/qr.png".to_string(), messages: Vec::new() };
    let opaque = UiNode::Opaque {
        messages: vec![Message { id: 7, text: "note".to_string(), kind: MessageKind::Info }],
    };
    assert!(matches!(render(&text, &mut form), RenderableField::TextBlock { .. }));
    assert!(matches!(render(&script, &mut form), RenderableField::ScriptRef { .. }));
    assert!(matches!(render(&image, &mut form), RenderableField::ImageRef { .. }));
    match render(&opaque, &mut form) {
        RenderableField::OpaqueBlock { messages } => {
            assert_eq!(messages.len(), 1);
            assert_eq!(messages[0].id, 7);
            assert_eq!(messages[0].text, "note");
        },
        _ => panic!("expected an opaque block"),
    }
    assert!(form.entries().is_empty());
}

#[test]
fn render_all_preserves_node_order() {
    let mut form = FormState::new();
    let nodes = vec![
        input_node("csrf_token", "tok"),
        UiNode::Text { content: "Sign in".to_string(), messages: Vec::new() },
        input_node("identifier", ""),
        input_node("password", ""),
    ];
    let fields = render_all(&nodes, &mut form);
    assert_eq!(fields.len(), 4);
    assert!(matches!(&fields[0], RenderableField::InputField { name, .. } if name == "csrf_token"));
    assert!(matches!(&fields[1], RenderableField::TextBlock { content, .. } if content == "Sign in"));
    assert!(matches!(&fields[2], RenderableField::InputField { name, .. } if name == "identifier"));
    assert!(matches!(&fields[3], RenderableField::InputField { name, .. } if name == "password"));
    let entries = form.entries();
    assert_eq!(entries[0].0, "csrf_token");
    assert_eq!(entries[1].0, "identifier");
    assert_eq!(entries[2].0, "password");
}

#[test]
fn json_encoding_is_exact() {
    let entries = vec![
        ("identifier".to_string(), "user@example.com".to_string()),
        ("password".to_string(), "p".to_string()),
    ];
    assert_eq!(
        encode_object_string(&entries),
        "{\"identifier\":\"user@example.com\",\"password\":\"p\"}"
    );
    assert_eq!(encode_object_string(&Vec::new()), "{}");
}

#[test]
fn json_encoding_escapes_specials() {
    let entries = vec![(
        "note".to_string(),
        "a \"quote\" and \\ back\nslash\ttab\rcr \u{1} bell".to_string(),
    )];
    assert_eq!(
        encode_object_string(&entries),
        "{\"note\":\"a \\\"quote\\\" and \\\\ back\\nslash\\ttab\\rcr \\u0001 bell\"}"
    );
    let unicode = vec![("k".to_string(), "héllo ✓".to_string())];
    assert_eq!(encode_object_string(&unicode), "{\"k\":\"héllo ✓\"}");
}

#[test]
fn form_state_set_replaces_and_get_reads() {
    let mut form = FormState::new();
    form.set("action".to_string(), "http://one".to_string());
    form.set("action".to_string(), "http://two".to_string());
    assert_eq!(form.get("action").as_deref(), Some("http://two"));
    assert_eq!(form.entries().len(), 1);
    assert_eq!(form.get("missing"), None);
    assert_eq!(form.without_key("action").len(), 0);
}

#[test]
fn text_utilities_match_substrings() {
    assert!(str_contains("csrf_token_8912490183409", "csrf_token"));
    assert!(!str_contains("session_token", "csrf_token"));
    assert!(str_contains("anything", ""));
    assert!(!str_contains("", "x"));
    assert!(str_eq("abc", "abc"));
    assert!(!str_eq("abc", "abd"));
    assert!(!str_eq("abc", "ab"));
}

#[test]
fn app_routes_and_home_links() {
    let routes = App();
    assert_eq!(routes.len(), 4);
    assert_eq!(routes[0].path, "");
    assert_eq!(routes[0].page, PageKind::Home);
    assert_eq!(routes[1].path, "/login");
    assert_eq!(routes[1].page, PageKind::Login);
    assert_eq!(routes[2].path, "/registration");
    assert_eq!(routes[2].page, PageKind::Registration);
    assert_eq!(routes[3].path, "/verification");
    assert_eq!(routes[3].page, PageKind::Verification);

    let links = HomePage();
    assert_eq!(links.len(), 2);
    assert_eq!(links[0].href, "login");
    assert_eq!(links[0].label, "Login");
    assert_eq!(links[1].href, "registration");
    assert_eq!(links[1].label, "Register");
}

#[test]
fn entry_stage_picks_fetch_or_init() {
    match entry_stage(Some("abc123".to_string())) {
        FlowStage::HandleFlow(id) => assert_eq!(id, "abc123"),
        FlowStage::Init => panic!("expected a fetch"),
    }
    assert!(matches!(entry_stage(None), FlowStage::Init));
}

#[test]
fn observed_flow_reduces_to_render_decision() {
    let flow = Flow {
        id: "abc".to_string(),
        ui: UiContainer {
            nodes: Vec::new(),
            action: "http://up".to_string(),
            method: "POST".to_string(),
            messages: None,
        },
        messages: None,
    };
    let initial = ObservedFlow::FromInitialFetch(flow.clone());
    assert!(matches!(reduce_observed(&initial), RenderDecision::ShowFlow(f) if f.id == "abc"));
    let cont = ObservedFlow::FromSubmission(SubmissionOutcome::Continue(flow));
    assert!(matches!(reduce_observed(&cont), RenderDecision::ShowFlow(f) if f.id == "abc"));
    let done = ObservedFlow::FromSubmission(SubmissionOutcome::Completed);
    assert!(matches!(reduce_observed(&done), RenderDecision::Advance));
    let rejected =
        ObservedFlow::FromSubmission(SubmissionOutcome::Rejected("denied".to_string()));
    assert!(matches!(reduce_observed(&rejected), RenderDecision::ShowError(m) if m == "denied"));
}
