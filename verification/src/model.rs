//! Data model of a self-service flow: the flow itself, its UI description,
//! messages, cookies, and the failure taxonomy of the orchestration steps.

use vstd::prelude::*;

verus! {

/// The two self-service flow kinds this core orchestrates.
#[derive(Clone, Copy, PartialEq, Eq, Structural, Debug)]
pub enum FlowKind {
    Login,
    Registration,
}

/// Severity/kind of an upstream message; informs rendering only.
#[derive(Clone, Copy, PartialEq, Eq, Structural, Debug)]
pub enum MessageKind {
    Info,
    Error,
    Success,
}

/// One human-readable message attached to a flow, a form, or a node.
/// `id` is the stable rendering key.
#[derive(Clone, Debug)]
pub struct Message {
    pub id: u64,
    pub text: String,
    pub kind: MessageKind,
}

/// One declarative UI node from the upstream flow description. Only
/// `Input` nodes participate in the submitted body; every other variant is
/// render-only. `Opaque` keeps forward compatibility: an unrecognized node
/// is carried through inertly instead of failing the decode.
#[derive(Clone, Debug)]
pub enum UiNode {
    Input { name: String, value: String, group: String, messages: Vec<Message> },
    Text { content: String, messages: Vec<Message> },
    Image { source: String, messages: Vec<Message> },
    Script { source: String, messages: Vec<Message> },
    Opaque { messages: Vec<Message> },
}

/// The renderable form description of a flow: nodes in rendering order,
/// the absolute URL the form must submit to, and the HTTP verb to use.
#[derive(Clone, Debug)]
pub struct UiContainer {
    pub nodes: Vec<UiNode>,
    pub action: String,
    pub method: String,
    pub messages: Option<Vec<Message>>,
}

/// One self-service interaction instance, as the upstream reports it.
/// Immutable once fetched; a later fetch or submission supersedes it.
#[derive(Clone, Debug)]
pub struct Flow {
    pub id: String,
    pub ui: UiContainer,
    pub messages: Option<Vec<Message>>,
}

/// A cookie as a plain name/value pair.
#[derive(Clone, Debug)]
pub struct Cookie {
    pub name: String,
    pub value: String,
}

/// Why a flow step could not proceed. Each variant names the upstream
/// protocol assumption that was violated.
#[derive(Clone, Copy, PartialEq, Eq, Structural, Debug)]
pub enum FlowError {
    /// No cookie carrying a CSRF token was found where one is required.
    MissingCsrfCookie,
    /// The browser endpoint answered without a `Location` header.
    MissingRedirectLocation,
    /// The redirect location carried no `flow` query parameter.
    MissingFlowIdentifier,
    /// The browser endpoint answered without a `Set-Cookie` header.
    MissingSetCookieHeader,
    /// The form state handed to submission carried no `action` entry.
    MissingActionTarget,
    /// The outbound call itself failed (transport error or timeout).
    UpstreamCallFailed,
    /// The upstream body could not be read as a flow, or named the wrong flow.
    MalformedFlowPayload,
}

/// The three possible results of submitting user input for a flow.
#[derive(Clone, Debug)]
pub enum SubmissionOutcome {
    /// A session was established; no further flow data follows.
    Completed,
    /// The flow continues: render the returned flow again, now possibly
    /// carrying validation messages.
    Continue(Flow),
    /// Hard upstream refusal (status 403), carrying the response body.
    Rejected(String),
}

} // verus!
