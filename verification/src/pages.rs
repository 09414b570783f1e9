//! The page-level decisions around the flow core: the route table, the
//! home page's links, the choice between starting a new flow and fetching
//! an existing one, and the reduction of the two data sources a rendered
//! flow can come from.

use vstd::prelude::*;
use crate::model::Flow;
use crate::model::SubmissionOutcome;

verus! {

/// The pages the application routes to.
#[derive(Clone, Copy, PartialEq, Eq, Structural, Debug)]
pub enum PageKind {
    Home,
    Login,
    Registration,
    Verification,
}

/// One route: a path and the page it leads to.
#[derive(Clone, Debug)]
pub struct Route {
    pub path: String,
    pub page: PageKind,
}

/// One navigation link of the home page.
#[derive(Clone, Debug)]
pub struct Link {
    pub href: String,
    pub label: String,
}

/// The application's route table, in order: the home page at the root,
/// then the login, registration and verification pages.
#[allow(non_snake_case)]
pub fn App() -> (r: Vec<Route>)
    ensures
        r@.len() == 4,
        r@[0].path@ == ""@ && r@[0].page == PageKind::Home,
        r@[1].path@ == "/login"@ && r@[1].page == PageKind::Login,
        r@[2].path@ == "/registration"@ && r@[2].page == PageKind::Registration,
        r@[3].path@ == "/verification"@ && r@[3].page == PageKind::Verification,
{
    let mut routes: Vec<Route> = Vec::new();
    routes.push(Route { path: "".to_owned(), page: PageKind::Home });
    routes.push(Route { path: "/login".to_owned(), page: PageKind::Login });
    routes.push(Route { path: "/registration".to_owned(), page: PageKind::Registration });
    routes.push(Route { path: "/verification".to_owned(), page: PageKind::Verification });
    routes
}

/// The home page's links: one to the login page, one to registration.
#[allow(non_snake_case)]
pub fn HomePage() -> (r: Vec<Link>)
    ensures
        r@.len() == 2,
        r@[0].href@ == "login"@ && r@[0].label@ == "Login"@,
        r@[1].href@ == "registration"@ && r@[1].label@ == "Register"@,
{
    let mut links: Vec<Link> = Vec::new();
    links.push(Link { href: "login".to_owned(), label: "Login".to_owned() });
    links.push(Link { href: "registration".to_owned(), label: "Register".to_owned() });
    links
}

/// Which flow step a page load triggers.
#[derive(Clone, Debug)]
pub enum FlowStage {
    /// A flow identifier was in the page's query: fetch that flow.
    HandleFlow(String),
    /// No identifier: initiate a new flow.
    Init,
}

/// Decides the flow step from the page's optional `flow` query parameter:
/// fetch the named flow when one is given, initiate a new one otherwise.
pub fn entry_stage(flow_query: Option<String>) -> (r: FlowStage)
    ensures
        match flow_query {
            Some(id) => r matches FlowStage::HandleFlow(rid) && rid == id,
            None => r is Init,
        },
{
    match flow_query {
        Some(id) => FlowStage::HandleFlow(id),
        None => FlowStage::Init,
    }
}

/// The two sources a rendered flow can come from: the initial fetch on
/// page load, or the answer to the latest submission.
#[derive(Clone, Debug)]
pub enum ObservedFlow {
    FromInitialFetch(Flow),
    FromSubmission(SubmissionOutcome),
}

/// What the presentation layer should do with an observed flow.
#[derive(Debug)]
pub enum RenderDecision<'a> {
    /// Render this flow's form (possibly carrying validation messages).
    ShowFlow(&'a Flow),
    /// The flow completed: advance to the next page.
    Advance,
    /// The upstream refused the submission: show this failure detail.
    ShowError(&'a String),
}

/// Reduces the two data sources to the flow to render right now: a
/// submission answer supersedes the initial fetch; a completed submission
/// advances; a rejected one shows its detail.
pub fn reduce_observed<'a>(observed: &'a ObservedFlow) -> (r: RenderDecision<'a>)
    ensures
        match observed {
            ObservedFlow::FromInitialFetch(f) => r matches RenderDecision::ShowFlow(g) && g == f,
            ObservedFlow::FromSubmission(o) => match o {
                SubmissionOutcome::Completed => r is Advance,
                SubmissionOutcome::Continue(f) => r matches RenderDecision::ShowFlow(g) && g == f,
                SubmissionOutcome::Rejected(m) => r matches RenderDecision::ShowError(g) && g == m,
            },
        },
{
    match observed {
        ObservedFlow::FromInitialFetch(f) => RenderDecision::ShowFlow(f),
        ObservedFlow::FromSubmission(o) => match o {
            SubmissionOutcome::Completed => RenderDecision::Advance,
            SubmissionOutcome::Continue(f) => RenderDecision::ShowFlow(f),
            SubmissionOutcome::Rejected(m) => RenderDecision::ShowError(m),
        },
    }
}

} // verus!
