//! Authorization results.

use vstd::prelude::*;

verus! {

/// The decision on one principal.
#[derive(Clone, Copy, Debug, PartialEq, Eq, Structural)]
pub enum Decision {
    Allow,
    Deny,
}

/// Why a decision fell as it did: the identifiers of the policies that
/// decided, and the reports of the errors met on the way.
#[derive(Debug, PartialEq)]
pub struct Diagnostics {
    pub reason: Vec<String>,
    pub errors: Vec<String>,
}

pub struct DiagnosticsView {
    pub reason: Seq<Seq<char>>,
    pub errors: Seq<Seq<char>>,
}

impl DeepView for Diagnostics {
    type V = DiagnosticsView;

    open spec fn deep_view(&self) -> DiagnosticsView {
        DiagnosticsView { reason: self.reason.deep_view(), errors: self.errors.deep_view() }
    }
}

/// The decision on one principal with its diagnostics.
#[derive(Debug, PartialEq)]
pub struct Response {
    pub decision: Decision,
    pub diagnostics: Diagnostics,
}

pub struct ResponseView {
    pub decision: Decision,
    pub diagnostics: DiagnosticsView,
}

impl DeepView for Response {
    type V = ResponseView;

    open spec fn deep_view(&self) -> ResponseView {
        ResponseView { decision: self.decision, diagnostics: self.diagnostics.deep_view() }
    }
}

/// The decision on a named principal.
#[derive(Debug, PartialEq)]
pub struct PrincipalResponse {
    pub name: String,
    pub response: Response,
}

pub struct PrincipalResponseView {
    pub name: Seq<char>,
    pub response: ResponseView,
}

impl DeepView for PrincipalResponse {
    type V = PrincipalResponseView;

    open spec fn deep_view(&self) -> PrincipalResponseView {
        PrincipalResponseView { name: self.name@, response: self.response.deep_view() }
    }
}

/// What the engine gives for a request. The named principals stand in the
/// order in which they are to be handed over.
#[derive(Debug, PartialEq)]
pub struct AuthorizeResult {
    pub workload: Option<Response>,
    pub person: Option<Response>,
    pub principals: Vec<PrincipalResponse>,
    pub decision: bool,
    pub request_id: String,
}

pub struct AuthorizeResultView {
    pub workload: Option<ResponseView>,
    pub person: Option<ResponseView>,
    pub principals: Seq<PrincipalResponseView>,
    pub decision: bool,
    pub request_id: Seq<char>,
}

impl DeepView for AuthorizeResult {
    type V = AuthorizeResultView;

    open spec fn deep_view(&self) -> AuthorizeResultView {
        AuthorizeResultView {
            workload: self.workload.deep_view(),
            person: self.person.deep_view(),
            principals: self.principals.deep_view(),
            decision: self.decision,
            request_id: self.request_id@,
        }
    }
}

} // verus!
