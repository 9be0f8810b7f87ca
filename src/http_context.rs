use vstd::prelude::*;

use crate::authrep::{
    authrep, authrep_call_of, authrep_spec, build_call, buildable, decimal_of, decimal_text, wire_of, AuthError, AuthRep,
    AuthRepView, OutboundCall,
};
use crate::configuration::{service_index, Configuration, Upstream, UpstreamView};
use crate::credentials::resolve_spec;
use crate::credentials::{
    copy_string, find_param, lookup, params_view, Application, ApplicationView, Param, Request,
};
use crate::mapping::{usages_of, usages_view, Usage};

verus! {

/// Where a request's lifecycle stands.
#[derive(PartialEq, Eq, Structural, Clone, Copy, Debug)]
pub enum Phase {
    /// No event seen yet.
    Start,
    /// An authrep call was built and handed to the host to dispatch.
    Dispatching,
    /// The call was dispatched under this correlation token.
    Awaiting(u32),
    /// A verdict was given; nothing further happens.
    Done,
}

/// What the host does once the request headers were seen.
pub enum HeadersAction {
    /// Reply 403 with the fixed body and end the request.
    Forbid(AuthError),
    /// Add these headers to the request and let it continue.
    AddHeaders(Vec<Param>),
    /// Hold the request and dispatch this call to the backend.
    Dispatch(OutboundCall),
}

/// What the host does on a later event.
#[derive(PartialEq, Eq, Structural, Clone, Copy, Debug)]
pub enum Verdict {
    /// Keep holding the request.
    Wait,
    /// Release the held request toward its upstream.
    Resume,
    /// Reply 403 with the fixed body and end the request.
    Forbid(AuthError),
    /// The event does not belong to this request's pending call.
    Ignore,
}

/// The status a 403 reply carries.
pub const FORBIDDEN_STATUS: u32 = 403;

/// The body of every refusal.
pub fn forbidden_body() -> (r: &'static str)
    ensures
        r@ == "Access forbidden.\n"@,
{
    "Access forbidden.\n"
}

/// The marker header added to responses on their way back to the caller.
pub fn powered_by_header() -> (r: Param)
    ensures
        r@ == ("Powered-By"@, "3scale"@),
{
    Param { name: String::from_str("Powered-By"), value: String::from_str("3scale") }
}

/// The JSON text that serde_json writes for a list of `(metric, delta)` pairs.
pub uninterp spec fn usages_json_of(us: Seq<(Seq<char>, u64)>) -> Seq<char>;

/// Relies on `serde_json::to_string`, on a list of `(&str, u64)` pairs. It
/// fails only where a `Serialize` impl fails or a map has non-string keys,
/// neither of which a list of string and integer pairs has; the text
/// depends on the pairs alone.
#[verifier::external_body]
fn usages_json(us: &Vec<Usage>) -> (r: Option<String>)
    ensures
        r is Some,
        r matches Some(s) ==> s@ == usages_json_of(usages_view(us@)),
{
    let pairs: Vec<(&str, u64)> = us.iter().map(|u| (u.metric.as_str(), u.delta)).collect();
    serde_json::to_string(&pairs).ok()
}

/// The identity header that passthrough mode adds for `app`; none for an
/// OAuth token.
pub open spec fn identity_header(app: ApplicationView) -> Option<(Seq<char>, Seq<char>)> {
    match app {
        ApplicationView::AppId(id, key) => Some(
            (
                "x-3scale-app-id"@,
                match key {
                    Some(k) => id + ":"@ + k,
                    None => id,
                },
            ),
        ),
        ApplicationView::UserKey(k) => Some(("x-3scale-user-key"@, k)),
        ApplicationView::OAuthToken(_) => None,
    }
}

/// The headers that passthrough mode adds to the request, given the
/// upstream, the resolved request and the JSON text of its usages.
pub open spec fn metadata_spec(backend: Option<UpstreamView>, a: AuthRepView, json: Seq<char>) -> Result<
    Seq<(Seq<char>, Seq<char>)>,
    AuthError,
> {
    match backend {
        None => Err(AuthError::ConfigurationMissing),
        Some(u) => match identity_header(a.app) {
            None => Err(AuthError::MetadataEncodingFailed),
            Some(ident) => if a.service_token.len() == 0 {
                Err(AuthError::MetadataEncodingFailed)
            } else {
                Ok(
                    seq![
                        ident,
                        ("x-3scale-cluster-name"@, u.name),
                        ("x-3scale-upstream-url"@, u.url),
                        ("x-3scale-timeout"@, decimal_of(u.default_timeout as nat)),
                        ("x-3scale-service-id"@, a.service_id),
                        ("x-3scale-service-token"@, a.service_token),
                        ("x-3scale-usages"@, json),
                    ],
                )
            },
        },
    }
}

fn header(name: &str, value: &str) -> (r: Param)
    ensures
        r@ == (name@, value@),
{
    Param { name: String::from_str(name), value: String::from_str(value) }
}

/// The passthrough headers for `a`, with `json` the JSON text of its usages.
pub fn metadata_headers(upstream: Option<&Upstream>, a: &AuthRep, json: &str) -> (r: Result<
    Vec<Param>,
    AuthError,
>)
    ensures
        match r {
            Ok(h) => metadata_spec(
                match upstream {
                    Some(u) => Some(u@),
                    None => None,
                },
                a@,
                json@,
            ) == Ok::<Seq<(Seq<char>, Seq<char>)>, AuthError>(params_view(h@)),
            Err(e) => metadata_spec(
                match upstream {
                    Some(u) => Some(u@),
                    None => None,
                },
                a@,
                json@,
            ) == Err::<Seq<(Seq<char>, Seq<char>)>, AuthError>(e),
        },
{
    let u = match upstream {
        Some(u) => u,
        None => return Err(AuthError::ConfigurationMissing),
    };
    let ident = match &a.app {
        Application::AppId(id, key) => {
            let mut v = copy_string(id);
            if let Some(k) = key {
                v.append(":");
                v.append(k.as_str());
            }
            header("x-3scale-app-id", v.as_str())
        },
        Application::UserKey(k) => header("x-3scale-user-key", k.as_str()),
        Application::OAuthToken(_) => return Err(AuthError::MetadataEncodingFailed),
    };
    if a.service_token.as_str().unicode_len() == 0 {
        return Err(AuthError::MetadataEncodingFailed);
    }
    let timeout = decimal_text(u.default_timeout);
    let mut h: Vec<Param> = Vec::new();
    h.push(ident);
    h.push(header("x-3scale-cluster-name", u.name.as_str()));
    h.push(header("x-3scale-upstream-url", u.url.as_str()));
    h.push(header("x-3scale-timeout", timeout.as_str()));
    h.push(header("x-3scale-service-id", a.service_id.as_str()));
    h.push(header("x-3scale-service-token", a.service_token.as_str()));
    h.push(header("x-3scale-usages", json));
    proof {
        let ghost spec_h = metadata_spec(Some(u@), a@, json@);
        assert(spec_h matches Ok(s) && s =~= params_view(h@));
    }
    Ok(h)
}

/// Whether the synthetic status of a backend response is `200`.
pub open spec fn authorized(headers: Seq<(Seq<char>, Seq<char>)>) -> bool {
    lookup(headers, ":status"@) == Some("200"@)
}

/// What the headers event gives for a request that resolved to `a`.
pub open spec fn headers_outcome_ok(c: crate::configuration::ConfigurationView, a: AuthRepView, r: HeadersAction) -> bool {
    if c.passthrough {
        match metadata_spec(c.backend, a, usages_json_of(a.usages)) {
            Err(e) => r == HeadersAction::Forbid(e),
            Ok(hs) => r matches HeadersAction::AddHeaders(h) && params_view(h@) == hs,
        }
    } else if c.backend is None {
        r == HeadersAction::Forbid(AuthError::ConfigurationMissing)
    } else if !buildable(a) {
        r == HeadersAction::Forbid(AuthError::BuildRequestFailed)
    } else {
        r matches HeadersAction::Dispatch(call) && call@ == authrep_call_of(wire_of(a))
    }
}

/// The phase and verdict that follow a backend response under `token`.
pub open spec fn after_response(p: Phase, token: u32, headers: Seq<(Seq<char>, Seq<char>)>) -> (Phase, Verdict) {
    if p == Phase::Awaiting(token) {
        (
            Phase::Done,
            if authorized(headers) {
                Verdict::Resume
            } else {
                Verdict::Forbid(AuthError::BackendRejected)
            },
        )
    } else {
        (p, Verdict::Ignore)
    }
}

/// A pending call's response settles the request exactly once: a `200`
/// status resumes it, any other status or none refuses it, and a second
/// response, whatever it holds, is ignored.
pub proof fn lemma_response_settles_once(
    token: u32,
    first: Seq<(Seq<char>, Seq<char>)>,
    second: Seq<(Seq<char>, Seq<char>)>,
    later: u32,
)
    ensures
        after_response(Phase::Awaiting(token), token, first).1 == Verdict::Resume <==> authorized(first),
        after_response(Phase::Awaiting(token), token, first).1 == Verdict::Forbid(AuthError::BackendRejected)
            <==> !authorized(first),
        after_response(after_response(Phase::Awaiting(token), token, first).0, later, second).1 == Verdict::Ignore,
{
}

/// A request whose credentials do not resolve is refused: the headers
/// event yields a refusal, no call to dispatch, and the lifecycle ends.
pub proof fn lemma_unresolved_credentials_refused(
    c: crate::configuration::ConfigurationView,
    req: crate::credentials::RequestView,
    r: HeadersAction,
)
    requires
        service_index(c.services, req.authority) matches Some(k) && resolve_spec(c.services[k].credentials, req) is None,
        headers_outcome(c, req, r),
    ensures
        r == HeadersAction::Forbid(AuthError::CredentialResolutionFailed),
        !(r is Dispatch),
        phase_after_headers(r) == Phase::Done,
{
}

/// Passthrough never yields headers for an OAuth token, nor any identity
/// header other than an app id or a user key.
pub proof fn lemma_passthrough_refuses_oauth(backend: Option<UpstreamView>, a: AuthRepView, json: Seq<char>)
    ensures
        a.app is OAuthToken ==> metadata_spec(backend, a, json) == Err::<Seq<(Seq<char>, Seq<char>)>, AuthError>(
            if backend is None { AuthError::ConfigurationMissing } else { AuthError::MetadataEncodingFailed }),
        metadata_spec(backend, a, json) matches Ok(h) ==> (h[0].0 == "x-3scale-app-id"@ || h[0].0 == "x-3scale-user-key"@),
{
}

/// What the headers event gives for `req` under configuration `c`.
pub open spec fn headers_outcome(c: crate::configuration::ConfigurationView, req: crate::credentials::RequestView, r: HeadersAction) -> bool {
    match authrep_spec(c, req) {
        Err(e) => r == HeadersAction::Forbid(e),
        Ok(a) => headers_outcome_ok(c, a, r),
    }
}

/// Passthrough succeeds exactly when a backend is configured, the identity
/// is an app id or a user key, and the service token is not empty; then it
/// yields the seven headers, identity first and usages last, whatever the
/// usages are (none included).
pub proof fn lemma_passthrough_succeeds_exactly_when(backend: Option<UpstreamView>, a: AuthRepView, json: Seq<char>)
    ensures
        metadata_spec(backend, a, json) is Ok <==> (backend is Some && !(a.app is OAuthToken) && a.service_token.len() > 0),
        metadata_spec(backend, a, json) matches Ok(h) ==> h.len() == 7 && Some(h[0]) == identity_header(a.app)
            && h[4] == ("x-3scale-service-id"@, a.service_id) && h[5] == ("x-3scale-service-token"@, a.service_token)
            && h[6] == ("x-3scale-usages"@, json),
{
}

/// The headers event is a function of the configuration and the request:
/// two runs on the same inputs take the same branch, and add the same
/// headers or dispatch the same call.
pub proof fn lemma_headers_outcome_deterministic(
    c: crate::configuration::ConfigurationView,
    req: crate::credentials::RequestView,
    r1: HeadersAction,
    r2: HeadersAction,
)
    requires
        headers_outcome(c, req, r1),
        headers_outcome(c, req, r2),
    ensures
        r1 is Forbid ==> r1 == r2,
        r1 matches HeadersAction::AddHeaders(h1) ==> (r2 matches HeadersAction::AddHeaders(h2) && params_view(h1@) == params_view(h2@)),
        r1 matches HeadersAction::Dispatch(k1) ==> (r2 matches HeadersAction::Dispatch(k2) && k1@ == k2@),
{
}

/// A request that resolves to service `k` and application `app`, with
/// passthrough off and a backend configured, is held while exactly the
/// authrep call for that service, application and the increments of its
/// mapping rules is dispatched.
pub proof fn lemma_resolved_request_dispatches(
    c: crate::configuration::ConfigurationView,
    req: crate::credentials::RequestView,
    k: int,
    app: ApplicationView,
    r: HeadersAction,
)
    requires
        service_index(c.services, req.authority) == Some(k),
        resolve_spec(c.services[k].credentials, req) == Some(app),
        !(app is OAuthToken),
        c.services[k].token.len() > 0,
        !c.passthrough,
        c.backend is Some,
        headers_outcome(c, req, r),
    ensures
        r matches HeadersAction::Dispatch(call) && call@ == authrep_call_of(
            wire_of(
                AuthRepView {
                    service_id: c.services[k].id,
                    service_token: c.services[k].token,
                    app,
                    usages: usages_of(c.services[k].mapping_rules, req.method, req.path),
                },
            ),
        ),
        phase_after_headers(r) == Phase::Dispatching,
{
}

/// The phase that follows the headers event.
pub open spec fn phase_after_headers(r: HeadersAction) -> Phase {
    match r {
        HeadersAction::Dispatch(_) => Phase::Dispatching,
        _ => Phase::Done,
    }
}

/// The per-request filter context.
pub struct HttpAuthThreescale {
    pub configuration: Configuration,
    pub context_id: u32,
    pub id: u32,
    pub log_id: String,
    pub phase: Phase,
}

impl HttpAuthThreescale {
    pub fn new(configuration: Configuration, context_id: u32, id: u32, log_id: String) -> (r: Self)
        ensures
            r.configuration == configuration,
            r.context_id == context_id,
            r.id == id,
            r.log_id == log_id,
            r.phase == Phase::Start,
    {
        HttpAuthThreescale { configuration, context_id, id, log_id, phase: Phase::Start }
    }

    pub fn ident(&self) -> (r: &str)
        ensures
            r@ == self.log_id@,
    {
        self.log_id.as_str()
    }

    pub fn configuration(&self) -> (r: &Configuration)
        ensures
            r == &self.configuration,
    {
        &self.configuration
    }

    /// The passthrough headers for `ar`.
    pub fn threescale_info_to_metadata(&self, ar: &AuthRep) -> (r: Result<Vec<Param>, AuthError>)
        ensures
            match metadata_spec(self.configuration@.backend, ar@, usages_json_of(ar@.usages)) {
                Err(e) => r == Err::<Vec<Param>, AuthError>(e),
                Ok(hs) => r matches Ok(h) && params_view(h@) == hs,
            },
    {
        let upstream = match self.configuration.backend() {
            Some(b) => Some(b.upstream()),
            None => None,
        };
        let json = match usages_json(&ar.usages) {
            Some(j) => j,
            None => return Err(AuthError::MetadataEncodingFailed),
        };
        metadata_headers(upstream, ar, json.as_str())
    }

    /// The decision on a request's headers: refuse it, let it continue with
    /// passthrough headers, or hold it while a call goes to the backend.
    pub fn on_http_request_headers(&mut self, req: &Request) -> (r: HeadersAction)
        ensures
            final(self).configuration == old(self).configuration,
            final(self).context_id == old(self).context_id,
            final(self).phase == phase_after_headers(r),
            headers_outcome(old(self).configuration@, req@, r),
    {
        let ar = match authrep(&self.configuration, req) {
            Ok(ar) => ar,
            Err(e) => {
                self.phase = Phase::Done;
                return HeadersAction::Forbid(e);
            },
        };
        if self.configuration.passthrough() {
            self.phase = Phase::Done;
            return match self.threescale_info_to_metadata(&ar) {
                Ok(h) => HeadersAction::AddHeaders(h),
                Err(e) => HeadersAction::Forbid(e),
            };
        }
        if self.configuration.backend().is_none() {
            self.phase = Phase::Done;
            return HeadersAction::Forbid(AuthError::ConfigurationMissing);
        }
        match build_call(&ar) {
            Ok(call) => {
                self.phase = Phase::Dispatching;
                HeadersAction::Dispatch(call)
            },
            Err(e) => {
                self.phase = Phase::Done;
                HeadersAction::Forbid(e)
            },
        }
    }

    /// The host's answer to a dispatch: the correlation token, or `None`
    /// where the call could not be dispatched.
    pub fn on_dispatch_result(&mut self, token: Option<u32>) -> (r: Verdict)
        ensures
            final(self).configuration == old(self).configuration,
            old(self).phase == Phase::Dispatching ==> match token {
                Some(t) => r == Verdict::Wait && final(self).phase == Phase::Awaiting(t),
                None => r == Verdict::Forbid(AuthError::DispatchFailed) && final(self).phase == Phase::Done,
            },
            old(self).phase != Phase::Dispatching ==> r == Verdict::Ignore && final(self).phase == old(self).phase,
    {
        if self.phase != Phase::Dispatching {
            return Verdict::Ignore;
        }
        match token {
            Some(t) => {
                self.phase = Phase::Awaiting(t);
                Verdict::Wait
            },
            None => {
                self.phase = Phase::Done;
                Verdict::Forbid(AuthError::DispatchFailed)
            },
        }
    }

    /// A backend response arrived under `token` with these headers. Only the
    /// response to this request's pending call is acted on, and only once.
    pub fn on_http_call_response(&mut self, token: u32, headers: &Vec<Param>) -> (r: Verdict)
        ensures
            final(self).configuration == old(self).configuration,
            (final(self).phase, r) == after_response(old(self).phase, token, params_view(headers@)),
    {
        if self.phase != Phase::Awaiting(token) {
            return Verdict::Ignore;
        }
        self.phase = Phase::Done;
        proof {
            reveal_strlit("200");
        }
        match find_param(headers, ":status") {
            Some(v) => {
                if crate::glob::same_text(v.as_str(), "200") {
                    Verdict::Resume
                } else {
                    Verdict::Forbid(AuthError::BackendRejected)
                }
            },
            None => Verdict::Forbid(AuthError::BackendRejected),
        }
    }

    /// The header added to responses on their way back.
    pub fn on_http_response_headers(&self) -> (r: Param)
        ensures
            r@ == ("Powered-By"@, "3scale"@),
    {
        powered_by_header()
    }
}

} // verus!
