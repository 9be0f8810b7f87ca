use vstd::prelude::*;

use crate::configuration::{service_index, Configuration, ConfigurationView};
use crate::credentials::{
    copy_string, params_view, resolve_spec, Application, ApplicationView, Param, Request,
    RequestView,
};
use crate::mapping::{match_usages, usages_of, usages_view, Usage};

use threescalers::api_call::{ApiCall, Kind};
use threescalers::application::Application as OutsideApp;
use threescalers::credentials::Credentials as ServiceCredentials;
use threescalers::http::Request as OutsideRequest;
use threescalers::service::Service as OutsideService;
use threescalers::transaction::Transaction;

verus! {

/// Why a request was refused. The caller sees the same refusal for each;
/// the variant serves diagnostics.
#[derive(PartialEq, Eq, Structural, Clone, Copy, Debug)]
pub enum AuthError {
    ConfigurationMissing,
    CredentialResolutionFailed,
    BuildRequestFailed,
    DispatchFailed,
    BackendRejected,
    MetadataEncodingFailed,
}

/// What a request resolved to: the service, the calling application and the
/// increments to report.
pub struct AuthRep {
    pub service_id: String,
    pub service_token: String,
    pub app: Application,
    pub usages: Vec<Usage>,
}

pub ghost struct AuthRepView {
    pub service_id: Seq<char>,
    pub service_token: Seq<char>,
    pub app: ApplicationView,
    pub usages: Seq<(Seq<char>, u64)>,
}

impl View for AuthRep {
    type V = AuthRepView;

    open spec fn view(&self) -> AuthRepView {
        AuthRepView {
            service_id: self.service_id@,
            service_token: self.service_token@,
            app: self.app@,
            usages: usages_view(self.usages@),
        }
    }
}

impl AuthRep {
    pub fn app(&self) -> (r: &Application)
        ensures
            r == &self.app,
    {
        &self.app
    }

    pub fn usages(&self) -> (r: &Vec<Usage>)
        ensures
            r == &self.usages,
    {
        &self.usages
    }
}

/// The call sent to the policy backend.
pub struct OutboundCall {
    pub method: String,
    pub uri: String,
    pub headers: Vec<Param>,
    pub body: Option<String>,
}

pub ghost struct CallView {
    pub method: Seq<char>,
    pub uri: Seq<char>,
    pub headers: Seq<(Seq<char>, Seq<char>)>,
    pub body: Option<Seq<char>>,
}

impl View for OutboundCall {
    type V = CallView;

    open spec fn view(&self) -> CallView {
        CallView {
            method: self.method@,
            uri: self.uri@,
            headers: params_view(self.headers@),
            body: match self.body {
                Some(b) => Some(b@),
                None => None,
            },
        }
    }
}

/// What the 3scale client library is given to encode: the service, the
/// application and each usage as a metric name and a decimal delta.
pub ghost struct WireInput {
    pub service_id: Seq<char>,
    pub service_token: Seq<char>,
    pub app: ApplicationView,
    pub usages: Seq<(Seq<char>, Seq<char>)>,
}

/// The wire form of an authrep call, as the 3scale client library encodes it.
pub uninterp spec fn authrep_call_of(w: WireInput) -> CallView;

/// The decimal digits of `n`, most significant first.
pub open spec fn decimal_of(n: nat) -> Seq<char>
    decreases n,
{
    if n < 10 {
        seq![digit_char(n)]
    } else {
        decimal_of(n / 10) + seq![digit_char(n % 10)]
    }
}

pub open spec fn digit_char(d: nat) -> char {
    ((d + 48) as u8) as char
}

/// The decimal digit `d`.
fn digit_text(d: u64) -> (r: &'static str)
    requires
        d < 10,
    ensures
        r@ == seq![digit_char(d as nat)],
{
    proof {
        reveal_strlit("0");
        reveal_strlit("1");
        reveal_strlit("2");
        reveal_strlit("3");
        reveal_strlit("4");
        reveal_strlit("5");
        reveal_strlit("6");
        reveal_strlit("7");
        reveal_strlit("8");
        reveal_strlit("9");
    }
    match d {
        0 => "0",
        1 => "1",
        2 => "2",
        3 => "3",
        4 => "4",
        5 => "5",
        6 => "6",
        7 => "7",
        8 => "8",
        _ => "9",
    }
}

/// `n` in decimal, without sign or leading zeros.
pub fn decimal_text(n: u64) -> (r: String)
    ensures
        r@ == decimal_of(n as nat),
    decreases n,
{
    if n < 10 {
        String::from_str(digit_text(n))
    } else {
        let mut r = decimal_text(n / 10);
        r.append(digit_text(n % 10));
        r
    }
}

pub open spec fn wire_usage(u: (Seq<char>, u64)) -> (Seq<char>, Seq<char>) {
    (u.0, decimal_of(u.1 as nat))
}

/// What is handed to the client library for `a`.
pub open spec fn wire_of(a: AuthRepView) -> WireInput {
    WireInput {
        service_id: a.service_id,
        service_token: a.service_token,
        app: a.app,
        usages: a.usages.map_values(|u: (Seq<char>, u64)| wire_usage(u)),
    }
}

pub open spec fn pairs_view(ps: Seq<(String, String)>) -> Seq<(Seq<char>, Seq<char>)> {
    ps.map_values(|p: (String, String)| (p.0@, p.1@))
}

pub open spec fn option_view(o: Option<String>) -> Option<Seq<char>> {
    match o {
        Some(s) => Some(s@),
        None => None,
    }
}

/// The method, URI, headers and body of an encoded call.
pub type CallParts = (String, String, Vec<(String, String)>, Option<String>);

pub open spec fn parts_view(r: CallParts) -> CallView {
    CallView { method: r.0@, uri: r.1@, headers: pairs_view(r.2@), body: option_view(r.3) }
}

/// How a request resolves against the configuration: the first service that
/// takes its authority, the application its credentials name, and the
/// increments its mapping rules give.
pub open spec fn authrep_spec(c: ConfigurationView, req: RequestView) -> Result<AuthRepView, AuthError> {
    match service_index(c.services, req.authority) {
        None => Err(AuthError::ConfigurationMissing),
        Some(k) => {
            let s = c.services[k];
            match resolve_spec(s.credentials, req) {
                None => Err(AuthError::CredentialResolutionFailed),
                Some(app) => Ok(
                    AuthRepView {
                        service_id: s.id,
                        service_token: s.token,
                        app,
                        usages: usages_of(s.mapping_rules, req.method, req.path),
                    },
                ),
            }
        },
    }
}

/// Resolves `req` against `config`.
pub fn authrep(config: &Configuration, req: &Request) -> (r: Result<AuthRep, AuthError>)
    ensures
        match r {
            Ok(a) => authrep_spec(config@, req@) == Ok::<AuthRepView, AuthError>(a@),
            Err(e) => authrep_spec(config@, req@) == Err::<AuthRepView, AuthError>(e),
        },
{
    let k = match config.find_service(req.authority.as_str()) {
        Some(k) => k,
        None => return Err(AuthError::ConfigurationMissing),
    };
    let service = &config.services[k];
    assert(config@.services[k as int] == service@);
    let app = match service.credentials().resolve(req) {
        Some(app) => app,
        None => return Err(AuthError::CredentialResolutionFailed),
    };
    let usages = match_usages(service.mapping_rules(), req.method.as_str(), req.path.as_str());
    Ok(
        AuthRep {
            service_id: copy_string(&service.id),
            service_token: copy_string(&service.token),
            app,
            usages,
        },
    )
}

/// Whether an authrep call can be built for `a`: the wire protocol for an
/// OAuth token is not supported here, and a service token is needed.
pub open spec fn buildable(a: AuthRepView) -> bool {
    !(a.app is OAuthToken) && a.service_token.len() > 0
}

/// Relies on threescalers' `Service::new`, `Usage::new`, `Transaction::new`,
/// `ApiCall::new`, `Request::from` and `Request::uri_and_body`: they encode
/// an authrep transaction for a service and a user key.
#[verifier::external_body]
fn encode_user_key(id: &str, token: &str, key: &str, usages: &Vec<(String, String)>) -> (r: CallParts)
    ensures
        parts_view(r) == authrep_call_of(
            WireInput { service_id: id@, service_token: token@, app: ApplicationView::UserKey(key@), usages: pairs_view(usages@) },
        ),
{
    let svc = OutsideService::new(id, ServiceCredentials::from_token(token));
    let app = OutsideApp::from_user_key(key);
    let usage = threescalers::usage::Usage::new(usages.as_slice());
    let txn = [Transaction::new(&app, None, Some(&usage), None)];
    let req = OutsideRequest::from(&ApiCall::new(Kind::AuthRep, &svc, &txn, None));
    let (uri, body) = req.uri_and_body();
    let headers = req.headers.iter().map(|(k, v)| (k.clone(), v.clone())).collect();
    (req.method.as_str().to_owned(), uri.into_owned(), headers, body.map(str::to_owned))
}

/// Relies on the same threescalers calls as `encode_user_key`, for an app
/// id with an optional app key.
#[verifier::external_body]
fn encode_app_id(id: &str, token: &str, app_id: &str, app_key: Option<&str>, usages: &Vec<(String, String)>) -> (r: CallParts)
    ensures
        parts_view(r) == authrep_call_of(
            WireInput {
                service_id: id@,
                service_token: token@,
                app: ApplicationView::AppId(app_id@, match app_key { Some(k) => Some(k@), None => None }),
                usages: pairs_view(usages@),
            },
        ),
{
    let svc = OutsideService::new(id, ServiceCredentials::from_token(token));
    let app = OutsideApp::AppId(app_id.into(), app_key.map(Into::into));
    let usage = threescalers::usage::Usage::new(usages.as_slice());
    let txn = [Transaction::new(&app, None, Some(&usage), None)];
    let req = OutsideRequest::from(&ApiCall::new(Kind::AuthRep, &svc, &txn, None));
    let (uri, body) = req.uri_and_body();
    let headers = req.headers.iter().map(|(k, v)| (k.clone(), v.clone())).collect();
    (req.method.as_str().to_owned(), uri.into_owned(), headers, body.map(str::to_owned))
}

/// Each usage as a metric name and its delta in decimal.
fn wire_usages(us: &Vec<Usage>) -> (r: Vec<(String, String)>)
    ensures
        pairs_view(r@) == usages_view(us@).map_values(|u: (Seq<char>, u64)| wire_usage(u)),
{
    let mut r: Vec<(String, String)> = Vec::new();
    let mut k: usize = 0;
    while k < us.len()
        invariant
            k <= us.len(),
            r@.len() == k,
            forall|i: int| 0 <= i < k ==> (#[trigger] r@[i]).0@ == us@[i].metric@ && r@[i].1@ == decimal_of(us@[i].delta as nat),
        decreases us.len() - k,
    {
        r.push((copy_string(&us[k].metric), decimal_text(us[k].delta)));
        k = k + 1;
    }
    assert(pairs_view(r@) =~= usages_view(us@).map_values(|u: (Seq<char>, u64)| wire_usage(u)));
    r
}

/// The call whose parts are `p`.
fn call_from_parts(p: CallParts) -> (r: OutboundCall)
    ensures
        r@ == parts_view(p),
{
    let (method, uri, pairs, body) = p;
    let mut headers: Vec<Param> = Vec::new();
    let mut k: usize = 0;
    while k < pairs.len()
        invariant
            k <= pairs.len(),
            headers@.len() == k,
            forall|i: int| 0 <= i < k ==> (#[trigger] headers@[i]).name@ == pairs@[i].0@ && headers@[i].value@ == pairs@[i].1@,
        decreases pairs.len() - k,
    {
        headers.push(Param { name: copy_string(&pairs[k].0), value: copy_string(&pairs[k].1) });
        k = k + 1;
    }
    assert(params_view(headers@) =~= pairs_view(pairs@));
    OutboundCall { method, uri, headers, body }
}

/// Builds the authrep call for `a`.
pub fn build_call(a: &AuthRep) -> (r: Result<OutboundCall, AuthError>)
    ensures
        buildable(a@) ==> (r matches Ok(c) && c@ == authrep_call_of(wire_of(a@))),
        !buildable(a@) ==> r == Err::<OutboundCall, AuthError>(AuthError::BuildRequestFailed),
{
    if let Application::OAuthToken(_) = &a.app {
        return Err(AuthError::BuildRequestFailed);
    }
    if a.service_token.as_str().unicode_len() == 0 {
        return Err(AuthError::BuildRequestFailed);
    }
    let usages = wire_usages(&a.usages);
    let parts = match &a.app {
        Application::UserKey(k) => encode_user_key(a.service_id.as_str(), a.service_token.as_str(), k.as_str(), &usages),
        Application::AppId(id, key) => {
            let key_str = match key {
                Some(k) => Some(k.as_str()),
                None => None,
            };
            encode_app_id(a.service_id.as_str(), a.service_token.as_str(), id.as_str(), key_str, &usages)
        },
        Application::OAuthToken(_) => return Err(AuthError::BuildRequestFailed),
    };
    assert(wire_of(a@).usages == pairs_view(usages@));
    Ok(call_from_parts(parts))
}

} // verus!
