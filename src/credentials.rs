use vstd::prelude::*;

use crate::glob::same_text;

verus! {

/// Where in a request a credential is looked for.
pub enum Location {
    Header(String),
    QueryString(String),
}

pub ghost enum LocationView {
    Header(Seq<char>),
    QueryString(Seq<char>),
}

impl View for Location {
    type V = LocationView;

    open spec fn view(&self) -> LocationView {
        match self {
            Location::Header(n) => LocationView::Header(n@),
            Location::QueryString(n) => LocationView::QueryString(n@),
        }
    }
}

/// For each credential shape, the places where it may be found, tried in
/// order.
pub struct Credentials {
    pub user_key: Vec<Location>,
    pub app_id: Vec<Location>,
    pub app_key: Vec<Location>,
    pub oauth_token: Vec<Location>,
}

pub ghost struct CredentialsView {
    pub user_key: Seq<LocationView>,
    pub app_id: Seq<LocationView>,
    pub app_key: Seq<LocationView>,
    pub oauth_token: Seq<LocationView>,
}

pub open spec fn locations_view(ls: Seq<Location>) -> Seq<LocationView> {
    ls.map_values(|l: Location| l@)
}

impl View for Credentials {
    type V = CredentialsView;

    open spec fn view(&self) -> CredentialsView {
        CredentialsView {
            user_key: locations_view(self.user_key@),
            app_id: locations_view(self.app_id@),
            app_key: locations_view(self.app_key@),
            oauth_token: locations_view(self.oauth_token@),
        }
    }
}

/// A name and a value: a header or a query parameter.
pub struct Param {
    pub name: String,
    pub value: String,
}

impl View for Param {
    type V = (Seq<char>, Seq<char>);

    open spec fn view(&self) -> (Seq<char>, Seq<char>) {
        (self.name@, self.value@)
    }
}

pub open spec fn params_view(ps: Seq<Param>) -> Seq<(Seq<char>, Seq<char>)> {
    ps.map_values(|p: Param| p@)
}

/// What the resolver reads of an inbound request.
pub struct Request {
    pub method: String,
    pub path: String,
    pub authority: String,
    pub headers: Vec<Param>,
    pub query: Vec<Param>,
}

pub ghost struct RequestView {
    pub method: Seq<char>,
    pub path: Seq<char>,
    pub authority: Seq<char>,
    pub headers: Seq<(Seq<char>, Seq<char>)>,
    pub query: Seq<(Seq<char>, Seq<char>)>,
}

impl View for Request {
    type V = RequestView;

    open spec fn view(&self) -> RequestView {
        RequestView {
            method: self.method@,
            path: self.path@,
            authority: self.authority@,
            headers: params_view(self.headers@),
            query: params_view(self.query@),
        }
    }
}

/// The identity of the calling application.
pub enum Application {
    AppId(String, Option<String>),
    UserKey(String),
    OAuthToken(String),
}

pub ghost enum ApplicationView {
    AppId(Seq<char>, Option<Seq<char>>),
    UserKey(Seq<char>),
    OAuthToken(Seq<char>),
}

impl View for Application {
    type V = ApplicationView;

    open spec fn view(&self) -> ApplicationView {
        match self {
            Application::AppId(id, key) => ApplicationView::AppId(
                id@,
                match key {
                    Some(k) => Some(k@),
                    None => None,
                },
            ),
            Application::UserKey(k) => ApplicationView::UserKey(k@),
            Application::OAuthToken(t) => ApplicationView::OAuthToken(t@),
        }
    }
}

/// The value of the first pair of `ps` named `name`.
pub open spec fn lookup(ps: Seq<(Seq<char>, Seq<char>)>, name: Seq<char>) -> Option<Seq<char>>
    decreases ps.len(),
{
    if ps.len() == 0 {
        None
    } else if ps[0].0 == name {
        Some(ps[0].1)
    } else {
        lookup(ps.drop_first(), name)
    }
}

pub open spec fn lookup_at(loc: LocationView, req: RequestView) -> Option<Seq<char>> {
    match loc {
        LocationView::Header(n) => lookup(req.headers, n),
        LocationView::QueryString(n) => lookup(req.query, n),
    }
}

/// The value found at the first of `locs` that holds one.
pub open spec fn find_first(locs: Seq<LocationView>, req: RequestView) -> Option<Seq<char>>
    decreases locs.len(),
{
    if locs.len() == 0 {
        None
    } else {
        match lookup_at(locs[0], req) {
            Some(v) => Some(v),
            None => find_first(locs.drop_first(), req),
        }
    }
}

/// The application a request names. A user key wins over an app id, which
/// wins over an OAuth token; an app key is attached to an app id when one
/// is found. `None` when no shape is present.
pub open spec fn resolve_spec(c: CredentialsView, req: RequestView) -> Option<ApplicationView> {
    match find_first(c.user_key, req) {
        Some(k) => Some(ApplicationView::UserKey(k)),
        None => match find_first(c.app_id, req) {
            Some(id) => Some(ApplicationView::AppId(id, find_first(c.app_key, req))),
            None => match find_first(c.oauth_token, req) {
                Some(t) => Some(ApplicationView::OAuthToken(t)),
                None => None,
            },
        },
    }
}

pub fn copy_string(s: &String) -> (r: String)
    ensures
        r@ == s@,
{
    s.clone()
}

impl Application {
    pub fn copy(&self) -> (r: Application)
        ensures
            r@ == self@,
    {
        match self {
            Application::AppId(id, key) => {
                let k = match key {
                    Some(k) => Some(copy_string(k)),
                    None => None,
                };
                Application::AppId(copy_string(id), k)
            },
            Application::UserKey(k) => Application::UserKey(copy_string(k)),
            Application::OAuthToken(t) => Application::OAuthToken(copy_string(t)),
        }
    }
}

/// The value of the first pair of `ps` named `name`.
pub fn find_param(ps: &Vec<Param>, name: &str) -> (r: Option<String>)
    ensures
        match r {
            Some(v) => lookup(params_view(ps@), name@) == Some(v@),
            None => lookup(params_view(ps@), name@) is None,
        },
{
    let ghost all = params_view(ps@);
    let mut k: usize = 0;
    assert(all.skip(0) =~= all);
    while k < ps.len()
        invariant
            k <= ps.len(),
            all == params_view(ps@),
            lookup(all.skip(k as int), name@) == lookup(all, name@),
        decreases ps.len() - k,
    {
        assert(all.skip(k as int).drop_first() =~= all.skip(k + 1));
        assert(all.skip(k as int)[0] == ps@[k as int]@);
        if same_text(ps[k].name.as_str(), name) {
            return Some(copy_string(&ps[k].value));
        }
        k = k + 1;
    }
    assert(all.skip(k as int) =~= Seq::empty());
    None
}

fn find_at(loc: &Location, req: &Request) -> (r: Option<String>)
    ensures
        match r {
            Some(v) => lookup_at(loc@, req@) == Some(v@),
            None => lookup_at(loc@, req@) is None,
        },
{
    match loc {
        Location::Header(n) => find_param(&req.headers, n.as_str()),
        Location::QueryString(n) => find_param(&req.query, n.as_str()),
    }
}

/// The value found at the first of `locs` that holds one.
pub fn find_credential(locs: &Vec<Location>, req: &Request) -> (r: Option<String>)
    ensures
        match r {
            Some(v) => find_first(locations_view(locs@), req@) == Some(v@),
            None => find_first(locations_view(locs@), req@) is None,
        },
{
    let ghost all = locations_view(locs@);
    let mut k: usize = 0;
    assert(all.skip(0) =~= all);
    while k < locs.len()
        invariant
            k <= locs.len(),
            all == locations_view(locs@),
            find_first(all.skip(k as int), req@) == find_first(all, req@),
        decreases locs.len() - k,
    {
        assert(all.skip(k as int).drop_first() =~= all.skip(k + 1));
        assert(all.skip(k as int)[0] == locs@[k as int]@);
        let found = find_at(&locs[k], req);
        if found.is_some() {
            return found;
        }
        k = k + 1;
    }
    assert(all.skip(k as int) =~= Seq::empty());
    None
}

impl Credentials {
    /// The application that `req` names, by the priority of `resolve_spec`.
    pub fn resolve(&self, req: &Request) -> (r: Option<Application>)
        ensures
            match r {
                Some(a) => resolve_spec(self@, req@) == Some(a@),
                None => resolve_spec(self@, req@) is None,
            },
    {
        if let Some(k) = find_credential(&self.user_key, req) {
            return Some(Application::UserKey(k));
        }
        if let Some(id) = find_credential(&self.app_id, req) {
            let key = find_credential(&self.app_key, req);
            return Some(Application::AppId(id, key));
        }
        match find_credential(&self.oauth_token, req) {
            Some(t) => Some(Application::OAuthToken(t)),
            None => None,
        }
    }
}

} // verus!
