use vstd::prelude::*;

use crate::credentials::{Credentials, CredentialsView};
use crate::glob::{any_glob_matches, same_text, GlobPatternSet};
use crate::mapping::{rules_view, MappingRule, RuleView};

verus! {

/// The deployment stage a service runs in.
#[derive(PartialEq, Eq, Structural, Clone, Copy, Debug)]
pub enum Environment {
    Production,
    Staging,
    Sandbox,
    Unknown,
}

pub open spec fn environment_name(e: Environment) -> Seq<char> {
    match e {
        Environment::Production => "production"@,
        Environment::Staging => "staging"@,
        Environment::Sandbox => "sandbox"@,
        Environment::Unknown => "unknown"@,
    }
}

impl Environment {
    pub fn as_str(&self) -> (r: &'static str)
        ensures
            r@ == environment_name(*self),
    {
        match self {
            Environment::Production => "production",
            Environment::Staging => "staging",
            Environment::Sandbox => "sandbox",
            Environment::Unknown => "unknown",
        }
    }

    /// The environment of the given name; any other name is `Unknown`.
    pub fn from_name(name: &str) -> (r: Environment)
        ensures
            (r == Environment::Production) == (name@ == "production"@),
            (r == Environment::Staging) == (name@ == "staging"@),
            (r == Environment::Sandbox) == (name@ == "sandbox"@),
            environment_name(r) == name@ || r == Environment::Unknown,
    {
        proof {
            reveal_strlit("production");
            reveal_strlit("staging");
            reveal_strlit("sandbox");
            assert("production"@.len() != "staging"@.len());
            assert("production"@.len() != "sandbox"@.len());
            assert("staging"@[1] != "sandbox"@[1]);
        }
        if same_text(name, "production") {
            Environment::Production
        } else if same_text(name, "staging") {
            Environment::Staging
        } else if same_text(name, "sandbox") {
            Environment::Sandbox
        } else {
            Environment::Unknown
        }
    }
}

impl Default for Environment {
    fn default() -> (r: Environment)
        ensures
            r == Environment::Production,
    {
        Environment::Production
    }
}

/// A backend service: its identity, the hosts it answers for, how its
/// callers identify themselves and how its requests are billed.
pub struct Service {
    pub id: String,
    pub environment: Environment,
    pub token: String,
    pub authorities: GlobPatternSet,
    pub credentials: Credentials,
    pub mapping_rules: Vec<MappingRule>,
}

pub ghost struct ServiceView {
    pub id: Seq<char>,
    pub environment: Environment,
    pub token: Seq<char>,
    pub authorities: Seq<Seq<char>>,
    pub credentials: CredentialsView,
    pub mapping_rules: Seq<RuleView>,
}

impl View for Service {
    type V = ServiceView;

    open spec fn view(&self) -> ServiceView {
        ServiceView {
            id: self.id@,
            environment: self.environment,
            token: self.token@,
            authorities: self.authorities@,
            credentials: self.credentials@,
            mapping_rules: rules_view(self.mapping_rules@),
        }
    }
}

/// A service is well formed when its id and its token are not empty.
pub open spec fn service_wf(s: ServiceView) -> bool {
    s.id.len() > 0 && s.token.len() > 0
}

/// A service with no authorities configured takes requests for any host.
pub open spec fn admits_authority(s: ServiceView, authority: Seq<char>) -> bool {
    s.authorities.len() == 0 || any_glob_matches(s.authorities, authority)
}

impl Service {
    pub fn id(&self) -> (r: &str)
        ensures
            r@ == self.id@,
    {
        self.id.as_str()
    }

    pub fn environment(&self) -> (r: &str)
        ensures
            r@ == environment_name(self.environment),
    {
        self.environment.as_str()
    }

    pub fn token(&self) -> (r: &str)
        ensures
            r@ == self.token@,
    {
        self.token.as_str()
    }

    pub fn credentials(&self) -> (r: &Credentials)
        ensures
            r == &self.credentials,
    {
        &self.credentials
    }

    pub fn mapping_rules(&self) -> (r: &Vec<MappingRule>)
        ensures
            r == &self.mapping_rules,
    {
        &self.mapping_rules
    }

    /// Whether some authority pattern matches `authority`. With no patterns
    /// this is false; see `admits` for the check that callers make.
    pub fn match_authority(&self, authority: &str) -> (r: bool)
        ensures
            r == any_glob_matches(self.authorities@, authority@),
    {
        self.authorities.is_match(authority)
    }

    pub fn is_well_formed(&self) -> (r: bool)
        ensures
            r == service_wf(self@),
    {
        self.id.as_str().unicode_len() > 0 && self.token.as_str().unicode_len() > 0
    }

    /// Whether this service takes requests for `authority`.
    pub fn admits(&self, authority: &str) -> (r: bool)
        ensures
            r == admits_authority(self@, authority@),
    {
        self.authorities.is_empty() || self.match_authority(authority)
    }
}

} // verus!
