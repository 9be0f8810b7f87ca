use vstd::prelude::*;

use crate::service::{admits_authority, service_wf, Service, ServiceView};

verus! {

/// Where authorization calls are sent.
pub struct Upstream {
    pub name: String,
    pub url: String,
    pub default_timeout: u64,
}

pub ghost struct UpstreamView {
    pub name: Seq<char>,
    pub url: Seq<char>,
    pub default_timeout: u64,
}

impl View for Upstream {
    type V = UpstreamView;

    open spec fn view(&self) -> UpstreamView {
        UpstreamView { name: self.name@, url: self.url@, default_timeout: self.default_timeout }
    }
}

impl Upstream {
    pub fn name(&self) -> (r: &str)
        ensures
            r@ == self.name@,
    {
        self.name.as_str()
    }

    pub fn default_timeout(&self) -> (r: u64)
        ensures
            r == self.default_timeout,
    {
        self.default_timeout
    }
}

/// The policy backend.
pub struct Backend {
    pub upstream: Upstream,
}

impl Backend {
    pub fn upstream(&self) -> (r: &Upstream)
        ensures
            r == &self.upstream,
    {
        &self.upstream
    }
}

/// An immutable snapshot of what the filter was configured with.
pub struct Configuration {
    pub services: Vec<Service>,
    pub backend: Option<Backend>,
    pub passthrough_metadata: Option<bool>,
}

pub ghost struct ConfigurationView {
    pub services: Seq<ServiceView>,
    pub backend: Option<UpstreamView>,
    pub passthrough: bool,
}

pub open spec fn services_view(ss: Seq<Service>) -> Seq<ServiceView> {
    ss.map_values(|s: Service| s@)
}

impl View for Configuration {
    type V = ConfigurationView;

    open spec fn view(&self) -> ConfigurationView {
        ConfigurationView {
            services: services_view(self.services@),
            backend: match self.backend {
                Some(b) => Some(b.upstream@),
                None => None,
            },
            passthrough: self.passthrough_metadata == Some(true),
        }
    }
}

/// The index of the first service that takes requests for `authority`.
pub open spec fn service_index(ss: Seq<ServiceView>, authority: Seq<char>) -> Option<int> {
    if exists|k: int| 0 <= k < ss.len() && #[trigger] admits_authority(ss[k], authority) {
        Some(choose|k: int|
            0 <= k < ss.len() && admits_authority(ss[k], authority) && forall|m: int|
                0 <= m < k ==> !#[trigger] admits_authority(ss[m], authority))
    } else {
        None
    }
}

impl Configuration {
    pub fn backend(&self) -> (r: Option<&Backend>)
        ensures
            match r {
                Some(b) => self.backend == Some(*b),
                None => self.backend is None,
            },
    {
        match &self.backend {
            Some(b) => Some(b),
            None => None,
        }
    }

    pub fn get_backend(&self) -> (r: Result<&Backend, ()>)
        ensures
            match r {
                Ok(b) => self.backend == Some(*b),
                Err(_) => self.backend is None,
            },
    {
        match &self.backend {
            Some(b) => Ok(b),
            None => Err(()),
        }
    }

    /// Whether every service is well formed.
    pub fn is_well_formed(&self) -> (r: bool)
        ensures
            r == forall|k: int| 0 <= k < self@.services.len() ==> #[trigger] service_wf(self@.services[k]),
    {
        let mut k: usize = 0;
        while k < self.services.len()
            invariant
                k <= self.services.len(),
                forall|m: int| 0 <= m < k ==> #[trigger] service_wf(self@.services[m]),
            decreases self.services.len() - k,
        {
            if !self.services[k].is_well_formed() {
                assert(!service_wf(self@.services[k as int]));
                return false;
            }
            k = k + 1;
        }
        true
    }

    pub fn passthrough(&self) -> (r: bool)
        ensures
            r == self@.passthrough,
    {
        match self.passthrough_metadata {
            Some(p) => p,
            None => false,
        }
    }

    /// The first service, in configuration order, that takes requests for
    /// `authority`.
    pub fn find_service(&self, authority: &str) -> (r: Option<usize>)
        ensures
            match r {
                Some(k) => service_index(self@.services, authority@) == Some(k as int)
                    && k < self.services.len(),
                None => service_index(self@.services, authority@) is None,
            },
    {
        let ghost ss = self@.services;
        let mut k: usize = 0;
        while k < self.services.len()
            invariant
                k <= self.services.len(),
                ss == self@.services,
                ss.len() == self.services@.len(),
                forall|m: int| 0 <= m < k ==> !#[trigger] admits_authority(ss[m], authority@),
            decreases self.services.len() - k,
        {
            if self.services[k].admits(authority) {
                assert(admits_authority(ss[k as int], authority@));
                let ghost c = choose|j: int|
                    0 <= j < ss.len() && admits_authority(ss[j], authority@) && forall|m: int|
                        0 <= m < j ==> !#[trigger] admits_authority(ss[m], authority@);
                assert(c == k as int) by {
                    if c < k {
                    } else if c > k {
                    }
                }
                return Some(k);
            }
            k = k + 1;
        }
        None
    }
}

} // verus!
