//! Domains and the way their DNS is managed.

use crate::clock::{now, Timestamp};
use crate::ids::{contains, fresh_id, position, scan_from, EntityId};
use crate::models::dns::{copy_records, DnsRecord, DnsRecordView};
use vstd::prelude::*;

verus! {

/// How a domain's DNS is managed: through a provider's API, with the
/// credentials for it, or by hand outside this console.
#[derive(Debug, PartialEq, Eq)]
pub enum DnsProvider {
    Cloudflare { api_token: String, zone_id: String },
    Route53 { access_key: String, secret_key: String, hosted_zone_id: String },
    Manual,
}

/// The mathematical value of a `DnsProvider`.
pub ghost enum DnsProviderView {
    Cloudflare { api_token: Seq<char>, zone_id: Seq<char> },
    Route53 { access_key: Seq<char>, secret_key: Seq<char>, hosted_zone_id: Seq<char> },
    Manual,
}

impl View for DnsProvider {
    type V = DnsProviderView;

    open spec fn view(&self) -> DnsProviderView {
        match self {
            DnsProvider::Cloudflare { api_token, zone_id } => DnsProviderView::Cloudflare {
                api_token: api_token@,
                zone_id: zone_id@,
            },
            DnsProvider::Route53 {
                access_key,
                secret_key,
                hosted_zone_id,
            } => DnsProviderView::Route53 {
                access_key: access_key@,
                secret_key: secret_key@,
                hosted_zone_id: hosted_zone_id@,
            },
            DnsProvider::Manual => DnsProviderView::Manual,
        }
    }
}

impl DeepView for DnsProvider {
    type V = DnsProviderView;

    open spec fn deep_view(&self) -> DnsProviderView {
        self@
    }
}

impl Clone for DnsProvider {
    fn clone(&self) -> (copy: Self)
        ensures
            copy@ == self@,
    {
        match self {
            DnsProvider::Cloudflare { api_token, zone_id } => DnsProvider::Cloudflare {
                api_token: api_token.clone(),
                zone_id: zone_id.clone(),
            },
            DnsProvider::Route53 { access_key, secret_key, hosted_zone_id } => DnsProvider::Route53 {
                access_key: access_key.clone(),
                secret_key: secret_key.clone(),
                hosted_zone_id: hosted_zone_id.clone(),
            },
            DnsProvider::Manual => DnsProvider::Manual,
        }
    }
}

impl DnsProviderView {
    /// The provider's name as shown to the operator.
    pub open spec fn name(self) -> Seq<char> {
        match self {
            DnsProviderView::Cloudflare { .. } => "Cloudflare"@,
            DnsProviderView::Route53 { .. } => "Route53"@,
            DnsProviderView::Manual => "Manual"@,
        }
    }
}

impl DnsProvider {
    /// Whether the DNS is managed by hand.
    pub fn is_manual(&self) -> (manual: bool)
        ensures
            manual == (self@ is Manual),
    {
        match self {
            DnsProvider::Manual => true,
            _ => false,
        }
    }
}

/// A domain that routes to sites.
#[derive(Debug, PartialEq, Eq)]
pub struct Domain {
    pub id: EntityId,
    pub name: String,
    pub dns_provider: DnsProvider,
    pub dns_records: Vec<DnsRecord>,
    /// Whether the reverse proxy terminates TLS for the domain.
    pub traefik_enabled: bool,
    pub created_at: Timestamp,
}

/// The mathematical value of a `Domain`.
pub ghost struct DomainView {
    pub id: EntityId,
    pub name: Seq<char>,
    pub dns_provider: DnsProviderView,
    pub dns_records: Seq<DnsRecordView>,
    pub traefik_enabled: bool,
    pub created_at: Timestamp,
}

impl View for Domain {
    type V = DomainView;

    open spec fn view(&self) -> DomainView {
        DomainView {
            id: self.id,
            name: self.name@,
            dns_provider: self.dns_provider@,
            dns_records: self.dns_records.deep_view(),
            traefik_enabled: self.traefik_enabled,
            created_at: self.created_at,
        }
    }
}

impl DeepView for Domain {
    type V = DomainView;

    open spec fn deep_view(&self) -> DomainView {
        self@
    }
}

impl Clone for Domain {
    fn clone(&self) -> (copy: Self)
        ensures
            copy@ == self@,
    {
        Domain {
            id: self.id,
            name: self.name.clone(),
            dns_provider: self.dns_provider.clone(),
            dns_records: copy_records(&self.dns_records),
            traefik_enabled: self.traefik_enabled,
            created_at: self.created_at,
        }
    }
}

impl DomainView {
    /// A domain without records, with TLS routing switched on.
    pub open spec fn fresh(
        id: EntityId,
        name: Seq<char>,
        dns_provider: DnsProviderView,
        created_at: Timestamp,
    ) -> DomainView {
        DomainView {
            id,
            name,
            dns_provider,
            dns_records: Seq::empty(),
            traefik_enabled: true,
            created_at,
        }
    }
}

impl Domain {
    /// A domain without records, with a given identifier and creation time.
    pub fn with_id(id: EntityId, name: String, dns_provider: DnsProvider, created_at: Timestamp) -> (domain:
        Self)
        ensures
            domain@ == DomainView::fresh(id, name@, dns_provider@, created_at),
    {
        let domain = Domain {
            id,
            name,
            dns_provider,
            dns_records: Vec::new(),
            traefik_enabled: true,
            created_at,
        };
        assert(domain.dns_records.deep_view() =~= Seq::empty());
        domain
    }

    /// A domain without records, with a newly minted identifier, created now.
    pub fn new(name: String, dns_provider: DnsProvider) -> (domain: Self)
        ensures
            domain@ == DomainView::fresh(domain.id, name@, dns_provider@, domain.created_at),
    {
        Domain::with_id(fresh_id(), name, dns_provider, now())
    }

    /// Whether the domain's DNS is managed by hand.
    pub fn is_manual_dns(&self) -> (manual: bool)
        ensures
            manual == (self@.dns_provider is Manual),
    {
        self.dns_provider.is_manual()
    }

    /// The name of the domain's DNS provider.
    pub fn provider_name(&self) -> (name: &'static str)
        ensures
            name@ == self@.dns_provider.name(),
    {
        match self.dns_provider {
            DnsProvider::Cloudflare { .. } => "Cloudflare",
            DnsProvider::Route53 { .. } => "Route53",
            DnsProvider::Manual => "Manual",
        }
    }
}

/// The identifiers of a list of domains, in order.
pub open spec fn domain_ids(domains: Seq<DomainView>) -> Seq<EntityId> {
    Seq::new(domains.len(), |i: int| domains[i].id)
}

/// Scans a list of domains from the front for an identifier.
pub fn find_domain(domains: &Vec<Domain>, id: EntityId) -> (found: Option<usize>)
    ensures
        match found {
            Some(i) => contains(domain_ids(domains.deep_view()), id) && i == position(
                domain_ids(domains.deep_view()),
                id,
            ),
            None => !contains(domain_ids(domains.deep_view()), id),
        },
{
    let ghost ids = domain_ids(domains.deep_view());
    let mut i: usize = 0;
    while i < domains.len()
        invariant
            i <= domains.len(),
            ids == domain_ids(domains.deep_view()),
            position(ids, id) == scan_from(ids, id, i as int),
        decreases domains.len() - i,
    {
        assert(ids[i as int] == domains[i as int].id);
        if domains[i].id == id {
            return Some(i);
        }
        i += 1;
    }
    None
}

/// The identifiers of a list of domains, in order.
pub fn list_domain_ids(domains: &Vec<Domain>) -> (ids: Vec<EntityId>)
    ensures
        ids@ == domain_ids(domains.deep_view()),
{
    let mut ids: Vec<EntityId> = Vec::new();
    let mut i: usize = 0;
    while i < domains.len()
        invariant
            i <= domains.len(),
            ids.len() == i,
            forall|k: int| 0 <= k < i ==> ids[k] == domains[k].id,
        decreases domains.len() - i,
    {
        ids.push(domains[i].id);
        i += 1;
    }
    assert(ids@ =~= domain_ids(domains.deep_view()));
    ids
}

/// Copies a list of domains.
pub fn copy_domains(domains: &Vec<Domain>) -> (copy: Vec<Domain>)
    ensures
        copy.deep_view() == domains.deep_view(),
{
    let mut copy: Vec<Domain> = Vec::new();
    let mut i: usize = 0;
    while i < domains.len()
        invariant
            i <= domains.len(),
            copy.len() == i,
            forall|k: int| 0 <= k < i ==> copy[k]@ == domains[k]@,
        decreases domains.len() - i,
    {
        copy.push(domains[i].clone());
        i += 1;
    }
    assert(copy.deep_view() =~= domains.deep_view());
    copy
}

} // verus!
