//! Sites and the proxy labels generated for their deployment.

use crate::clock::{now, Timestamp};
use crate::ids::{
    contains, fresh_id, hyphenated_text, id_text, position, scan_from, EntityId,
};
use crate::string_map::StringMap;
use crate::text::{decimal, decimal_text, join2, join3};
use vstd::prelude::*;
use vstd::string::*;

verus! {

/// Where a site is in its life.
#[derive(Clone, Copy, Debug, PartialEq, Eq, Structural)]
pub enum SiteStatus {
    Inactive,
    Deploying,
    Running,
    Failed,
    Stopped,
}

impl SiteStatus {
    /// The status's name.
    pub open spec fn name(self) -> Seq<char> {
        match self {
            SiteStatus::Inactive => "Inactive"@,
            SiteStatus::Deploying => "Deploying"@,
            SiteStatus::Running => "Running"@,
            SiteStatus::Failed => "Failed"@,
            SiteStatus::Stopped => "Stopped"@,
        }
    }

    /// The status's name.
    pub fn to_string(&self) -> (text: String)
        ensures
            text@ == self.name(),
    {
        match self {
            SiteStatus::Inactive => String::from_str("Inactive"),
            SiteStatus::Deploying => String::from_str("Deploying"),
            SiteStatus::Running => String::from_str("Running"),
            SiteStatus::Failed => String::from_str("Failed"),
            SiteStatus::Stopped => String::from_str("Stopped"),
        }
    }
}

impl View for SiteStatus {
    type V = SiteStatus;

    open spec fn view(&self) -> SiteStatus {
        *self
    }
}

impl DeepView for SiteStatus {
    type V = SiteStatus;

    open spec fn deep_view(&self) -> SiteStatus {
        *self
    }
}

/// A file placed into a site's container.
#[derive(Debug, PartialEq, Eq)]
pub struct ConfigFile {
    pub name: String,
    pub content: String,
    pub container_path: String,
}

/// The mathematical value of a `ConfigFile`.
pub ghost struct ConfigFileView {
    pub name: Seq<char>,
    pub content: Seq<char>,
    pub container_path: Seq<char>,
}

impl View for ConfigFile {
    type V = ConfigFileView;

    open spec fn view(&self) -> ConfigFileView {
        ConfigFileView {
            name: self.name@,
            content: self.content@,
            container_path: self.container_path@,
        }
    }
}

impl DeepView for ConfigFile {
    type V = ConfigFileView;

    open spec fn deep_view(&self) -> ConfigFileView {
        self@
    }
}

impl Clone for ConfigFile {
    fn clone(&self) -> (copy: Self)
        ensures
            copy@ == self@,
    {
        ConfigFile {
            name: self.name.clone(),
            content: self.content.clone(),
            container_path: self.container_path.clone(),
        }
    }
}

impl ConfigFile {
    /// An empty file.
    pub fn new(name: String, container_path: String) -> (file: Self)
        ensures
            file@ == (ConfigFileView {
                name: name@,
                content: Seq::empty(),
                container_path: container_path@,
            }),
    {
        ConfigFile { name, content: String::new(), container_path }
    }

    /// A file with its content.
    pub fn with_content(name: String, content: String, container_path: String) -> (file: Self)
        ensures
            file@ == (ConfigFileView {
                name: name@,
                content: content@,
                container_path: container_path@,
            }),
    {
        ConfigFile { name, content, container_path }
    }
}

/// Copies a list of files.
pub fn copy_config_files(files: &Vec<ConfigFile>) -> (copy: Vec<ConfigFile>)
    ensures
        copy.deep_view() == files.deep_view(),
{
    let mut copy: Vec<ConfigFile> = Vec::new();
    let mut i: usize = 0;
    while i < files.len()
        invariant
            i <= files.len(),
            copy.len() == i,
            forall|k: int| 0 <= k < i ==> copy[k]@ == files[k]@,
        decreases files.len() - i,
    {
        copy.push(files[i].clone());
        i += 1;
    }
    assert(copy.deep_view() =~= files.deep_view());
    copy
}

/// A site deployed, or to be deployed, to a node under a domain.
#[derive(Debug)]
pub struct Site {
    pub id: EntityId,
    pub name: String,
    /// The owning domain; the reference may dangle after the domain is deleted.
    pub domain_id: EntityId,
    /// The hosting node; the reference may dangle after the node is removed.
    pub node_id: EntityId,
    pub docker_image: String,
    pub environment_vars: StringMap,
    pub port: u16,
    pub ssl_enabled: bool,
    pub config_files: Vec<ConfigFile>,
    pub status: SiteStatus,
    pub created_at: Timestamp,
    pub updated_at: Timestamp,
}

/// The mathematical value of a `Site`.
pub ghost struct SiteView {
    pub id: EntityId,
    pub name: Seq<char>,
    pub domain_id: EntityId,
    pub node_id: EntityId,
    pub docker_image: Seq<char>,
    pub environment_vars: Map<Seq<char>, Seq<char>>,
    pub port: u16,
    pub ssl_enabled: bool,
    pub config_files: Seq<ConfigFileView>,
    pub status: SiteStatus,
    pub created_at: Timestamp,
    pub updated_at: Timestamp,
}

impl View for Site {
    type V = SiteView;

    open spec fn view(&self) -> SiteView {
        SiteView {
            id: self.id,
            name: self.name@,
            domain_id: self.domain_id,
            node_id: self.node_id,
            docker_image: self.docker_image@,
            environment_vars: self.environment_vars@,
            port: self.port,
            ssl_enabled: self.ssl_enabled,
            config_files: self.config_files.deep_view(),
            status: self.status,
            created_at: self.created_at,
            updated_at: self.updated_at,
        }
    }
}

impl DeepView for Site {
    type V = SiteView;

    open spec fn deep_view(&self) -> SiteView {
        self@
    }
}

impl Clone for Site {
    fn clone(&self) -> (copy: Self)
        ensures
            copy@ == self@,
    {
        Site {
            id: self.id,
            name: self.name.clone(),
            domain_id: self.domain_id,
            node_id: self.node_id,
            docker_image: self.docker_image.clone(),
            environment_vars: self.environment_vars.clone(),
            port: self.port,
            ssl_enabled: self.ssl_enabled,
            config_files: copy_config_files(&self.config_files),
            status: self.status,
            created_at: self.created_at,
            updated_at: self.updated_at,
        }
    }
}

impl SiteView {
    /// A site that was never deployed: inactive, TLS switched on, without
    /// environment variables or files.
    pub open spec fn fresh(
        id: EntityId,
        name: Seq<char>,
        domain_id: EntityId,
        node_id: EntityId,
        docker_image: Seq<char>,
        port: u16,
        created_at: Timestamp,
    ) -> SiteView {
        SiteView {
            id,
            name,
            domain_id,
            node_id,
            docker_image,
            environment_vars: Map::empty(),
            port,
            ssl_enabled: true,
            config_files: Seq::empty(),
            status: SiteStatus::Inactive,
            created_at,
            updated_at: created_at,
        }
    }

    /// The labels that make the reverse proxy route a domain to the site:
    /// the proxy is enabled, requests for the host go to the site's router,
    /// over the secure entry point with a certificate where TLS is on and
    /// over the plain one where it is off, and on to the site's port.
    pub open spec fn traefik_labels(self, domain_name: Seq<char>) -> Map<Seq<char>, Seq<char>> {
        labels_for(hyphenated_text(self.id), domain_name, self.ssl_enabled, self.port)
    }
}

impl Site {
    /// A site that was never deployed, with a given identifier and creation
    /// time.
    pub fn with_id(
        id: EntityId,
        name: String,
        domain_id: EntityId,
        node_id: EntityId,
        docker_image: String,
        port: u16,
        created_at: Timestamp,
    ) -> (site: Self)
        ensures
            site@ == SiteView::fresh(id, name@, domain_id, node_id, docker_image@, port, created_at),
    {
        let site = Site {
            id,
            name,
            domain_id,
            node_id,
            docker_image,
            environment_vars: StringMap::new(),
            port,
            ssl_enabled: true,
            config_files: Vec::new(),
            status: SiteStatus::Inactive,
            created_at,
            updated_at: created_at,
        };
        assert(site.config_files.deep_view() =~= Seq::empty());
        site
    }

    /// A site that was never deployed, with a newly minted identifier,
    /// created now.
    pub fn new(
        name: String,
        domain_id: EntityId,
        node_id: EntityId,
        docker_image: String,
        port: u16,
    ) -> (site: Self)
        ensures
            site@ == SiteView::fresh(
                site.id,
                name@,
                domain_id,
                node_id,
                docker_image@,
                port,
                site.created_at,
            ),
    {
        Site::with_id(fresh_id(), name, domain_id, node_id, docker_image, port, now())
    }

    /// The labels for the site's container that configure the reverse proxy.
    pub fn generate_traefik_labels(&self, domain_name: &str) -> (labels: StringMap)
        ensures
            labels@ == self@.traefik_labels(domain_name@),
    {
        let id = id_text(self.id);
        traefik_labels_for(id.as_str(), domain_name, self.ssl_enabled, self.port)
    }
}

/// The labels for a site under a domain, given the site's identifier as it
/// is printed: as `SiteView::traefik_labels`, with that text in place of the
/// printed identifier.
pub open spec fn labels_for(
    id: Seq<char>,
    domain_name: Seq<char>,
    ssl_enabled: bool,
    port: u16,
) -> Map<Seq<char>, Seq<char>> {
    let router = "site-"@ + id;
    let routed = Map::<Seq<char>, Seq<char>>::empty().insert("traefik.enable"@, "true"@).insert(
        "traefik.http.routers."@ + router + ".rule"@,
        "Host(`"@ + domain_name + "`)"@,
    ).insert(
        "traefik.http.routers."@ + router + ".entrypoints"@,
        if ssl_enabled {
            "websecure"@
        } else {
            "web"@
        },
    );
    let secured = if ssl_enabled {
        routed.insert("traefik.http.routers."@ + router + ".tls"@, "true"@).insert(
            "traefik.http.routers."@ + router + ".tls.certresolver"@,
            "letsencrypt"@,
        )
    } else {
        routed
    };
    secured.insert(
        "traefik.http.services."@ + router + ".loadbalancer.server.port"@,
        decimal_text(port as nat),
    )
}

/// The labels for a site under a domain, given the site's identifier as it
/// is printed.
pub fn traefik_labels_for(id: &str, domain_name: &str, ssl_enabled: bool, port: u16) -> (labels:
    StringMap)
    ensures
        labels@ == labels_for(id@, domain_name@, ssl_enabled, port),
{
    let mut labels = StringMap::new();
    labels.insert(String::from_str("traefik.enable"), String::from_str("true"));
    let router_name = join2("site-", id);
    labels.insert(
        join3("traefik.http.routers.", router_name.as_str(), ".rule"),
        join3("Host(`", domain_name, "`)"),
    );
    let entrypoint = if ssl_enabled {
        "websecure"
    } else {
        "web"
    };
    labels.insert(
        join3("traefik.http.routers.", router_name.as_str(), ".entrypoints"),
        String::from_str(entrypoint),
    );
    if ssl_enabled {
        labels.insert(
            join3("traefik.http.routers.", router_name.as_str(), ".tls"),
            String::from_str("true"),
        );
        labels.insert(
            join3("traefik.http.routers.", router_name.as_str(), ".tls.certresolver"),
            String::from_str("letsencrypt"),
        );
    }
    labels.insert(
        join3("traefik.http.services.", router_name.as_str(), ".loadbalancer.server.port"),
        decimal(port as u64),
    );
    labels
}

/// The identifiers of a list of sites, in order.
pub open spec fn site_ids(sites: Seq<SiteView>) -> Seq<EntityId> {
    Seq::new(sites.len(), |i: int| sites[i].id)
}

/// Scans a list of sites from the front for an identifier.
pub fn find_site(sites: &Vec<Site>, id: EntityId) -> (found: Option<usize>)
    ensures
        match found {
            Some(i) => contains(site_ids(sites.deep_view()), id) && i == position(
                site_ids(sites.deep_view()),
                id,
            ),
            None => !contains(site_ids(sites.deep_view()), id),
        },
{
    let ghost ids = site_ids(sites.deep_view());
    let mut i: usize = 0;
    while i < sites.len()
        invariant
            i <= sites.len(),
            ids == site_ids(sites.deep_view()),
            position(ids, id) == scan_from(ids, id, i as int),
        decreases sites.len() - i,
    {
        assert(ids[i as int] == sites[i as int].id);
        if sites[i].id == id {
            return Some(i);
        }
        i += 1;
    }
    None
}

/// The identifiers of a list of sites, in order.
pub fn list_site_ids(sites: &Vec<Site>) -> (ids: Vec<EntityId>)
    ensures
        ids@ == site_ids(sites.deep_view()),
{
    let mut ids: Vec<EntityId> = Vec::new();
    let mut i: usize = 0;
    while i < sites.len()
        invariant
            i <= sites.len(),
            ids.len() == i,
            forall|k: int| 0 <= k < i ==> ids[k] == sites[k].id,
        decreases sites.len() - i,
    {
        ids.push(sites[i].id);
        i += 1;
    }
    assert(ids@ =~= site_ids(sites.deep_view()));
    ids
}

/// Copies a list of sites.
pub fn copy_sites(sites: &Vec<Site>) -> (copy: Vec<Site>)
    ensures
        copy.deep_view() == sites.deep_view(),
{
    let mut copy: Vec<Site> = Vec::new();
    let mut i: usize = 0;
    while i < sites.len()
        invariant
            i <= sites.len(),
            copy.len() == i,
            forall|k: int| 0 <= k < i ==> copy[k]@ == sites[k]@,
        decreases sites.len() - i,
    {
        copy.push(sites[i].clone());
        i += 1;
    }
    assert(copy.deep_view() =~= sites.deep_view());
    copy
}

} // verus!
