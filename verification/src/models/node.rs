//! Deployment nodes and what is last known of them.

use crate::clock::{now, Timestamp};
use crate::ids::{contains, fresh_id, position, scan_from, EntityId};
use vstd::prelude::*;
use vstd::string::*;

verus! {

/// What the last health check found.
#[derive(Clone, Copy, Debug, PartialEq, Eq, Structural)]
pub enum NodeStatus {
    Unknown,
    Online,
    Offline,
    Degraded,
}

impl NodeStatus {
    /// The status's name.
    pub open spec fn name(self) -> Seq<char> {
        match self {
            NodeStatus::Unknown => "Unknown"@,
            NodeStatus::Online => "Online"@,
            NodeStatus::Offline => "Offline"@,
            NodeStatus::Degraded => "Degraded"@,
        }
    }

    /// The status's name.
    pub fn to_string(&self) -> (text: String)
        ensures
            text@ == self.name(),
    {
        match self {
            NodeStatus::Unknown => String::from_str("Unknown"),
            NodeStatus::Online => String::from_str("Online"),
            NodeStatus::Offline => String::from_str("Offline"),
            NodeStatus::Degraded => String::from_str("Degraded"),
        }
    }
}

impl View for NodeStatus {
    type V = NodeStatus;

    open spec fn view(&self) -> NodeStatus {
        *self
    }
}

impl DeepView for NodeStatus {
    type V = NodeStatus;

    open spec fn deep_view(&self) -> NodeStatus {
        *self
    }
}

/// A node's address: the 32 bits of an IPv4 address or the 128 bits of an
/// IPv6 address, most significant octet first.
#[derive(Clone, Copy, Debug, PartialEq, Eq, Structural)]
pub enum IpAddress {
    V4(u32),
    V6(u128),
}

/// What a node reports of its container engine.
#[derive(Debug, PartialEq, Eq)]
pub struct DockerInfo {
    pub version: String,
    pub containers_running: u32,
    pub images_count: u32,
}

/// The mathematical value of a `DockerInfo`.
pub ghost struct DockerInfoView {
    pub version: Seq<char>,
    pub containers_running: u32,
    pub images_count: u32,
}

impl View for DockerInfo {
    type V = DockerInfoView;

    open spec fn view(&self) -> DockerInfoView {
        DockerInfoView {
            version: self.version@,
            containers_running: self.containers_running,
            images_count: self.images_count,
        }
    }
}

impl DeepView for DockerInfo {
    type V = DockerInfoView;

    open spec fn deep_view(&self) -> DockerInfoView {
        self@
    }
}

impl Clone for DockerInfo {
    fn clone(&self) -> (copy: Self)
        ensures
            copy@ == self@,
    {
        DockerInfo {
            version: self.version.clone(),
            containers_running: self.containers_running,
            images_count: self.images_count,
        }
    }
}

impl DockerInfo {
    pub fn new(version: String, containers_running: u32, images_count: u32) -> (info: Self)
        ensures
            info@ == (DockerInfoView { version: version@, containers_running, images_count }),
    {
        DockerInfo { version, containers_running, images_count }
    }
}

/// What a node reports of its reverse proxy.
#[derive(Debug, PartialEq, Eq)]
pub struct TraefikInfo {
    pub version: String,
    pub routers_count: u32,
    pub services_count: u32,
}

/// The mathematical value of a `TraefikInfo`.
pub ghost struct TraefikInfoView {
    pub version: Seq<char>,
    pub routers_count: u32,
    pub services_count: u32,
}

impl View for TraefikInfo {
    type V = TraefikInfoView;

    open spec fn view(&self) -> TraefikInfoView {
        TraefikInfoView {
            version: self.version@,
            routers_count: self.routers_count,
            services_count: self.services_count,
        }
    }
}

impl DeepView for TraefikInfo {
    type V = TraefikInfoView;

    open spec fn deep_view(&self) -> TraefikInfoView {
        self@
    }
}

impl Clone for TraefikInfo {
    fn clone(&self) -> (copy: Self)
        ensures
            copy@ == self@,
    {
        TraefikInfo {
            version: self.version.clone(),
            routers_count: self.routers_count,
            services_count: self.services_count,
        }
    }
}

impl TraefikInfo {
    pub fn new(version: String, routers_count: u32, services_count: u32) -> (info: Self)
        ensures
            info@ == (TraefikInfoView { version: version@, routers_count, services_count }),
    {
        TraefikInfo { version, routers_count, services_count }
    }
}

/// Copies an optional container-engine report.
pub fn copy_docker_info(info: &Option<DockerInfo>) -> (copy: Option<DockerInfo>)
    ensures
        copy.deep_view() == info.deep_view(),
{
    match info {
        Some(i) => Some(i.clone()),
        None => None,
    }
}

/// Copies an optional reverse-proxy report.
pub fn copy_traefik_info(info: &Option<TraefikInfo>) -> (copy: Option<TraefikInfo>)
    ensures
        copy.deep_view() == info.deep_view(),
{
    match info {
        Some(i) => Some(i.clone()),
        None => None,
    }
}

/// A deployment target.
#[derive(Debug, PartialEq, Eq)]
pub struct Node {
    pub id: EntityId,
    pub name: String,
    pub api_endpoint: String,
    pub api_key: String,
    pub ip_address: IpAddress,
    pub status: NodeStatus,
    pub docker_info: Option<DockerInfo>,
    pub traefik_info: Option<TraefikInfo>,
    pub last_health_check: Option<Timestamp>,
}

/// The mathematical value of a `Node`.
pub ghost struct NodeView {
    pub id: EntityId,
    pub name: Seq<char>,
    pub api_endpoint: Seq<char>,
    pub api_key: Seq<char>,
    pub ip_address: IpAddress,
    pub status: NodeStatus,
    pub docker_info: Option<DockerInfoView>,
    pub traefik_info: Option<TraefikInfoView>,
    pub last_health_check: Option<Timestamp>,
}

impl View for Node {
    type V = NodeView;

    open spec fn view(&self) -> NodeView {
        NodeView {
            id: self.id,
            name: self.name@,
            api_endpoint: self.api_endpoint@,
            api_key: self.api_key@,
            ip_address: self.ip_address,
            status: self.status,
            docker_info: self.docker_info.deep_view(),
            traefik_info: self.traefik_info.deep_view(),
            last_health_check: self.last_health_check,
        }
    }
}

impl DeepView for Node {
    type V = NodeView;

    open spec fn deep_view(&self) -> NodeView {
        self@
    }
}

impl Clone for Node {
    fn clone(&self) -> (copy: Self)
        ensures
            copy@ == self@,
    {
        Node {
            id: self.id,
            name: self.name.clone(),
            api_endpoint: self.api_endpoint.clone(),
            api_key: self.api_key.clone(),
            ip_address: self.ip_address,
            status: self.status,
            docker_info: copy_docker_info(&self.docker_info),
            traefik_info: copy_traefik_info(&self.traefik_info),
            last_health_check: self.last_health_check,
        }
    }
}

impl NodeView {
    /// A node of which nothing has been observed yet.
    pub open spec fn unobserved(
        id: EntityId,
        name: Seq<char>,
        api_endpoint: Seq<char>,
        api_key: Seq<char>,
        ip_address: IpAddress,
    ) -> NodeView {
        NodeView {
            id,
            name,
            api_endpoint,
            api_key,
            ip_address,
            status: NodeStatus::Unknown,
            docker_info: None,
            traefik_info: None,
            last_health_check: None,
        }
    }

    /// The node after a health check at a given instant.
    pub open spec fn with_health(
        self,
        status: NodeStatus,
        docker_info: Option<DockerInfoView>,
        traefik_info: Option<TraefikInfoView>,
        at: Timestamp,
    ) -> NodeView {
        NodeView { status, docker_info, traefik_info, last_health_check: Some(at), ..self }
    }

    /// The node with fresh reports and everything else as it was.
    pub open spec fn with_stats(
        self,
        docker_info: DockerInfoView,
        traefik_info: TraefikInfoView,
    ) -> NodeView {
        NodeView { docker_info: Some(docker_info), traefik_info: Some(traefik_info), ..self }
    }
}

impl Node {
    /// A node with a given identifier, of which nothing has been observed.
    pub fn with_id(
        id: EntityId,
        name: String,
        api_endpoint: String,
        api_key: String,
        ip_address: IpAddress,
    ) -> (node: Self)
        ensures
            node@ == NodeView::unobserved(id, name@, api_endpoint@, api_key@, ip_address),
    {
        Node {
            id,
            name,
            api_endpoint,
            api_key,
            ip_address,
            status: NodeStatus::Unknown,
            docker_info: None,
            traefik_info: None,
            last_health_check: None,
        }
    }

    /// A node with a newly minted identifier, of which nothing has been
    /// observed.
    pub fn new(name: String, api_endpoint: String, api_key: String, ip_address: IpAddress) -> (node:
        Self)
        ensures
            node@ == NodeView::unobserved(node.id, name@, api_endpoint@, api_key@, ip_address),
    {
        Node::with_id(fresh_id(), name, api_endpoint, api_key, ip_address)
    }

    /// Records the result of a health check made at a given instant.
    pub fn update_health_at(
        &mut self,
        status: NodeStatus,
        docker_info: Option<DockerInfo>,
        traefik_info: Option<TraefikInfo>,
        at: Timestamp,
    )
        ensures
            final(self)@ == old(self)@.with_health(
                status,
                docker_info.deep_view(),
                traefik_info.deep_view(),
                at,
            ),
    {
        self.status = status;
        self.docker_info = docker_info;
        self.traefik_info = traefik_info;
        self.last_health_check = Some(at);
    }

    /// Records the result of a health check made now.
    pub fn update_health(
        &mut self,
        status: NodeStatus,
        docker_info: Option<DockerInfo>,
        traefik_info: Option<TraefikInfo>,
    )
        ensures
            final(self)@.last_health_check is Some,
            final(self)@ == old(self)@.with_health(
                status,
                docker_info.deep_view(),
                traefik_info.deep_view(),
                final(self)@.last_health_check->0,
            ),
    {
        self.update_health_at(status, docker_info, traefik_info, now());
    }
}

/// The identifiers of a list of nodes, in order.
pub open spec fn node_ids(nodes: Seq<NodeView>) -> Seq<EntityId> {
    Seq::new(nodes.len(), |i: int| nodes[i].id)
}

/// Scans a list of nodes from the front for an identifier.
pub fn find_node(nodes: &Vec<Node>, id: EntityId) -> (found: Option<usize>)
    ensures
        match found {
            Some(i) => contains(node_ids(nodes.deep_view()), id) && i == position(
                node_ids(nodes.deep_view()),
                id,
            ),
            None => !contains(node_ids(nodes.deep_view()), id),
        },
{
    let ghost ids = node_ids(nodes.deep_view());
    let mut i: usize = 0;
    while i < nodes.len()
        invariant
            i <= nodes.len(),
            ids == node_ids(nodes.deep_view()),
            position(ids, id) == scan_from(ids, id, i as int),
        decreases nodes.len() - i,
    {
        assert(ids[i as int] == nodes[i as int].id);
        if nodes[i].id == id {
            return Some(i);
        }
        i += 1;
    }
    None
}

/// The identifiers of a list of nodes, in order.
pub fn list_node_ids(nodes: &Vec<Node>) -> (ids: Vec<EntityId>)
    ensures
        ids@ == node_ids(nodes.deep_view()),
{
    let mut ids: Vec<EntityId> = Vec::new();
    let mut i: usize = 0;
    while i < nodes.len()
        invariant
            i <= nodes.len(),
            ids.len() == i,
            forall|k: int| 0 <= k < i ==> ids[k] == nodes[k].id,
        decreases nodes.len() - i,
    {
        ids.push(nodes[i].id);
        i += 1;
    }
    assert(ids@ =~= node_ids(nodes.deep_view()));
    ids
}

/// Copies a list of nodes.
pub fn copy_nodes(nodes: &Vec<Node>) -> (copy: Vec<Node>)
    ensures
        copy.deep_view() == nodes.deep_view(),
{
    let mut copy: Vec<Node> = Vec::new();
    let mut i: usize = 0;
    while i < nodes.len()
        invariant
            i <= nodes.len(),
            copy.len() == i,
            forall|k: int| 0 <= k < i ==> copy[k]@ == nodes[k]@,
        decreases nodes.len() - i,
    {
        copy.push(nodes[i].clone());
        i += 1;
    }
    assert(copy.deep_view() =~= nodes.deep_view());
    copy
}

} // verus!
