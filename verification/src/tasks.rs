//! Background work: what a unit of work needs, as a snapshot that shares
//! nothing with the console's state, and the one action with which it
//! reports back.

use crate::api::error::ApiError;
use crate::api::node_client::HealthResponse;
use crate::dns::provider::ProviderError;
use crate::events::actions::{Action, ActionView};
use crate::ids::EntityId;
use crate::models::dns::DnsRecord;
use crate::models::domain::{DnsProvider, DnsProviderView};
use crate::models::node::{DockerInfo, Node, NodeView, TraefikInfo};
use crate::models::site::{Site, SiteView};
use crate::state::async_ops::{
    AsyncOperationResult, AsyncOperationResultView, ContainerMetrics, OperationType,
};
use crate::state::notifications::{Notification, NotificationLevel};
use vstd::prelude::*;
use vstd::string::*;

verus! {

/// The number of log lines that a log fetch asks for.
pub const LOG_LINES: usize = 100;

/// Where a node's API is and the credential for it.
#[derive(Debug, PartialEq, Eq)]
pub struct NodeAccess {
    pub api_endpoint: String,
    pub api_key: String,
}

/// The mathematical value of a `NodeAccess`.
pub ghost struct NodeAccessView {
    pub api_endpoint: Seq<char>,
    pub api_key: Seq<char>,
}

impl NodeAccessView {
    /// The access data of a node.
    pub open spec fn of(node: NodeView) -> NodeAccessView {
        NodeAccessView { api_endpoint: node.api_endpoint, api_key: node.api_key }
    }
}

impl View for NodeAccess {
    type V = NodeAccessView;

    open spec fn view(&self) -> NodeAccessView {
        NodeAccessView { api_endpoint: self.api_endpoint@, api_key: self.api_key@ }
    }
}

impl DeepView for NodeAccess {
    type V = NodeAccessView;

    open spec fn deep_view(&self) -> NodeAccessView {
        self@
    }
}

impl NodeAccess {
    /// A copy of a node's access data.
    pub fn of(node: &Node) -> (access: Self)
        ensures
            access@ == NodeAccessView::of(node@),
    {
        NodeAccess { api_endpoint: node.api_endpoint.clone(), api_key: node.api_key.clone() }
    }
}

/// What a unit of background work does, with all the data it needs.
#[derive(Debug)]
pub enum Work {
    DeploySite { site: Site, domain_name: String, access: NodeAccess },
    DeleteSite { site_id: EntityId, access: NodeAccess },
    StopSite { site_id: EntityId, access: NodeAccess },
    RestartSite { site_id: EntityId, access: NodeAccess },
    SyncDns { domain_id: EntityId, domain_name: String, provider: DnsProvider },
    NodeHealthCheck { node_id: EntityId, access: NodeAccess },
    FetchNodeStats { node_id: EntityId, access: NodeAccess },
    FetchLogs { site_id: EntityId, access: NodeAccess, lines: usize },
    FetchMetrics { site_id: EntityId, access: NodeAccess },
}

/// The mathematical value of a `Work`.
pub ghost enum WorkView {
    DeploySite { site: SiteView, domain_name: Seq<char>, access: NodeAccessView },
    DeleteSite { site_id: EntityId, access: NodeAccessView },
    StopSite { site_id: EntityId, access: NodeAccessView },
    RestartSite { site_id: EntityId, access: NodeAccessView },
    SyncDns { domain_id: EntityId, domain_name: Seq<char>, provider: DnsProviderView },
    NodeHealthCheck { node_id: EntityId, access: NodeAccessView },
    FetchNodeStats { node_id: EntityId, access: NodeAccessView },
    FetchLogs { site_id: EntityId, access: NodeAccessView, lines: usize },
    FetchMetrics { site_id: EntityId, access: NodeAccessView },
}

impl WorkView {
    /// The kind under which the work is registered.
    pub open spec fn operation_type(self) -> OperationType {
        match self {
            WorkView::DeploySite { site, .. } => OperationType::DeploySite(site.id),
            WorkView::DeleteSite { site_id, .. } => OperationType::DeleteSite(site_id),
            WorkView::StopSite { site_id, .. } => OperationType::StopSite(site_id),
            WorkView::RestartSite { site_id, .. } => OperationType::RestartSite(site_id),
            WorkView::SyncDns { domain_id, .. } => OperationType::UpdateDns(domain_id),
            WorkView::NodeHealthCheck { node_id, .. } => OperationType::NodeHealthCheck(node_id),
            WorkView::FetchNodeStats { node_id, .. } => OperationType::FetchNodeStats(node_id),
            WorkView::FetchLogs { site_id, .. } => OperationType::FetchLogs(site_id),
            WorkView::FetchMetrics { site_id, .. } => OperationType::FetchMetrics(site_id),
        }
    }
}

impl View for Work {
    type V = WorkView;

    open spec fn view(&self) -> WorkView {
        match self {
            Work::DeploySite { site, domain_name, access } => WorkView::DeploySite {
                site: site@,
                domain_name: domain_name@,
                access: access@,
            },
            Work::DeleteSite { site_id, access } => WorkView::DeleteSite {
                site_id: *site_id,
                access: access@,
            },
            Work::StopSite { site_id, access } => WorkView::StopSite {
                site_id: *site_id,
                access: access@,
            },
            Work::RestartSite { site_id, access } => WorkView::RestartSite {
                site_id: *site_id,
                access: access@,
            },
            Work::SyncDns { domain_id, domain_name, provider } => WorkView::SyncDns {
                domain_id: *domain_id,
                domain_name: domain_name@,
                provider: provider@,
            },
            Work::NodeHealthCheck { node_id, access } => WorkView::NodeHealthCheck {
                node_id: *node_id,
                access: access@,
            },
            Work::FetchNodeStats { node_id, access } => WorkView::FetchNodeStats {
                node_id: *node_id,
                access: access@,
            },
            Work::FetchLogs { site_id, access, lines } => WorkView::FetchLogs {
                site_id: *site_id,
                access: access@,
                lines: *lines,
            },
            Work::FetchMetrics { site_id, access } => WorkView::FetchMetrics {
                site_id: *site_id,
                access: access@,
            },
        }
    }
}

impl DeepView for Work {
    type V = WorkView;

    open spec fn deep_view(&self) -> WorkView {
        self@
    }
}

impl Work {
    /// The kind under which the work is registered.
    pub fn operation_type(&self) -> (kind: OperationType)
        ensures
            kind == self@.operation_type(),
    {
        match self {
            Work::DeploySite { site, .. } => OperationType::DeploySite(site.id),
            Work::DeleteSite { site_id, .. } => OperationType::DeleteSite(*site_id),
            Work::StopSite { site_id, .. } => OperationType::StopSite(*site_id),
            Work::RestartSite { site_id, .. } => OperationType::RestartSite(*site_id),
            Work::SyncDns { domain_id, .. } => OperationType::UpdateDns(*domain_id),
            Work::NodeHealthCheck { node_id, .. } => OperationType::NodeHealthCheck(*node_id),
            Work::FetchNodeStats { node_id, .. } => OperationType::FetchNodeStats(*node_id),
            Work::FetchLogs { site_id, .. } => OperationType::FetchLogs(*site_id),
            Work::FetchMetrics { site_id, .. } => OperationType::FetchMetrics(*site_id),
        }
    }
}

/// A unit of background work and the identifier under which it is
/// registered.
#[derive(Debug)]
pub struct Task {
    pub operation_id: EntityId,
    pub work: Work,
}

/// The mathematical value of a `Task`.
pub ghost struct TaskView {
    pub operation_id: EntityId,
    pub work: WorkView,
}

impl View for Task {
    type V = TaskView;

    open spec fn view(&self) -> TaskView {
        TaskView { operation_id: self.operation_id, work: self.work@ }
    }
}

impl DeepView for Task {
    type V = TaskView;

    open spec fn deep_view(&self) -> TaskView {
        self@
    }
}

/// The action that reports an operation's end: what it found, or the
/// sentence of its failure.
pub open spec fn completion(
    operation_id: EntityId,
    result: Result<AsyncOperationResultView, Seq<char>>,
) -> ActionView {
    ActionView::AsyncOperationCompleted(operation_id, result)
}

/// Whether an action is a notification of success with this message.
pub open spec fn is_success_notice(action: ActionView, message: Seq<char>) -> bool {
    action is ShowNotification && action->ShowNotification_0.message == message
        && action->ShowNotification_0.level == NotificationLevel::Success
}

fn failed(operation_id: EntityId, error: &ApiError) -> (action: Action)
    ensures
        action@ == completion(operation_id, Err(error@.message())),
{
    Action::AsyncOperationCompleted(operation_id, Err(error.to_string()))
}

/// The report of a deployment.
pub fn deploy_finished(operation_id: EntityId, site_id: EntityId, result: Result<(), ApiError>) -> (action:
    Action)
    ensures
        action@ == completion(
            operation_id,
            match result {
                Ok(_) => Ok(AsyncOperationResultView::SiteDeployed(site_id)),
                Err(error) => Err(error@.message()),
            },
        ),
{
    match result {
        Ok(_) => Action::AsyncOperationCompleted(
            operation_id,
            Ok(AsyncOperationResult::SiteDeployed(site_id)),
        ),
        Err(error) => failed(operation_id, &error),
    }
}

/// The report of a deletion.
pub fn delete_finished(operation_id: EntityId, site_id: EntityId, result: Result<(), ApiError>) -> (action:
    Action)
    ensures
        action@ == completion(
            operation_id,
            match result {
                Ok(_) => Ok(AsyncOperationResultView::SiteDeleted(site_id)),
                Err(error) => Err(error@.message()),
            },
        ),
{
    match result {
        Ok(_) => Action::AsyncOperationCompleted(
            operation_id,
            Ok(AsyncOperationResult::SiteDeleted(site_id)),
        ),
        Err(error) => failed(operation_id, &error),
    }
}

/// The report of a stop: a notification of success, or the failure of the
/// operation.
pub fn stop_finished(operation_id: EntityId, result: Result<(), ApiError>) -> (action: Action)
    ensures
        match result {
            Ok(_) => is_success_notice(action@, "Site stopped"@),
            Err(error) => action@ == completion(operation_id, Err(error@.message())),
        },
{
    match result {
        Ok(_) => Action::ShowNotification(Notification::success("Site stopped")),
        Err(error) => failed(operation_id, &error),
    }
}

/// The report of a restart: a notification of success, or the failure of the
/// operation.
pub fn restart_finished(operation_id: EntityId, result: Result<(), ApiError>) -> (action: Action)
    ensures
        match result {
            Ok(_) => is_success_notice(action@, "Site restarted"@),
            Err(error) => action@ == completion(operation_id, Err(error@.message())),
        },
{
    match result {
        Ok(_) => Action::ShowNotification(Notification::success("Site restarted")),
        Err(error) => failed(operation_id, &error),
    }
}

/// The report of a DNS synchronisation.
pub fn dns_sync_finished(
    operation_id: EntityId,
    domain_id: EntityId,
    result: Result<Vec<DnsRecord>, ProviderError>,
) -> (action: Action)
    ensures
        action@ == completion(
            operation_id,
            match result {
                Ok(records) => Ok(
                    AsyncOperationResultView::DnsSynced(domain_id, records.deep_view()),
                ),
                Err(error) => Err(error@.message()),
            },
        ),
{
    match result {
        Ok(records) => Action::AsyncOperationCompleted(
            operation_id,
            Ok(AsyncOperationResult::DnsSynced(domain_id, records)),
        ),
        Err(error) => Action::AsyncOperationCompleted(operation_id, Err(error.to_string())),
    }
}

/// The report of a health check.
pub fn health_check_finished(
    operation_id: EntityId,
    node_id: EntityId,
    result: Result<HealthResponse, ApiError>,
) -> (action: Action)
    ensures
        action@ == completion(
            operation_id,
            match result {
                Ok(health) => Ok(
                    AsyncOperationResultView::NodeHealth(
                        node_id,
                        health.status,
                        health.docker.deep_view(),
                        health.traefik.deep_view(),
                    ),
                ),
                Err(error) => Err(error@.message()),
            },
        ),
{
    match result {
        Ok(health) => Action::AsyncOperationCompleted(
            operation_id,
            Ok(
                AsyncOperationResult::NodeHealth(
                    node_id,
                    health.status,
                    health.docker,
                    health.traefik,
                ),
            ),
        ),
        Err(error) => failed(operation_id, &error),
    }
}

/// The report of a fetch of node statistics, which is made of two calls: it
/// succeeds if both did, and fails with a fixed sentence otherwise.
pub fn node_stats_finished(
    operation_id: EntityId,
    node_id: EntityId,
    docker: Result<DockerInfo, ApiError>,
    traefik: Result<TraefikInfo, ApiError>,
) -> (action: Action)
    ensures
        action@ == completion(
            operation_id,
            match (docker, traefik) {
                (Ok(d), Ok(t)) => Ok(AsyncOperationResultView::NodeStats(node_id, d@, t@)),
                _ => Err("Failed to fetch node stats"@),
            },
        ),
{
    match (docker, traefik) {
        (Ok(d), Ok(t)) => Action::AsyncOperationCompleted(
            operation_id,
            Ok(AsyncOperationResult::NodeStats(node_id, d, t)),
        ),
        _ => Action::AsyncOperationCompleted(
            operation_id,
            Err(String::from_str("Failed to fetch node stats")),
        ),
    }
}

/// The report of a fetch of logs.
pub fn logs_finished(
    operation_id: EntityId,
    site_id: EntityId,
    result: Result<Vec<String>, ApiError>,
) -> (action: Action)
    ensures
        action@ == completion(
            operation_id,
            match result {
                Ok(lines) => Ok(AsyncOperationResultView::Logs(site_id, lines.deep_view())),
                Err(error) => Err(error@.message()),
            },
        ),
{
    match result {
        Ok(lines) => Action::AsyncOperationCompleted(
            operation_id,
            Ok(AsyncOperationResult::Logs(site_id, lines)),
        ),
        Err(error) => failed(operation_id, &error),
    }
}

/// The report of a fetch of metrics.
pub fn metrics_finished(
    operation_id: EntityId,
    site_id: EntityId,
    result: Result<ContainerMetrics, ApiError>,
) -> (action: Action)
    ensures
        action@ == completion(
            operation_id,
            match result {
                Ok(metrics) => Ok(AsyncOperationResultView::Metrics(site_id, metrics)),
                Err(error) => Err(error@.message()),
            },
        ),
{
    match result {
        Ok(metrics) => Action::AsyncOperationCompleted(
            operation_id,
            Ok(AsyncOperationResult::Metrics(site_id, metrics)),
        ),
        Err(error) => failed(operation_id, &error),
    }
}

} // verus!
