//! Background operations: what is tracked of each while it runs, and what it
//! reports when it ends.

use crate::clock::{now, Timestamp};
use crate::ids::{fresh_id, EntityId};
use crate::models::dns::{copy_records, DnsRecord, DnsRecordView};
use crate::models::node::{
    copy_docker_info, copy_traefik_info, DockerInfo, DockerInfoView, NodeStatus, TraefikInfo,
    TraefikInfoView,
};
use crate::text::copy_texts;
use vstd::prelude::*;

verus! {

/// What an operation does, and to which entity.
#[derive(Clone, Copy, Debug, PartialEq, Eq, Structural)]
pub enum OperationType {
    DeploySite(EntityId),
    UpdateSite(EntityId),
    DeleteSite(EntityId),
    StopSite(EntityId),
    RestartSite(EntityId),
    UpdateDns(EntityId),
    NodeHealthCheck(EntityId),
    FetchNodeStats(EntityId),
    FetchLogs(EntityId),
    FetchMetrics(EntityId),
}

/// Where an operation is in its life. `Completed` and `Failed` are final.
#[derive(Debug, PartialEq, Eq)]
pub enum AsyncStatus {
    InProgress,
    Completed,
    Failed(String),
}

/// The mathematical value of an `AsyncStatus`.
pub ghost enum AsyncStatusView {
    InProgress,
    Completed,
    Failed(Seq<char>),
}

impl AsyncStatusView {
    /// Whether the status is final.
    pub open spec fn is_terminal(self) -> bool {
        !(self is InProgress)
    }
}

impl View for AsyncStatus {
    type V = AsyncStatusView;

    open spec fn view(&self) -> AsyncStatusView {
        match self {
            AsyncStatus::InProgress => AsyncStatusView::InProgress,
            AsyncStatus::Completed => AsyncStatusView::Completed,
            AsyncStatus::Failed(reason) => AsyncStatusView::Failed(reason@),
        }
    }
}

impl DeepView for AsyncStatus {
    type V = AsyncStatusView;

    open spec fn deep_view(&self) -> AsyncStatusView {
        self@
    }
}

impl Clone for AsyncStatus {
    fn clone(&self) -> (copy: Self)
        ensures
            copy@ == self@,
    {
        match self {
            AsyncStatus::InProgress => AsyncStatus::InProgress,
            AsyncStatus::Completed => AsyncStatus::Completed,
            AsyncStatus::Failed(reason) => AsyncStatus::Failed(reason.clone()),
        }
    }
}

/// The registry's entry for one background operation.
#[derive(Debug, PartialEq, Eq)]
pub struct AsyncOperation {
    pub id: EntityId,
    pub operation_type: OperationType,
    pub status: AsyncStatus,
    pub started_at: Timestamp,
}

/// The mathematical value of an `AsyncOperation`.
pub ghost struct AsyncOperationView {
    pub id: EntityId,
    pub operation_type: OperationType,
    pub status: AsyncStatusView,
    pub started_at: Timestamp,
}

impl AsyncOperationView {
    /// An operation that has just been started.
    pub open spec fn started(
        id: EntityId,
        operation_type: OperationType,
        started_at: Timestamp,
    ) -> AsyncOperationView {
        AsyncOperationView { id, operation_type, status: AsyncStatusView::InProgress, started_at }
    }

    /// The entry after the operation was reported as done. A final status
    /// stays as it is.
    pub open spec fn completed(self) -> AsyncOperationView {
        if self.status is InProgress {
            AsyncOperationView { status: AsyncStatusView::Completed, ..self }
        } else {
            self
        }
    }

    /// The entry after the operation was reported as failed. A final status
    /// stays as it is.
    pub open spec fn failed(self, reason: Seq<char>) -> AsyncOperationView {
        if self.status is InProgress {
            AsyncOperationView { status: AsyncStatusView::Failed(reason), ..self }
        } else {
            self
        }
    }
}

impl View for AsyncOperation {
    type V = AsyncOperationView;

    open spec fn view(&self) -> AsyncOperationView {
        AsyncOperationView {
            id: self.id,
            operation_type: self.operation_type,
            status: self.status@,
            started_at: self.started_at,
        }
    }
}

impl DeepView for AsyncOperation {
    type V = AsyncOperationView;

    open spec fn deep_view(&self) -> AsyncOperationView {
        self@
    }
}

impl Clone for AsyncOperation {
    fn clone(&self) -> (copy: Self)
        ensures
            copy@ == self@,
    {
        AsyncOperation {
            id: self.id,
            operation_type: self.operation_type,
            status: self.status.clone(),
            started_at: self.started_at,
        }
    }
}

impl AsyncOperation {
    /// An operation in progress, with a given identifier and start time.
    pub fn with_id(id: EntityId, operation_type: OperationType, started_at: Timestamp) -> (op: Self)
        ensures
            op@ == AsyncOperationView::started(id, operation_type, started_at),
    {
        AsyncOperation { id, operation_type, status: AsyncStatus::InProgress, started_at }
    }

    /// An operation in progress, with a newly minted identifier, started now.
    pub fn new(operation_type: OperationType) -> (op: Self)
        ensures
            op@ == AsyncOperationView::started(op.id, operation_type, op.started_at),
    {
        AsyncOperation::with_id(fresh_id(), operation_type, now())
    }

    /// Whether the operation is still running.
    pub fn is_in_progress(&self) -> (running: bool)
        ensures
            running == (self@.status is InProgress),
    {
        match self.status {
            AsyncStatus::InProgress => true,
            _ => false,
        }
    }

    /// Marks a running operation as done. An operation that already ended
    /// keeps its status.
    pub fn complete(&mut self)
        ensures
            final(self)@ == old(self)@.completed(),
    {
        if self.is_in_progress() {
            self.status = AsyncStatus::Completed;
        }
    }

    /// Marks a running operation as failed for the given reason. An operation
    /// that already ended keeps its status.
    pub fn fail(&mut self, error: String)
        ensures
            final(self)@ == old(self)@.failed(error@),
    {
        if self.is_in_progress() {
            self.status = AsyncStatus::Failed(error);
        }
    }

    /// Whether the operation ended well.
    pub fn is_completed(&self) -> (done: bool)
        ensures
            done == (self@.status is Completed),
    {
        match self.status {
            AsyncStatus::Completed => true,
            _ => false,
        }
    }

    /// Whether the operation ended in failure.
    pub fn is_failed(&self) -> (failed: bool)
        ensures
            failed == (self@.status is Failed),
    {
        match self.status {
            AsyncStatus::Failed(_) => true,
            _ => false,
        }
    }
}

/// Resource usage of a site's container. The processor share is held as the
/// bit pattern of the 64-bit floating-point percentage that the node reports.
#[derive(Clone, Copy, Debug, PartialEq, Eq, Structural)]
pub struct ContainerMetrics {
    pub cpu_usage_percent_bits: u64,
    pub memory_usage_mb: u64,
    pub memory_limit_mb: u64,
    pub network_rx_bytes: u64,
    pub network_tx_bytes: u64,
}

/// What a background operation reports when it ends well.
#[derive(Debug, PartialEq, Eq)]
pub enum AsyncOperationResult {
    SiteDeployed(EntityId),
    SiteUpdated(EntityId),
    SiteDeleted(EntityId),
    DnsSynced(EntityId, Vec<DnsRecord>),
    NodeHealth(EntityId, NodeStatus, Option<DockerInfo>, Option<TraefikInfo>),
    NodeStats(EntityId, DockerInfo, TraefikInfo),
    Logs(EntityId, Vec<String>),
    Metrics(EntityId, ContainerMetrics),
}

/// The mathematical value of an `AsyncOperationResult`.
pub ghost enum AsyncOperationResultView {
    SiteDeployed(EntityId),
    SiteUpdated(EntityId),
    SiteDeleted(EntityId),
    DnsSynced(EntityId, Seq<DnsRecordView>),
    NodeHealth(EntityId, NodeStatus, Option<DockerInfoView>, Option<TraefikInfoView>),
    NodeStats(EntityId, DockerInfoView, TraefikInfoView),
    Logs(EntityId, Seq<Seq<char>>),
    Metrics(EntityId, ContainerMetrics),
}

impl View for AsyncOperationResult {
    type V = AsyncOperationResultView;

    open spec fn view(&self) -> AsyncOperationResultView {
        match self {
            AsyncOperationResult::SiteDeployed(id) => AsyncOperationResultView::SiteDeployed(*id),
            AsyncOperationResult::SiteUpdated(id) => AsyncOperationResultView::SiteUpdated(*id),
            AsyncOperationResult::SiteDeleted(id) => AsyncOperationResultView::SiteDeleted(*id),
            AsyncOperationResult::DnsSynced(id, records) => AsyncOperationResultView::DnsSynced(
                *id,
                records.deep_view(),
            ),
            AsyncOperationResult::NodeHealth(
                id,
                status,
                docker,
                traefik,
            ) => AsyncOperationResultView::NodeHealth(
                *id,
                *status,
                docker.deep_view(),
                traefik.deep_view(),
            ),
            AsyncOperationResult::NodeStats(id, docker, traefik) => AsyncOperationResultView::NodeStats(
                *id,
                docker@,
                traefik@,
            ),
            AsyncOperationResult::Logs(id, lines) => AsyncOperationResultView::Logs(
                *id,
                lines.deep_view(),
            ),
            AsyncOperationResult::Metrics(id, metrics) => AsyncOperationResultView::Metrics(
                *id,
                *metrics,
            ),
        }
    }
}

impl DeepView for AsyncOperationResult {
    type V = AsyncOperationResultView;

    open spec fn deep_view(&self) -> AsyncOperationResultView {
        self@
    }
}

impl Clone for AsyncOperationResult {
    fn clone(&self) -> (copy: Self)
        ensures
            copy@ == self@,
    {
        match self {
            AsyncOperationResult::SiteDeployed(id) => AsyncOperationResult::SiteDeployed(*id),
            AsyncOperationResult::SiteUpdated(id) => AsyncOperationResult::SiteUpdated(*id),
            AsyncOperationResult::SiteDeleted(id) => AsyncOperationResult::SiteDeleted(*id),
            AsyncOperationResult::DnsSynced(id, records) => AsyncOperationResult::DnsSynced(
                *id,
                copy_records(records),
            ),
            AsyncOperationResult::NodeHealth(id, status, docker, traefik) => {
                AsyncOperationResult::NodeHealth(
                    *id,
                    *status,
                    copy_docker_info(docker),
                    copy_traefik_info(traefik),
                )
            },
            AsyncOperationResult::NodeStats(id, docker, traefik) => AsyncOperationResult::NodeStats(
                *id,
                docker.clone(),
                traefik.clone(),
            ),
            AsyncOperationResult::Logs(id, lines) => AsyncOperationResult::Logs(
                *id,
                copy_texts(lines),
            ),
            AsyncOperationResult::Metrics(id, metrics) => AsyncOperationResult::Metrics(
                *id,
                *metrics,
            ),
        }
    }
}

} // verus!
