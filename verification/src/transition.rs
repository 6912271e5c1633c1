//! The update function as mathematics: from a state and an action to the
//! next state and what the caller is to do. The executable update function
//! is proved to compute exactly this.

use crate::clock::Timestamp;
use crate::config::schema::{ArchonConfigView, ConfigErrorView};
use crate::events::actions::ActionView;
use crate::ids::EntityId;
use crate::models::dns::DnsRecordView;
use crate::models::domain::DomainView;
use crate::models::node::NodeView;
use crate::models::site::{SiteStatus, SiteView};
use crate::state::async_ops::{
    AsyncOperationResult, AsyncOperationResultView, AsyncOperationView,
};
use crate::state::model::AppStateView;
use crate::state::notifications::NotificationLevel;
use crate::tasks::{NodeAccessView, Task, TaskView, WorkView, LOG_LINES};
use vstd::prelude::*;

verus! {

/// What the caller is to do with durable storage after an update.
#[derive(Clone, Copy, Debug, PartialEq, Eq, Structural)]
pub enum StorageRequest {
    /// Nothing.
    Nothing,
    /// Write the inventory, because it changed and auto-save is on. A failure
    /// ends the run.
    AutoSave,
    /// Write the inventory, because the operator asked for it, and report the
    /// result.
    ManualSave,
    /// Write the inventory, because auto-save is on and the operator quits,
    /// and report the result; the quit flag is set once the write succeeded.
    SaveThenQuit,
    /// Read the inventory again and report what was read.
    Reload,
}

/// What an update leaves for the caller to do.
#[derive(Debug)]
pub struct Outcome {
    /// A unit of background work to launch. Its operation is registered as
    /// in progress in the state that the update left.
    pub task: Option<Task>,
    pub storage: StorageRequest,
    /// Logs or metrics that a completed operation brought, for display; they
    /// are not kept in the state.
    pub surfaced: Option<AsyncOperationResult>,
}

/// The mathematical value of an `Outcome`.
pub ghost struct OutcomeView {
    pub task: Option<TaskView>,
    pub storage: StorageRequest,
    pub surfaced: Option<AsyncOperationResultView>,
}

impl View for Outcome {
    type V = OutcomeView;

    open spec fn view(&self) -> OutcomeView {
        OutcomeView {
            task: self.task.deep_view(),
            storage: self.storage,
            surfaced: self.surfaced.deep_view(),
        }
    }
}

/// Nothing for the caller to do.
pub open spec fn idle() -> OutcomeView {
    OutcomeView { task: None, storage: StorageRequest::Nothing, surfaced: None }
}

/// The inventory changed: it is to be written if auto-save is on.
pub open spec fn changed(s: AppStateView) -> OutcomeView {
    OutcomeView {
        storage: if s.auto_save {
            StorageRequest::AutoSave
        } else {
            StorageRequest::Nothing
        },
        ..idle()
    }
}

/// What is needed to deploy a site: the site, the name of its domain and
/// access to its node. None if any of the three is missing.
pub open spec fn deploy_work(s: AppStateView, site_id: EntityId) -> Option<WorkView> {
    match (s.site(site_id), s.domain_for_site(site_id), s.node_for_site(site_id)) {
        (Some(site), Some(domain), Some(node)) => Some(
            WorkView::DeploySite {
                site,
                domain_name: domain.name,
                access: NodeAccessView::of(node),
            },
        ),
        _ => None,
    }
}

/// What is needed to delete a site from its node. None if the site or its
/// node is missing.
pub open spec fn delete_work(s: AppStateView, site_id: EntityId) -> Option<WorkView> {
    match s.node_for_site(site_id) {
        Some(node) => Some(WorkView::DeleteSite { site_id, access: NodeAccessView::of(node) }),
        None => None,
    }
}

/// What is needed to stop a site. None if the site or its node is missing.
pub open spec fn stop_work(s: AppStateView, site_id: EntityId) -> Option<WorkView> {
    match s.node_for_site(site_id) {
        Some(node) => Some(WorkView::StopSite { site_id, access: NodeAccessView::of(node) }),
        None => None,
    }
}

/// What is needed to restart a site. None if the site or its node is missing.
pub open spec fn restart_work(s: AppStateView, site_id: EntityId) -> Option<WorkView> {
    match s.node_for_site(site_id) {
        Some(node) => Some(WorkView::RestartSite { site_id, access: NodeAccessView::of(node) }),
        None => None,
    }
}

/// What is needed to fetch a site's logs. None if the site or its node is
/// missing.
pub open spec fn logs_work(s: AppStateView, site_id: EntityId) -> Option<WorkView> {
    match s.node_for_site(site_id) {
        Some(node) => Some(
            WorkView::FetchLogs { site_id, access: NodeAccessView::of(node), lines: LOG_LINES },
        ),
        None => None,
    }
}

/// What is needed to fetch a site's metrics. None if the site or its node is
/// missing.
pub open spec fn metrics_work(s: AppStateView, site_id: EntityId) -> Option<WorkView> {
    match s.node_for_site(site_id) {
        Some(node) => Some(WorkView::FetchMetrics { site_id, access: NodeAccessView::of(node) }),
        None => None,
    }
}

/// What is needed to synchronise a domain's records with its provider. None
/// if the domain is missing, and none if its DNS is managed by hand: such a
/// domain is never synchronised.
pub open spec fn sync_work(s: AppStateView, domain_id: EntityId) -> Option<WorkView> {
    match s.domain(domain_id) {
        Some(domain) => if domain.dns_provider is Manual {
            None
        } else {
            Some(
                WorkView::SyncDns {
                    domain_id,
                    domain_name: domain.name,
                    provider: domain.dns_provider,
                },
            )
        },
        None => None,
    }
}

/// What is needed to check a node's health. None if the node is missing.
pub open spec fn health_work(s: AppStateView, node_id: EntityId) -> Option<WorkView> {
    match s.node(node_id) {
        Some(node) => Some(WorkView::NodeHealthCheck { node_id, access: NodeAccessView::of(node) }),
        None => None,
    }
}

/// What is needed to fetch a node's statistics. None if the node is missing.
pub open spec fn stats_work(s: AppStateView, node_id: EntityId) -> Option<WorkView> {
    match s.node(node_id) {
        Some(node) => Some(WorkView::FetchNodeStats { node_id, access: NodeAccessView::of(node) }),
        None => None,
    }
}

/// Launching background work: the operation is entered into the registry as
/// in progress, under the fresh identifier, and the task is handed to the
/// caller. Where there is no work, nothing changes.
pub open spec fn spawn(
    s: AppStateView,
    work: Option<WorkView>,
    fresh: EntityId,
    now: Timestamp,
) -> (AppStateView, OutcomeView) {
    match work {
        Some(work) => (
            s.register(AsyncOperationView::started(fresh, work.operation_type(), now)),
            OutcomeView { task: Some(TaskView { operation_id: fresh, work }), ..idle() },
        ),
        None => (s, idle()),
    }
}

/// A refusal: nothing changes but for one notification of the error.
pub open spec fn refuse(s: AppStateView, message: Seq<char>, now: Timestamp) -> (
    AppStateView,
    OutcomeView,
) {
    (s.notify(message, NotificationLevel::Error, now), idle())
}

/// Creating a site. It is refused if its identifier is taken or if its
/// domain or node does not exist. Otherwise it is added, its deployment is
/// launched, and the inventory is to be written if auto-save is on.
pub open spec fn create_site(s: AppStateView, site: SiteView, fresh: EntityId, now: Timestamp) -> (
    AppStateView,
    OutcomeView,
) {
    if s.has_site(site.id) {
        refuse(s, "Site already exists"@, now)
    } else if !s.has_domain(site.domain_id) {
        refuse(s, "Domain not found"@, now)
    } else if !s.has_node(site.node_id) {
        refuse(s, "Node not found"@, now)
    } else {
        let added = s.add_site(site).notify(
            "Site created successfully"@,
            NotificationLevel::Success,
            now,
        );
        let (next, outcome) = spawn(added, deploy_work(added, site.id), fresh, now);
        (next, OutcomeView { storage: changed(s).storage, ..outcome })
    }
}

/// Updating a site. It is refused if there is no site with the identifier.
/// Otherwise the site takes the new value and keeps its identifier, its
/// deployment is launched if its domain and node exist, and the inventory is
/// to be written if auto-save is on.
pub open spec fn update_site(
    s: AppStateView,
    id: EntityId,
    site: SiteView,
    fresh: EntityId,
    now: Timestamp,
) -> (AppStateView, OutcomeView) {
    if !s.has_site(id) {
        refuse(s, "Site not found"@, now)
    } else {
        let updated = s.replace_site(id, site).notify(
            "Site updated successfully"@,
            NotificationLevel::Success,
            now,
        );
        let (next, outcome) = spawn(updated, deploy_work(updated, id), fresh, now);
        (next, OutcomeView { storage: changed(s).storage, ..outcome })
    }
}

/// A change to the inventory that succeeded: one notification of success,
/// and the inventory is to be written if auto-save is on.
pub open spec fn accept(s: AppStateView, next: AppStateView, message: Seq<char>, now: Timestamp) -> (
    AppStateView,
    OutcomeView,
) {
    (next.notify(message, NotificationLevel::Success, now), changed(s))
}

/// Creating a domain; refused if its identifier is taken.
pub open spec fn create_domain(s: AppStateView, domain: DomainView, now: Timestamp) -> (
    AppStateView,
    OutcomeView,
) {
    if s.has_domain(domain.id) {
        refuse(s, "Domain already exists"@, now)
    } else {
        accept(s, s.add_domain(domain), "Domain created successfully"@, now)
    }
}

/// Adding a record to a domain; refused if there is no such domain.
pub open spec fn add_dns_record(
    s: AppStateView,
    id: EntityId,
    record: DnsRecordView,
    now: Timestamp,
) -> (AppStateView, OutcomeView) {
    if s.has_domain(id) {
        accept(s, s.add_dns_record(id, record), "DNS record added"@, now)
    } else {
        refuse(s, "Domain not found"@, now)
    }
}

/// Replacing a record of a domain; refused if there is no such domain or no
/// record at the position.
pub open spec fn update_dns_record(
    s: AppStateView,
    id: EntityId,
    index: usize,
    record: DnsRecordView,
    now: Timestamp,
) -> (AppStateView, OutcomeView) {
    if s.has_dns_record(id, index as int) {
        accept(s, s.update_dns_record(id, index as int, record), "DNS record updated"@, now)
    } else if s.has_domain(id) {
        refuse(s, "DNS record not found"@, now)
    } else {
        refuse(s, "Domain not found"@, now)
    }
}

/// Removing a record of a domain; refused if there is no such domain or no
/// record at the position.
pub open spec fn delete_dns_record(s: AppStateView, id: EntityId, index: usize, now: Timestamp) -> (
    AppStateView,
    OutcomeView,
) {
    if s.has_dns_record(id, index as int) {
        accept(s, s.delete_dns_record(id, index as int), "DNS record deleted"@, now)
    } else if s.has_domain(id) {
        refuse(s, "DNS record not found"@, now)
    } else {
        refuse(s, "Domain not found"@, now)
    }
}

/// Adding a node; refused if its identifier is taken.
pub open spec fn add_node(s: AppStateView, node: NodeView, now: Timestamp) -> (
    AppStateView,
    OutcomeView,
) {
    if s.has_node(node.id) {
        refuse(s, "Node already exists"@, now)
    } else {
        accept(s, s.add_node(node), "Node added successfully"@, now)
    }
}

/// Updating a node, which keeps its identifier; refused if there is no node
/// with the identifier.
pub open spec fn update_node(s: AppStateView, id: EntityId, node: NodeView, now: Timestamp) -> (
    AppStateView,
    OutcomeView,
) {
    if s.has_node(id) {
        accept(s, s.replace_node(id, node), "Node updated successfully"@, now)
    } else {
        refuse(s, "Node not found"@, now)
    }
}

/// Merging what a completed operation found into the state, one rule for
/// each kind of result. Logs and metrics change nothing and are handed on
/// for display.
pub open spec fn merge(s: AppStateView, payload: AsyncOperationResultView, now: Timestamp) -> (
    AppStateView,
    Option<AsyncOperationResultView>,
) {
    match payload {
        AsyncOperationResultView::SiteDeployed(id) => (
            s.set_site_status(id, SiteStatus::Running).notify(
                "Site deployed successfully"@,
                NotificationLevel::Success,
                now,
            ),
            None,
        ),
        AsyncOperationResultView::SiteUpdated(id) => (
            s.set_site_status(id, SiteStatus::Running).notify(
                "Site updated successfully"@,
                NotificationLevel::Success,
                now,
            ),
            None,
        ),
        AsyncOperationResultView::SiteDeleted(id) => (
            s.remove_site(id).notify(
                "Site deleted successfully"@,
                NotificationLevel::Success,
                now,
            ),
            None,
        ),
        AsyncOperationResultView::DnsSynced(id, records) => (
            s.set_dns_records(id, records).notify(
                "DNS records synced successfully"@,
                NotificationLevel::Success,
                now,
            ),
            None,
        ),
        AsyncOperationResultView::NodeHealth(id, status, docker, traefik) => (
            s.set_node_health(id, status, docker, traefik, now),
            None,
        ),
        AsyncOperationResultView::NodeStats(id, docker, traefik) => (
            s.set_node_stats(id, docker, traefik),
            None,
        ),
        AsyncOperationResultView::Logs(_, _) => (s, Some(payload)),
        AsyncOperationResultView::Metrics(_, _) => (s, Some(payload)),
    }
}

/// The message that tells the operator of a failed operation.
pub open spec fn failure_message(reason: Seq<char>) -> Seq<char> {
    "Operation failed: "@ + reason
}

/// The completion of a background operation. It counts only if the operation
/// is registered and in progress: then the registry entry becomes final, and
/// either the result is merged or the failure is told to the operator. A
/// completion for an operation that is unknown or has already ended changes
/// nothing.
pub open spec fn complete(
    s: AppStateView,
    id: EntityId,
    result: Result<AsyncOperationResultView, Seq<char>>,
    now: Timestamp,
) -> (AppStateView, OutcomeView) {
    if !s.is_in_progress(id) {
        (s, idle())
    } else {
        match result {
            Ok(payload) => {
                let (next, surfaced) = merge(s.complete_operation(id), payload, now);
                (next, OutcomeView { surfaced, ..idle() })
            },
            Err(reason) => (
                s.fail_operation(id, reason).notify(
                    failure_message(reason),
                    NotificationLevel::Error,
                    now,
                ),
                idle(),
            ),
        }
    }
}

/// The update function: the state after an action and what is left for the
/// caller to do. `fresh` is the identifier minted for the operation that the
/// action may launch, and `now` the instant of the update; beyond these two
/// the result depends on the state and the action alone.
pub open spec fn step(s: AppStateView, action: ActionView, fresh: EntityId, now: Timestamp) -> (
    AppStateView,
    OutcomeView,
) {
    match action {
        ActionView::NavigateTo(screen) => (s.navigate_to(screen), idle()),
        ActionView::NavigateBack => (s.navigate_back(), idle()),
        ActionView::CreateSite(site) => create_site(s, site, fresh, now),
        ActionView::UpdateSite(id, site) => update_site(s, id, site, fresh, now),
        ActionView::DeleteSite(id) => spawn(s, delete_work(s, id), fresh, now),
        ActionView::DeploySite(id) => spawn(s, deploy_work(s, id), fresh, now),
        ActionView::StopSite(id) => spawn(s, stop_work(s, id), fresh, now),
        ActionView::RestartSite(id) => spawn(s, restart_work(s, id), fresh, now),
        ActionView::CreateDomain(domain) => create_domain(s, domain, now),
        ActionView::DeleteDomain(id) => accept(
            s,
            s.remove_domain(id),
            "Domain deleted successfully"@,
            now,
        ),
        ActionView::AddDnsRecord(id, record) => add_dns_record(s, id, record, now),
        ActionView::UpdateDnsRecord(id, index, record) => update_dns_record(
            s,
            id,
            index,
            record,
            now,
        ),
        ActionView::DeleteDnsRecord(id, index) => delete_dns_record(s, id, index, now),
        ActionView::SyncDnsRecords(id) => spawn(s, sync_work(s, id), fresh, now),
        ActionView::AddNode(node) => add_node(s, node, now),
        ActionView::UpdateNode(id, node) => update_node(s, id, node, now),
        ActionView::RemoveNode(id) => accept(
            s,
            s.remove_node(id),
            "Node removed successfully"@,
            now,
        ),
        ActionView::CheckNodeHealth(id) => spawn(s, health_work(s, id), fresh, now),
        ActionView::FetchNodeStats(id) => spawn(s, stats_work(s, id), fresh, now),
        ActionView::FetchLogs(id) => spawn(s, logs_work(s, id), fresh, now),
        ActionView::FetchMetrics(id) => spawn(s, metrics_work(s, id), fresh, now),
        ActionView::SelectNext => (s.select_next(), idle()),
        ActionView::SelectPrevious => (s.select_previous(), idle()),
        ActionView::SelectItem(_) => (s, idle()),
        ActionView::NextFormField => (s, idle()),
        ActionView::PreviousFormField => (s, idle()),
        ActionView::AsyncOperationCompleted(id, result) => complete(s, id, result, now),
        ActionView::ShowNotification(notification) => (s.show(notification), idle()),
        ActionView::DismissNotification => (s.dismiss(), idle()),
        ActionView::SaveConfig => (s, OutcomeView { storage: StorageRequest::ManualSave, ..idle() }),
        ActionView::LoadConfig => (s, OutcomeView { storage: StorageRequest::Reload, ..idle() }),
        ActionView::Quit => if s.auto_save {
            (s, OutcomeView { storage: StorageRequest::SaveThenQuit, ..idle() })
        } else {
            (s.quit(), idle())
        },
        ActionView::Noop => (s, idle()),
    }
}

/// The message that tells the operator that a save failed.
pub open spec fn save_failure_message(reason: Seq<char>) -> Seq<char> {
    "Failed to save configuration: "@ + reason
}

/// What follows a write of the inventory that an update asked for. A manual
/// save is answered with a notification, of success or of the failure, and
/// the state in memory stays. A save on quit sets the quit flag if it
/// succeeded. A failed automatic save, on quit too, is an error for the
/// caller and changes nothing.
pub open spec fn after_save(
    s: AppStateView,
    request: StorageRequest,
    result: Result<(), Seq<char>>,
    now: Timestamp,
) -> (AppStateView, Option<ConfigErrorView>) {
    match request {
        StorageRequest::ManualSave => match result {
            Ok(_) => (s.notify("Configuration saved"@, NotificationLevel::Success, now), None),
            Err(reason) => (
                s.notify(save_failure_message(reason), NotificationLevel::Error, now),
                None,
            ),
        },
        StorageRequest::SaveThenQuit => match result {
            Ok(_) => (s.quit(), None),
            Err(reason) => (s, Some(ConfigErrorView::Storage(reason))),
        },
        StorageRequest::AutoSave => match result {
            Ok(_) => (s, None),
            Err(reason) => (s, Some(ConfigErrorView::Storage(reason))),
        },
        _ => (s, None),
    }
}

/// What follows a read of the inventory that an update asked for: the state
/// starts over on what was read, with one notification, and keeps its path.
/// A failed read, or an inventory with repeated identifiers, is an error for
/// the caller and changes nothing.
pub open spec fn after_reload(
    s: AppStateView,
    result: Result<ArchonConfigView, Seq<char>>,
    now: Timestamp,
) -> (AppStateView, Option<ConfigErrorView>) {
    match result {
        Ok(config) => match AppStateView::validate(config) {
            None => (
                AppStateView::load(s.config_path, config).notify(
                    "Configuration reloaded"@,
                    NotificationLevel::Info,
                    now,
                ),
                None,
            ),
            Some(error) => (s, Some(error)),
        },
        Err(reason) => (s, Some(ConfigErrorView::Storage(reason))),
    }
}

} // verus!
