//! The owner of the console's state and its update function.

use crate::clock::{now, Timestamp};
use crate::config::schema::{ArchonConfig, ArchonConfigView, ConfigError, ConfigErrorView};
use crate::events::actions::Action;
use crate::ids::{fresh_id, EntityId};
use crate::models::site::{Site, SiteStatus};
use crate::state::app_state::AppState;
use crate::state::async_ops::{
    AsyncOperation, AsyncOperationResult, AsyncOperationResultView,
};
use crate::state::notifications::NotificationLevel;
use crate::tasks::{NodeAccess, NodeAccessView, Task, Work, LOG_LINES};
use crate::text::join2;
use crate::transition::{
    after_reload, after_save, changed, complete, deploy_work, delete_work, health_work,
    idle, logs_work, merge, metrics_work, refuse, restart_work, spawn, stats_work, step,
    stop_work, sync_work, Outcome, StorageRequest,
};
use vstd::prelude::*;
use vstd::string::*;

verus! {

/// The single owner of the console's state. Every change to the state passes
/// through `update`, one action at a time.
#[derive(Debug)]
pub struct App {
    pub state: AppState,
}

/// The error, if any, of a result that carries nothing else.
pub open spec fn error_of(r: Result<(), ConfigError>) -> Option<ConfigErrorView> {
    match r {
        Ok(_) => None,
        Err(error) => Some(error@),
    }
}

/// The mathematical value of the result of a write.
pub open spec fn write_result(result: Result<(), String>) -> Result<(), Seq<char>> {
    match result {
        Ok(_) => Ok(()),
        Err(reason) => Err(reason@),
    }
}

/// The mathematical value of the result of a read.
pub open spec fn read_result(result: Result<ArchonConfig, String>) -> Result<
    ArchonConfigView,
    Seq<char>,
> {
    match result {
        Ok(config) => Ok(config@),
        Err(reason) => Err(reason@),
    }
}

/// The mathematical value of the result of a background operation.
pub open spec fn operation_result(result: Result<AsyncOperationResult, String>) -> Result<
    AsyncOperationResultView,
    Seq<char>,
> {
    match result {
        Ok(payload) => Ok(payload@),
        Err(reason) => Err(reason@),
    }
}

/// Nothing for the caller to do.
fn nothing() -> (outcome: Outcome)
    ensures
        outcome@ == idle(),
{
    Outcome { task: None, storage: StorageRequest::Nothing, surfaced: None }
}

impl App {
    /// The owner of a state.
    pub fn new(state: AppState) -> (app: Self)
        ensures
            app.state == state,
    {
        App { state }
    }

    /// Applies one action with a newly minted identifier and the current
    /// time: the state changes, and the result says what is left for the
    /// caller to do, as the update function of `transition` lays down.
    pub fn update(&mut self, action: Action) -> (outcome: Outcome)
        requires
            old(self).state.wf(),
        ensures
            final(self).state.wf(),
            exists|fresh: EntityId, now: Timestamp|
                (final(self).state@, outcome@) == #[trigger] step(
                    old(self).state@,
                    action@,
                    fresh,
                    now,
                ),
    {
        let fresh = fresh_id();
        let at = now();
        let outcome = self.apply(action, fresh, at);
        assert((self.state@, outcome@) == step(old(self).state@, action@, fresh, at));
        outcome
    }

    /// Applies one action, given the identifier for the operation that it may
    /// launch and the instant of the update.
    pub fn apply(&mut self, action: Action, fresh: EntityId, now: Timestamp) -> (outcome: Outcome)
        requires
            old(self).state.wf(),
        ensures
            final(self).state.wf(),
            (final(self).state@, outcome@) == step(old(self).state@, action@, fresh, now),
    {
        match action {
            Action::NavigateTo(screen) => {
                self.state.navigate_to(screen);
                nothing()
            },
            Action::NavigateBack => {
                self.state.navigate_back();
                nothing()
            },
            Action::CreateSite(site) => self.create_site(site, fresh, now),
            Action::UpdateSite(id, site) => self.update_site(id, site, fresh, now),
            Action::DeleteSite(id) => self.spawn_delete_site(id, fresh, now),
            Action::DeploySite(id) => self.spawn_deploy_site(id, fresh, now),
            Action::StopSite(id) => self.spawn_stop_site(id, fresh, now),
            Action::RestartSite(id) => self.spawn_restart_site(id, fresh, now),
            Action::CreateDomain(domain) => {
                if self.state.add_domain(domain) {
                    self.accepted("Domain created successfully", now)
                } else {
                    self.refused("Domain already exists", now)
                }
            },
            Action::DeleteDomain(id) => {
                self.state.remove_domain(id);
                self.accepted("Domain deleted successfully", now)
            },
            Action::AddDnsRecord(id, record) => {
                if self.state.add_dns_record(id, record) {
                    self.accepted("DNS record added", now)
                } else {
                    self.refused("Domain not found", now)
                }
            },
            Action::UpdateDnsRecord(id, index, record) => {
                if self.state.update_dns_record(id, index, record) {
                    self.accepted("DNS record updated", now)
                } else if self.state.get_domain(id).is_some() {
                    self.refused("DNS record not found", now)
                } else {
                    self.refused("Domain not found", now)
                }
            },
            Action::DeleteDnsRecord(id, index) => {
                if self.state.delete_dns_record(id, index) {
                    self.accepted("DNS record deleted", now)
                } else if self.state.get_domain(id).is_some() {
                    self.refused("DNS record not found", now)
                } else {
                    self.refused("Domain not found", now)
                }
            },
            Action::SyncDnsRecords(id) => self.spawn_sync_dns(id, fresh, now),
            Action::AddNode(node) => {
                if self.state.add_node(node) {
                    self.accepted("Node added successfully", now)
                } else {
                    self.refused("Node already exists", now)
                }
            },
            Action::UpdateNode(id, node) => {
                if self.state.replace_node(id, node) {
                    self.accepted("Node updated successfully", now)
                } else {
                    self.refused("Node not found", now)
                }
            },
            Action::RemoveNode(id) => {
                self.state.remove_node(id);
                self.accepted("Node removed successfully", now)
            },
            Action::CheckNodeHealth(id) => self.spawn_node_health_check(id, fresh, now),
            Action::FetchNodeStats(id) => self.spawn_fetch_node_stats(id, fresh, now),
            Action::FetchLogs(id) => self.spawn_fetch_logs(id, fresh, now),
            Action::FetchMetrics(id) => self.spawn_fetch_metrics(id, fresh, now),
            Action::SelectNext => {
                self.state.select_next();
                nothing()
            },
            Action::SelectPrevious => {
                self.state.select_previous();
                nothing()
            },
            Action::SelectItem(_) => nothing(),
            Action::NextFormField => nothing(),
            Action::PreviousFormField => nothing(),
            Action::AsyncOperationCompleted(id, result) => self.complete(id, result, now),
            Action::ShowNotification(notification) => {
                self.state.show_notification(notification);
                nothing()
            },
            Action::DismissNotification => {
                self.state.dismiss_notification();
                nothing()
            },
            Action::SaveConfig => Outcome {
                task: None,
                storage: StorageRequest::ManualSave,
                surfaced: None,
            },
            Action::LoadConfig => Outcome {
                task: None,
                storage: StorageRequest::Reload,
                surfaced: None,
            },
            Action::Quit => {
                if self.state.auto_save() {
                    Outcome { task: None, storage: StorageRequest::SaveThenQuit, surfaced: None }
                } else {
                    self.state.quit();
                    nothing()
                }
            },
            Action::Noop => nothing(),
        }
    }

    /// Tells the operator of a refusal.
    fn refused(&mut self, message: &str, now: Timestamp) -> (outcome: Outcome)
        requires
            old(self).state.wf(),
        ensures
            final(self).state.wf(),
            (final(self).state@, outcome@) == refuse(old(self).state@, message@, now),
    {
        self.state.add_notification_at(String::from_str(message), NotificationLevel::Error, now);
        nothing()
    }

    /// Tells the operator of a change that was made, and asks for the
    /// inventory to be written if auto-save is on.
    fn accepted(&mut self, message: &str, now: Timestamp) -> (outcome: Outcome)
        requires
            old(self).state.wf(),
        ensures
            final(self).state.wf(),
            final(self).state@ == old(self).state@.notify(
                message@,
                NotificationLevel::Success,
                now,
            ),
            outcome@ == changed(old(self).state@),
    {
        self.state.add_notification_at(
            String::from_str(message),
            NotificationLevel::Success,
            now,
        );
        Outcome {
            task: None,
            storage: if self.state.auto_save() {
                StorageRequest::AutoSave
            } else {
                StorageRequest::Nothing
            },
            surfaced: None,
        }
    }

    /// Creates a site and launches its deployment.
    fn create_site(&mut self, site: Site, fresh: EntityId, now: Timestamp) -> (outcome:
        Outcome)
        requires
            old(self).state.wf(),
        ensures
            final(self).state.wf(),
            (final(self).state@, outcome@) == crate::transition::create_site(
                old(self).state@,
                site@,
                fresh,
                now,
            ),
    {
        let id = site.id;
        if self.state.get_site(id).is_some() {
            self.refused("Site already exists", now)
        } else if self.state.get_domain(site.domain_id).is_none() {
            self.refused("Domain not found", now)
        } else if self.state.get_node(site.node_id).is_none() {
            self.refused("Node not found", now)
        } else {
            let storage = if self.state.auto_save() {
                StorageRequest::AutoSave
            } else {
                StorageRequest::Nothing
            };
            self.state.add_site(site);
            self.state.add_notification_at(
                String::from_str("Site created successfully"),
                NotificationLevel::Success,
                now,
            );
            let launched = self.spawn_deploy_site(id, fresh, now);
            Outcome { task: launched.task, storage, surfaced: launched.surfaced }
        }
    }

    /// Replaces a site and launches its deployment.
    fn update_site(
        &mut self,
        id: EntityId,
        site: Site,
        fresh: EntityId,
        now: Timestamp,
    ) -> (outcome: Outcome)
        requires
            old(self).state.wf(),
        ensures
            final(self).state.wf(),
            (final(self).state@, outcome@) == crate::transition::update_site(
                old(self).state@,
                id,
                site@,
                fresh,
                now,
            ),
    {
        if self.state.replace_site(id, site) {
            let storage = if self.state.auto_save() {
                StorageRequest::AutoSave
            } else {
                StorageRequest::Nothing
            };
            self.state.add_notification_at(
                String::from_str("Site updated successfully"),
                NotificationLevel::Success,
                now,
            );
            let launched = self.spawn_deploy_site(id, fresh, now);
            Outcome { task: launched.task, storage, surfaced: launched.surfaced }
        } else {
            self.refused("Site not found", now)
        }
    }

    /// Handles the completion of a background operation.
    fn complete(
        &mut self,
        id: EntityId,
        result: Result<AsyncOperationResult, String>,
        now: Timestamp,
    ) -> (outcome: Outcome)
        requires
            old(self).state.wf(),
        ensures
            final(self).state.wf(),
            (final(self).state@, outcome@) == complete(
                old(self).state@,
                id,
                operation_result(result),
                now,
            ),
    {
        if !self.state.is_in_progress(id) {
            return nothing();
        }
        match result {
            Ok(payload) => {
                self.state.complete_operation(id);
                let surfaced = self.handle_async_result(payload, now);
                Outcome { task: None, storage: StorageRequest::Nothing, surfaced }
            },
            Err(reason) => {
                let message = join2("Operation failed: ", reason.as_str());
                self.state.fail_operation(id, reason);
                self.state.add_notification_at(message, NotificationLevel::Error, now);
                nothing()
            },
        }
    }

    /// Merges what a completed operation found into the state. Logs and
    /// metrics are handed back for display.
    pub fn handle_async_result(&mut self, result: AsyncOperationResult, now: Timestamp) -> (surfaced:
        Option<AsyncOperationResult>)
        requires
            old(self).state.wf(),
        ensures
            final(self).state.wf(),
            (final(self).state@, surfaced.deep_view()) == merge(old(self).state@, result@, now),
    {
        match result {
            AsyncOperationResult::SiteDeployed(id) => {
                self.state.set_site_status(id, SiteStatus::Running);
                self.state.add_notification_at(
                    String::from_str("Site deployed successfully"),
                    NotificationLevel::Success,
                    now,
                );
                None
            },
            AsyncOperationResult::SiteUpdated(id) => {
                self.state.set_site_status(id, SiteStatus::Running);
                self.state.add_notification_at(
                    String::from_str("Site updated successfully"),
                    NotificationLevel::Success,
                    now,
                );
                None
            },
            AsyncOperationResult::SiteDeleted(id) => {
                self.state.remove_site(id);
                self.state.add_notification_at(
                    String::from_str("Site deleted successfully"),
                    NotificationLevel::Success,
                    now,
                );
                None
            },
            AsyncOperationResult::DnsSynced(id, records) => {
                self.state.set_dns_records(id, records);
                self.state.add_notification_at(
                    String::from_str("DNS records synced successfully"),
                    NotificationLevel::Success,
                    now,
                );
                None
            },
            AsyncOperationResult::NodeHealth(id, status, docker, traefik) => {
                self.state.set_node_health(id, status, docker, traefik, now);
                None
            },
            AsyncOperationResult::NodeStats(id, docker, traefik) => {
                self.state.set_node_stats(id, docker, traefik);
                None
            },
            AsyncOperationResult::Logs(id, lines) => Some(AsyncOperationResult::Logs(id, lines)),
            AsyncOperationResult::Metrics(id, metrics) => Some(
                AsyncOperationResult::Metrics(id, metrics),
            ),
        }
    }

    /// Registers background work as in progress and hands it to the caller.
    fn spawn(&mut self, work: Option<Work>, fresh: EntityId, now: Timestamp) -> (outcome: Outcome)
        requires
            old(self).state.wf(),
        ensures
            final(self).state.wf(),
            (final(self).state@, outcome@) == spawn(old(self).state@, work.deep_view(), fresh, now),
    {
        match work {
            Some(work) => {
                self.state.register_operation(
                    AsyncOperation::with_id(fresh, work.operation_type(), now),
                );
                Outcome {
                    task: Some(Task { operation_id: fresh, work }),
                    storage: StorageRequest::Nothing,
                    surfaced: None,
                }
            },
            None => nothing(),
        }
    }

    /// Access to the node that hosts a site.
    fn access_for_site(&self, site_id: EntityId) -> (access: Option<NodeAccess>)
        ensures
            access.deep_view() == match self.state@.node_for_site(site_id) {
                Some(node) => Some(NodeAccessView::of(node)),
                None => None,
            },
    {
        match self.state.get_node_for_site(site_id) {
            Some(node) => Some(NodeAccess::of(node)),
            None => None,
        }
    }

    /// Access to a node.
    fn access_for_node(&self, node_id: EntityId) -> (access: Option<NodeAccess>)
        ensures
            access.deep_view() == match self.state@.node(node_id) {
                Some(node) => Some(NodeAccessView::of(node)),
                None => None,
            },
    {
        match self.state.get_node(node_id) {
            Some(node) => Some(NodeAccess::of(node)),
            None => None,
        }
    }

    /// Launches the deployment of a site, if the site, its domain and its
    /// node exist.
    pub fn spawn_deploy_site(&mut self, site_id: EntityId, fresh: EntityId, now: Timestamp) -> (outcome:
        Outcome)
        requires
            old(self).state.wf(),
        ensures
            final(self).state.wf(),
            (final(self).state@, outcome@) == spawn(
                old(self).state@,
                deploy_work(old(self).state@, site_id),
                fresh,
                now,
            ),
    {
        let site = match self.state.get_site(site_id) {
            Some(site) => site.clone(),
            None => { return nothing(); },
        };
        let domain_name = match self.state.get_domain_for_site(site_id) {
            Some(domain) => domain.name.clone(),
            None => { return nothing(); },
        };
        let access = match self.access_for_site(site_id) {
            Some(access) => access,
            None => { return nothing(); },
        };
        self.spawn(Some(Work::DeploySite { site, domain_name, access }), fresh, now)
    }

    /// Launches the deletion of a site from its node, if both exist. The site
    /// stays in the inventory until the deletion is confirmed.
    pub fn spawn_delete_site(&mut self, site_id: EntityId, fresh: EntityId, now: Timestamp) -> (outcome:
        Outcome)
        requires
            old(self).state.wf(),
        ensures
            final(self).state.wf(),
            (final(self).state@, outcome@) == spawn(
                old(self).state@,
                delete_work(old(self).state@, site_id),
                fresh,
                now,
            ),
    {
        match self.access_for_site(site_id) {
            Some(access) => self.spawn(Some(Work::DeleteSite { site_id, access }), fresh, now),
            None => nothing(),
        }
    }

    /// Launches the stop of a site, if the site and its node exist.
    pub fn spawn_stop_site(&mut self, site_id: EntityId, fresh: EntityId, now: Timestamp) -> (outcome:
        Outcome)
        requires
            old(self).state.wf(),
        ensures
            final(self).state.wf(),
            (final(self).state@, outcome@) == spawn(
                old(self).state@,
                stop_work(old(self).state@, site_id),
                fresh,
                now,
            ),
    {
        match self.access_for_site(site_id) {
            Some(access) => self.spawn(Some(Work::StopSite { site_id, access }), fresh, now),
            None => nothing(),
        }
    }

    /// Launches the restart of a site, if the site and its node exist.
    pub fn spawn_restart_site(&mut self, site_id: EntityId, fresh: EntityId, now: Timestamp) -> (outcome:
        Outcome)
        requires
            old(self).state.wf(),
        ensures
            final(self).state.wf(),
            (final(self).state@, outcome@) == spawn(
                old(self).state@,
                restart_work(old(self).state@, site_id),
                fresh,
                now,
            ),
    {
        match self.access_for_site(site_id) {
            Some(access) => self.spawn(Some(Work::RestartSite { site_id, access }), fresh, now),
            None => nothing(),
        }
    }

    /// Launches the synchronisation of a domain's records, if the domain
    /// exists and its DNS is not managed by hand.
    pub fn spawn_sync_dns(&mut self, domain_id: EntityId, fresh: EntityId, now: Timestamp) -> (outcome:
        Outcome)
        requires
            old(self).state.wf(),
        ensures
            final(self).state.wf(),
            (final(self).state@, outcome@) == spawn(
                old(self).state@,
                sync_work(old(self).state@, domain_id),
                fresh,
                now,
            ),
    {
        let work = match self.state.get_domain(domain_id) {
            Some(domain) => {
                if domain.is_manual_dns() {
                    return nothing();
                }
                Work::SyncDns {
                    domain_id,
                    domain_name: domain.name.clone(),
                    provider: domain.dns_provider.clone(),
                }
            },
            None => { return nothing(); },
        };
        self.spawn(Some(work), fresh, now)
    }

    /// Launches a health check of a node, if the node exists.
    pub fn spawn_node_health_check(&mut self, node_id: EntityId, fresh: EntityId, now: Timestamp) -> (outcome:
        Outcome)
        requires
            old(self).state.wf(),
        ensures
            final(self).state.wf(),
            (final(self).state@, outcome@) == spawn(
                old(self).state@,
                health_work(old(self).state@, node_id),
                fresh,
                now,
            ),
    {
        match self.access_for_node(node_id) {
            Some(access) => self.spawn(Some(Work::NodeHealthCheck { node_id, access }), fresh, now),
            None => nothing(),
        }
    }

    /// Launches a fetch of a node's statistics, if the node exists.
    pub fn spawn_fetch_node_stats(&mut self, node_id: EntityId, fresh: EntityId, now: Timestamp) -> (outcome:
        Outcome)
        requires
            old(self).state.wf(),
        ensures
            final(self).state.wf(),
            (final(self).state@, outcome@) == spawn(
                old(self).state@,
                stats_work(old(self).state@, node_id),
                fresh,
                now,
            ),
    {
        match self.access_for_node(node_id) {
            Some(access) => self.spawn(Some(Work::FetchNodeStats { node_id, access }), fresh, now),
            None => nothing(),
        }
    }

    /// Launches a fetch of a site's logs, if the site and its node exist.
    pub fn spawn_fetch_logs(&mut self, site_id: EntityId, fresh: EntityId, now: Timestamp) -> (outcome:
        Outcome)
        requires
            old(self).state.wf(),
        ensures
            final(self).state.wf(),
            (final(self).state@, outcome@) == spawn(
                old(self).state@,
                logs_work(old(self).state@, site_id),
                fresh,
                now,
            ),
    {
        match self.access_for_site(site_id) {
            Some(access) => self.spawn(
                Some(Work::FetchLogs { site_id, access, lines: LOG_LINES }),
                fresh,
                now,
            ),
            None => nothing(),
        }
    }

    /// Launches a fetch of a site's metrics, if the site and its node exist.
    pub fn spawn_fetch_metrics(&mut self, site_id: EntityId, fresh: EntityId, now: Timestamp) -> (outcome:
        Outcome)
        requires
            old(self).state.wf(),
        ensures
            final(self).state.wf(),
            (final(self).state@, outcome@) == spawn(
                old(self).state@,
                metrics_work(old(self).state@, site_id),
                fresh,
                now,
            ),
    {
        match self.access_for_site(site_id) {
            Some(access) => self.spawn(Some(Work::FetchMetrics { site_id, access }), fresh, now),
            None => nothing(),
        }
    }

    /// Takes the result of a write of the inventory that an update asked
    /// for, at a given instant.
    pub fn storage_finished_at(
        &mut self,
        request: StorageRequest,
        result: Result<(), String>,
        now: Timestamp,
    ) -> (r: Result<(), ConfigError>)
        requires
            old(self).state.wf(),
        ensures
            final(self).state.wf(),
            (final(self).state@, error_of(r)) == after_save(
                old(self).state@,
                request,
                write_result(result),
                now,
            ),
    {
        match request {
            StorageRequest::ManualSave => match result {
                Ok(_) => {
                    self.state.add_notification_at(
                        String::from_str("Configuration saved"),
                        NotificationLevel::Success,
                        now,
                    );
                    Ok(())
                },
                Err(reason) => {
                    self.state.add_notification_at(
                        join2("Failed to save configuration: ", reason.as_str()),
                        NotificationLevel::Error,
                        now,
                    );
                    Ok(())
                },
            },
            StorageRequest::SaveThenQuit => match result {
                Ok(_) => {
                    self.state.quit();
                    Ok(())
                },
                Err(reason) => Err(ConfigError::Storage(reason)),
            },
            StorageRequest::AutoSave => match result {
                Ok(_) => Ok(()),
                Err(reason) => Err(ConfigError::Storage(reason)),
            },
            _ => Ok(()),
        }
    }

    /// Takes the result of a write of the inventory that an update asked
    /// for, now.
    pub fn storage_finished(&mut self, request: StorageRequest, result: Result<(), String>) -> (r:
        Result<(), ConfigError>)
        requires
            old(self).state.wf(),
        ensures
            final(self).state.wf(),
            exists|now: Timestamp|
                (final(self).state@, error_of(r)) == #[trigger] after_save(
                    old(self).state@,
                    request,
                    write_result(result),
                    now,
                ),
    {
        let at = now();
        let r = self.storage_finished_at(request, result, at);
        assert((self.state@, error_of(r)) == after_save(
            old(self).state@,
            request,
            write_result(result),
            at,
        ));
        r
    }

    /// Takes the result of a read of the inventory that an update asked for,
    /// at a given instant.
    pub fn reload_at(&mut self, result: Result<ArchonConfig, String>, now: Timestamp) -> (r: Result<
        (),
        ConfigError,
    >)
        requires
            old(self).state.wf(),
        ensures
            final(self).state.wf(),
            (final(self).state@, error_of(r)) == after_reload(
                old(self).state@,
                read_result(result),
                now,
            ),
    {
        match result {
            Ok(config) => {
                let path = self.state.config_path().clone();
                match AppState::new(path, config) {
                    Ok(state) => {
                        self.state = state;
                        self.state.add_notification_at(
                            String::from_str("Configuration reloaded"),
                            NotificationLevel::Info,
                            now,
                        );
                        Ok(())
                    },
                    Err(error) => Err(error),
                }
            },
            Err(reason) => Err(ConfigError::Storage(reason)),
        }
    }

    /// Takes the result of a read of the inventory that an update asked for,
    /// now.
    pub fn reload(&mut self, result: Result<ArchonConfig, String>) -> (r: Result<(), ConfigError>)
        requires
            old(self).state.wf(),
        ensures
            final(self).state.wf(),
            exists|now: Timestamp|
                (final(self).state@, error_of(r)) == #[trigger] after_reload(
                    old(self).state@,
                    read_result(result),
                    now,
                ),
    {
        let at = now();
        let r = self.reload_at(result, at);
        assert((self.state@, error_of(r)) == after_reload(
            old(self).state@,
            read_result(result),
            at,
        ));
        r
    }
}

} // verus!
