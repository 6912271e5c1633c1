//! What holds of the update function on every state and every action.

use crate::clock::Timestamp;
use crate::events::actions::ActionView;
use crate::ids::{lemma_first_repeat, lemma_position, lemma_scan_back, unique, EntityId};
use crate::models::site::{SiteStatus, SiteView};
use crate::state::async_ops::{AsyncOperationResultView, AsyncOperationView};
use crate::state::model::AppStateView;
use crate::state::notifications::{
    keep_last, lemma_push_all, push_all, push_capped, NotificationLevel,
    NotificationView, MAX_NOTIFICATIONS,
};
use crate::state::preservation::{
    lemma_inv_bookkeeping, lemma_inv_domains, lemma_inv_nodes, lemma_inv_selection,
    lemma_inv_sites,
};
use crate::tasks::WorkView;
use crate::state::selection::{cursor_after, lemma_cursor_after, lemma_cursor_after_empty};
use crate::transition::{
    delete_work, deploy_work, failure_message, health_work, idle, logs_work, merge, metrics_work,
    restart_work, spawn, stats_work, step, stop_work, sync_work,
};
use crate::ui::router::Screen;
use vstd::prelude::*;

verus! {

/// The state after a run of actions, applied one by one in order. The
/// identifier and the instant of the update at each position are given.
pub open spec fn run(
    s: AppStateView,
    actions: Seq<ActionView>,
    fresh: Seq<EntityId>,
    nows: Seq<Timestamp>,
) -> AppStateView
    decreases actions.len(),
{
    if actions.len() == 0 {
        s
    } else {
        step(
            run(s, actions.drop_last(), fresh, nows),
            actions.last(),
            fresh[actions.len() - 1],
            nows[actions.len() - 1],
        ).0
    }
}

/// Launching work keeps the invariant.
proof fn lemma_spawn_inv(
    s: AppStateView,
    work: Option<WorkView>,
    fresh: EntityId,
    now: Timestamp,
)
    requires
        s.inv(),
    ensures
        spawn(s, work, fresh, now).0.inv(),
{
    if let Some(w) = work {
        lemma_inv_bookkeeping(
            s,
            arbitrary(),
            arbitrary(),
            AsyncOperationView::started(fresh, w.operation_type(), now),
            arbitrary(),
            arbitrary(),
        );
    }
}

/// Raising a notification keeps the invariant.
proof fn lemma_notify_inv(
    s: AppStateView,
    message: Seq<char>,
    level: NotificationLevel,
    now: Timestamp,
)
    requires
        s.inv(),
    ensures
        s.notify(message, level, now).inv(),
{
    lemma_inv_bookkeeping(
        s,
        arbitrary(),
        NotificationView { message, level, timestamp: now },
        arbitrary(),
        arbitrary(),
        arbitrary(),
    );
}

/// Merging a result keeps the invariant.
proof fn lemma_merge_inv(s: AppStateView, payload: AsyncOperationResultView, now: Timestamp)
    requires
        s.inv(),
    ensures
        merge(s, payload, now).0.inv(),
{
    match payload {
        AsyncOperationResultView::SiteDeployed(id) => {
            lemma_inv_sites(s, id, arbitrary(), SiteStatus::Running);
            lemma_notify_inv(
                s.set_site_status(id, SiteStatus::Running),
                "Site deployed successfully"@,
                NotificationLevel::Success,
                now,
            );
        },
        AsyncOperationResultView::SiteUpdated(id) => {
            lemma_inv_sites(s, id, arbitrary(), SiteStatus::Running);
            lemma_notify_inv(
                s.set_site_status(id, SiteStatus::Running),
                "Site updated successfully"@,
                NotificationLevel::Success,
                now,
            );
        },
        AsyncOperationResultView::SiteDeleted(id) => {
            lemma_inv_sites(s, id, arbitrary(), arbitrary());
            lemma_notify_inv(
                s.remove_site(id),
                "Site deleted successfully"@,
                NotificationLevel::Success,
                now,
            );
        },
        AsyncOperationResultView::DnsSynced(id, records) => {
            lemma_inv_domains(s, id, arbitrary(), records, arbitrary(), arbitrary());
            lemma_notify_inv(
                s.set_dns_records(id, records),
                "DNS records synced successfully"@,
                NotificationLevel::Success,
                now,
            );
        },
        AsyncOperationResultView::NodeHealth(id, status, docker, traefik) => {
            lemma_inv_nodes(
                s,
                id,
                arbitrary(),
                status,
                docker,
                traefik,
                now,
                arbitrary(),
                arbitrary(),
            );
        },
        AsyncOperationResultView::NodeStats(id, docker, traefik) => {
            lemma_inv_nodes(
                s,
                id,
                arbitrary(),
                arbitrary(),
                arbitrary(),
                arbitrary(),
                arbitrary(),
                docker,
                traefik,
            );
        },
        AsyncOperationResultView::Logs(_, _) => {},
        AsyncOperationResultView::Metrics(_, _) => {},
    }
}

/// Every update keeps the invariant of the console's state: whatever the
/// action, no collection comes to hold two entities with one identifier, the
/// notification queue stays within its bound, and the cursors stay in their
/// lists.
pub proof fn lemma_step_keeps_invariant(
    s: AppStateView,
    action: ActionView,
    fresh: EntityId,
    now: Timestamp,
)
    requires
        s.inv(),
    ensures
        step(s, action, fresh, now).0.inv(),
{
    let next = step(s, action, fresh, now).0;
    match action {
        ActionView::NavigateTo(screen) => {
            lemma_inv_bookkeeping(
                s,
                screen,
                arbitrary(),
                arbitrary(),
                arbitrary(),
                arbitrary(),
            );
        },
        ActionView::NavigateBack => {
            lemma_inv_bookkeeping(
                s,
                arbitrary(),
                arbitrary(),
                arbitrary(),
                arbitrary(),
                arbitrary(),
            );
        },
        ActionView::CreateSite(site) => {
            lemma_notify_inv(s, "Site already exists"@, NotificationLevel::Error, now);
            lemma_notify_inv(s, "Domain not found"@, NotificationLevel::Error, now);
            lemma_notify_inv(s, "Node not found"@, NotificationLevel::Error, now);
            lemma_inv_sites(s, arbitrary(), site, arbitrary());
            lemma_notify_inv(
                s.add_site(site),
                "Site created successfully"@,
                NotificationLevel::Success,
                now,
            );
            let added = s.add_site(site).notify(
                "Site created successfully"@,
                NotificationLevel::Success,
                now,
            );
            lemma_spawn_inv(added, deploy_work(added, site.id), fresh, now);
        },
        ActionView::UpdateSite(id, site) => {
            lemma_notify_inv(s, "Site not found"@, NotificationLevel::Error, now);
            lemma_inv_sites(s, id, site, arbitrary());
            lemma_notify_inv(
                s.replace_site(id, site),
                "Site updated successfully"@,
                NotificationLevel::Success,
                now,
            );
            let updated = s.replace_site(id, site).notify(
                "Site updated successfully"@,
                NotificationLevel::Success,
                now,
            );
            lemma_spawn_inv(updated, deploy_work(updated, id), fresh, now);
        },
        ActionView::DeleteSite(id) => {
            lemma_spawn_inv(s, delete_work(s, id), fresh, now);
        },
        ActionView::DeploySite(id) => {
            lemma_spawn_inv(s, deploy_work(s, id), fresh, now);
        },
        ActionView::StopSite(id) => {
            lemma_spawn_inv(s, stop_work(s, id), fresh, now);
        },
        ActionView::RestartSite(id) => {
            lemma_spawn_inv(s, restart_work(s, id), fresh, now);
        },
        ActionView::CreateDomain(domain) => {
            lemma_notify_inv(s, "Domain already exists"@, NotificationLevel::Error, now);
            lemma_inv_domains(s, arbitrary(), domain, arbitrary(), arbitrary(), arbitrary());
            lemma_notify_inv(
                s.add_domain(domain),
                "Domain created successfully"@,
                NotificationLevel::Success,
                now,
            );
        },
        ActionView::DeleteDomain(id) => {
            lemma_inv_domains(s, id, arbitrary(), arbitrary(), arbitrary(), arbitrary());
            lemma_notify_inv(
                s.remove_domain(id),
                "Domain deleted successfully"@,
                NotificationLevel::Success,
                now,
            );
        },
        ActionView::AddDnsRecord(id, record) => {
            lemma_notify_inv(s, "Domain not found"@, NotificationLevel::Error, now);
            lemma_inv_domains(s, id, arbitrary(), arbitrary(), arbitrary(), record);
            lemma_notify_inv(
                s.add_dns_record(id, record),
                "DNS record added"@,
                NotificationLevel::Success,
                now,
            );
        },
        ActionView::UpdateDnsRecord(id, index, record) => {
            lemma_notify_inv(s, "Domain not found"@, NotificationLevel::Error, now);
            lemma_notify_inv(s, "DNS record not found"@, NotificationLevel::Error, now);
            lemma_inv_domains(s, id, arbitrary(), arbitrary(), index as int, record);
            lemma_notify_inv(
                s.update_dns_record(id, index as int, record),
                "DNS record updated"@,
                NotificationLevel::Success,
                now,
            );
        },
        ActionView::DeleteDnsRecord(id, index) => {
            lemma_notify_inv(s, "Domain not found"@, NotificationLevel::Error, now);
            lemma_notify_inv(s, "DNS record not found"@, NotificationLevel::Error, now);
            lemma_inv_domains(s, id, arbitrary(), arbitrary(), index as int, arbitrary());
            lemma_notify_inv(
                s.delete_dns_record(id, index as int),
                "DNS record deleted"@,
                NotificationLevel::Success,
                now,
            );
        },
        ActionView::SyncDnsRecords(id) => {
            lemma_spawn_inv(s, sync_work(s, id), fresh, now);
        },
        ActionView::AddNode(node) => {
            lemma_notify_inv(s, "Node already exists"@, NotificationLevel::Error, now);
            lemma_inv_nodes(
                s,
                arbitrary(),
                node,
                arbitrary(),
                arbitrary(),
                arbitrary(),
                arbitrary(),
                arbitrary(),
                arbitrary(),
            );
            lemma_notify_inv(
                s.add_node(node),
                "Node added successfully"@,
                NotificationLevel::Success,
                now,
            );
        },
        ActionView::UpdateNode(id, node) => {
            lemma_notify_inv(s, "Node not found"@, NotificationLevel::Error, now);
            lemma_inv_nodes(
                s,
                id,
                node,
                arbitrary(),
                arbitrary(),
                arbitrary(),
                arbitrary(),
                arbitrary(),
                arbitrary(),
            );
            lemma_notify_inv(
                s.replace_node(id, node),
                "Node updated successfully"@,
                NotificationLevel::Success,
                now,
            );
        },
        ActionView::RemoveNode(id) => {
            lemma_inv_nodes(
                s,
                id,
                arbitrary(),
                arbitrary(),
                arbitrary(),
                arbitrary(),
                arbitrary(),
                arbitrary(),
                arbitrary(),
            );
            lemma_notify_inv(
                s.remove_node(id),
                "Node removed successfully"@,
                NotificationLevel::Success,
                now,
            );
        },
        ActionView::CheckNodeHealth(id) => {
            lemma_spawn_inv(s, health_work(s, id), fresh, now);
        },
        ActionView::FetchNodeStats(id) => {
            lemma_spawn_inv(s, stats_work(s, id), fresh, now);
        },
        ActionView::FetchLogs(id) => {
            lemma_spawn_inv(s, logs_work(s, id), fresh, now);
        },
        ActionView::FetchMetrics(id) => {
            lemma_spawn_inv(s, metrics_work(s, id), fresh, now);
        },
        ActionView::SelectNext => {
            lemma_inv_selection(s);
        },
        ActionView::SelectPrevious => {
            lemma_inv_selection(s);
        },
        ActionView::SelectItem(_) => {},
        ActionView::NextFormField => {},
        ActionView::PreviousFormField => {},
        ActionView::AsyncOperationCompleted(id, result) => {
            if s.is_in_progress(id) {
                match result {
                    Ok(payload) => {
                        lemma_inv_bookkeeping(
                            s,
                            arbitrary(),
                            arbitrary(),
                            arbitrary(),
                            id,
                            arbitrary(),
                        );
                        lemma_merge_inv(s.complete_operation(id), payload, now);
                    },
                    Err(reason) => {
                        lemma_inv_bookkeeping(
                            s,
                            arbitrary(),
                            arbitrary(),
                            arbitrary(),
                            id,
                            reason,
                        );
                        lemma_notify_inv(
                            s.fail_operation(id, reason),
                            failure_message(reason),
                            NotificationLevel::Error,
                            now,
                        );
                    },
                }
            }
        },
        ActionView::ShowNotification(notification) => {
            lemma_inv_bookkeeping(
                s,
                arbitrary(),
                notification,
                arbitrary(),
                arbitrary(),
                arbitrary(),
            );
        },
        ActionView::DismissNotification => {
            lemma_inv_bookkeeping(
                s,
                arbitrary(),
                arbitrary(),
                arbitrary(),
                arbitrary(),
                arbitrary(),
            );
        },
        ActionView::SaveConfig => {},
        ActionView::LoadConfig => {},
        ActionView::Quit => {
            lemma_inv_bookkeeping(
                s,
                arbitrary(),
                arbitrary(),
                arbitrary(),
                arbitrary(),
                arbitrary(),
            );
        },
        ActionView::Noop => {},
    }
}

/// After any run of actions from a valid state, no collection holds two
/// entities with one identifier.
pub proof fn lemma_ids_stay_unique(
    s: AppStateView,
    actions: Seq<ActionView>,
    fresh: Seq<EntityId>,
    nows: Seq<Timestamp>,
)
    requires
        s.inv(),
    ensures
        run(s, actions, fresh, nows).inv(),
        unique(run(s, actions, fresh, nows).site_ids()),
        unique(run(s, actions, fresh, nows).domain_ids()),
        unique(run(s, actions, fresh, nows).node_ids()),
    decreases actions.len(),
{
    if actions.len() > 0 {
        lemma_ids_stay_unique(s, actions.drop_last(), fresh, nows);
        lemma_step_keeps_invariant(
            run(s, actions.drop_last(), fresh, nows),
            actions.last(),
            fresh[actions.len() - 1],
            nows[actions.len() - 1],
        );
    }
}

/// The state after the cursor of the list on screen was moved forward a
/// number of times.
pub open spec fn select_next_times(s: AppStateView, times: nat) -> AppStateView
    decreases times,
{
    if times == 0 {
        s
    } else {
        step(
            select_next_times(s, (times - 1) as nat),
            ActionView::SelectNext,
            arbitrary(),
            arbitrary(),
        ).0
    }
}

/// Moving the cursor forward a number of times changes nothing but the
/// cursor of the list on screen, which moves by that number of steps.
proof fn lemma_select_next_times(s: AppStateView, times: nat)
    requires
        s.fits_machine(),
    ensures
        select_next_times(s, times) == (AppStateView {
            selection_state: select_next_times(s, times).selection_state,
            ..s
        }),
        s.current_screen == Screen::SitesList ==> select_next_times(
            s,
            times,
        ).selection_state.sites_list_index as int == cursor_after(
            s.selection_state.sites_list_index as int,
            s.sites.len() as int,
            times,
        ),
        s.current_screen == Screen::DomainsList ==> select_next_times(
            s,
            times,
        ).selection_state.domains_list_index as int == cursor_after(
            s.selection_state.domains_list_index as int,
            s.domains.len() as int,
            times,
        ),
        s.current_screen == Screen::NodesList ==> select_next_times(
            s,
            times,
        ).selection_state.nodes_list_index as int == cursor_after(
            s.selection_state.nodes_list_index as int,
            s.nodes.len() as int,
            times,
        ),
        s.current_screen != Screen::SitesList && s.current_screen != Screen::DomainsList
            && s.current_screen != Screen::NodesList ==> select_next_times(s, times) == s,
    decreases times,
{
    if times > 0 {
        let before = (times - 1) as nat;
        lemma_select_next_times(s, before);
        lemma_cursor_after_bounds(
            s.selection_state.sites_list_index as int,
            s.sites.len() as int,
            times,
        );
        lemma_cursor_after_bounds(
            s.selection_state.domains_list_index as int,
            s.domains.len() as int,
            times,
        );
        lemma_cursor_after_bounds(
            s.selection_state.nodes_list_index as int,
            s.nodes.len() as int,
            times,
        );
    }
}

/// Steps forward keep a cursor that fits the machine within the machine's
/// range: on a list that is not empty it stays below the length after the
/// first step, and on an empty list it does not move.
proof fn lemma_cursor_after_bounds(index: int, len: int, times: nat)
    requires
        0 <= index <= usize::MAX,
        0 <= len <= usize::MAX,
    ensures
        0 <= cursor_after(index, len, times) <= usize::MAX,
    decreases times,
{
    if times > 0 {
        lemma_cursor_after_bounds(index, len, (times - 1) as nat);
        let before = cursor_after(index, len, (times - 1) as nat);
        if len > 0 {
            assert(0 <= (before + 1) % len < len) by (nonlinear_arith)
                requires
                    len > 0,
            ;
        }
    }
}

/// After a number of steps forward on a list of positive length, the cursor
/// of the list on screen stands at the sum of its old position and the number
/// of steps, modulo the length: from the first position, at the number of
/// steps modulo the length. On an empty list, and on a screen without a list,
/// the steps change nothing at all.
pub proof fn lemma_select_next_wraps(s: AppStateView, times: nat)
    requires
        s.inv(),
        s.fits_machine(),
    ensures
        s.current_screen == Screen::SitesList && s.sites.len() > 0 ==> select_next_times(
            s,
            times,
        ).selection_state.sites_list_index as int == (s.selection_state.sites_list_index + times)
            % (s.sites.len() as int),
        s.current_screen == Screen::DomainsList && s.domains.len() > 0 ==> select_next_times(
            s,
            times,
        ).selection_state.domains_list_index as int == (s.selection_state.domains_list_index
            + times) % (s.domains.len() as int),
        s.current_screen == Screen::NodesList && s.nodes.len() > 0 ==> select_next_times(
            s,
            times,
        ).selection_state.nodes_list_index as int == (s.selection_state.nodes_list_index + times)
            % (s.nodes.len() as int),
        s.current_screen == Screen::SitesList && s.sites.len() == 0 ==> select_next_times(s, times)
            == s,
        s.current_screen == Screen::DomainsList && s.domains.len() == 0 ==> select_next_times(
            s,
            times,
        ) == s,
        s.current_screen == Screen::NodesList && s.nodes.len() == 0 ==> select_next_times(s, times)
            == s,
        s.current_screen != Screen::SitesList && s.current_screen != Screen::DomainsList
            && s.current_screen != Screen::NodesList ==> select_next_times(s, times) == s,
        select_next_times(s, times) == (AppStateView {
            selection_state: select_next_times(s, times).selection_state,
            ..s
        }),
{
    lemma_select_next_times(s, times);
    let sites = s.selection_state.sites_list_index as int;
    let domains = s.selection_state.domains_list_index as int;
    let nodes = s.selection_state.nodes_list_index as int;
    lemma_cursor_after_bounds(sites, s.sites.len() as int, times);
    lemma_cursor_after_bounds(domains, s.domains.len() as int, times);
    lemma_cursor_after_bounds(nodes, s.nodes.len() as int, times);
    if s.sites.len() > 0 {
        lemma_cursor_after(sites, s.sites.len() as int, times);
    } else {
        lemma_cursor_after_empty(sites, times);
    }
    if s.domains.len() > 0 {
        lemma_cursor_after(domains, s.domains.len() as int, times);
    } else {
        lemma_cursor_after_empty(domains, times);
    }
    if s.nodes.len() > 0 {
        lemma_cursor_after(nodes, s.nodes.len() as int, times);
    } else {
        lemma_cursor_after_empty(nodes, times);
    }
    lemma_select_next_keeps_other_cursors(s, times);
}

/// Moving the cursor of the list on screen leaves the other cursors alone.
proof fn lemma_select_next_keeps_other_cursors(s: AppStateView, times: nat)
    ensures
        s.current_screen != Screen::SitesList ==> select_next_times(
            s,
            times,
        ).selection_state.sites_list_index == s.selection_state.sites_list_index,
        s.current_screen != Screen::DomainsList ==> select_next_times(
            s,
            times,
        ).selection_state.domains_list_index == s.selection_state.domains_list_index,
        s.current_screen != Screen::NodesList ==> select_next_times(
            s,
            times,
        ).selection_state.nodes_list_index == s.selection_state.nodes_list_index,
        select_next_times(s, times).selection_state.form_field_index
            == s.selection_state.form_field_index,
        select_next_times(s, times).selection_state.dns_records_index
            == s.selection_state.dns_records_index,
        select_next_times(s, times).current_screen == s.current_screen,
    decreases times,
{
    if times > 0 {
        lemma_select_next_keeps_other_cursors(s, (times - 1) as nat);
    }
}

/// The state after a run of notifications was shown, one by one.
pub open spec fn show_all(s: AppStateView, notifications: Seq<NotificationView>) -> AppStateView
    decreases notifications.len(),
{
    if notifications.len() == 0 {
        s
    } else {
        step(
            show_all(s, notifications.drop_last()),
            ActionView::ShowNotification(notifications.last()),
            arbitrary(),
            arbitrary(),
        ).0
    }
}

/// After a run of notifications the queue holds the most recent ones of all
/// that were ever queued, up to the bound, in the order in which they came,
/// and nothing else of the state has changed. In particular, one more than
/// the bound shown on an empty queue leaves all but the first.
pub proof fn lemma_queue_keeps_most_recent(s: AppStateView, notifications: Seq<NotificationView>)
    requires
        s.inv(),
    ensures
        show_all(s, notifications) == (AppStateView {
            notifications: keep_last(s.notifications + notifications, MAX_NOTIFICATIONS as int),
            ..s
        }),
        show_all(s, notifications).notifications.len() <= MAX_NOTIFICATIONS,
        s.notifications.len() == 0 && notifications.len() == MAX_NOTIFICATIONS + 1 ==> show_all(
            s,
            notifications,
        ).notifications == notifications.drop_first(),
    decreases notifications.len(),
{
    lemma_push_all(s.notifications, notifications);
    lemma_show_all(s, notifications);
    if s.notifications.len() == 0 && notifications.len() == MAX_NOTIFICATIONS + 1 {
        assert(s.notifications + notifications =~= notifications);
        assert(keep_last(notifications, MAX_NOTIFICATIONS as int) =~= notifications.drop_first());
    }
}

/// Showing notifications one by one pushes them onto the queue one by one.
proof fn lemma_show_all(s: AppStateView, notifications: Seq<NotificationView>)
    ensures
        show_all(s, notifications) == (AppStateView {
            notifications: push_all(s.notifications, notifications),
            ..s
        }),
    decreases notifications.len(),
{
    if notifications.len() > 0 {
        lemma_show_all(s, notifications.drop_last());
    }
}

/// The registry entries keep their identifiers, and every entry but the one
/// of the given operation keeps its status, when that operation is marked as
/// done or failed.
proof fn lemma_registry_after_end(s: AppStateView, id: EntityId, reason: Seq<char>)
    requires
        s.is_in_progress(id),
    ensures
        s.complete_operation(id).operation_ids() == s.operation_ids(),
        s.fail_operation(id, reason).operation_ids() == s.operation_ids(),
        s.complete_operation(id).operation_status(id) is Some,
        s.complete_operation(id).operation_status(id)->0.is_terminal(),
        s.fail_operation(id, reason).operation_status(id) is Some,
        s.fail_operation(id, reason).operation_status(id)->0.is_terminal(),
{
    lemma_scan_back(s.operation_ids(), id, s.operation_ids().len() as int);
    assert(s.complete_operation(id).operation_ids() =~= s.operation_ids());
    assert(s.fail_operation(id, reason).operation_ids() =~= s.operation_ids());
}

/// Merging a result and raising a notification leave the registry alone.
proof fn lemma_merge_keeps_registry(s: AppStateView, payload: AsyncOperationResultView, now: Timestamp)
    ensures
        merge(s, payload, now).0.pending_operations == s.pending_operations,
{
}

/// An update that hands out a task has registered its operation: in the
/// state that the update leaves, the registry holds the task's identifier,
/// which is the fresh one, as in progress. So no completion can be processed
/// before its operation is registered.
pub proof fn lemma_launched_is_registered(
    s: AppStateView,
    action: ActionView,
    fresh: EntityId,
    now: Timestamp,
)
    ensures
        step(s, action, fresh, now).1.task is Some ==> {
            &&& step(s, action, fresh, now).1.task->0.operation_id == fresh
            &&& step(s, action, fresh, now).0.is_in_progress(fresh)
            &&& step(s, action, fresh, now).0.pending_operations.last()
                == AsyncOperationView::started(
                fresh,
                step(s, action, fresh, now).1.task->0.work.operation_type(),
                now,
            )
        },
{
    let (next, outcome) = step(s, action, fresh, now);
    if outcome.task is Some {
        assert(next.pending_operations.len() > 0 && next.pending_operations.last().id == fresh
            && next.pending_operations.last().status
            is InProgress) by {
            lemma_step_task_registers(s, action, fresh, now);
        }
        let ids = next.operation_ids();
        assert(ids[ids.len() - 1] == fresh);
    }
}

/// Where an update hands out a task, the last entry of the registry is the
/// task's operation, in progress.
proof fn lemma_step_task_registers(
    s: AppStateView,
    action: ActionView,
    fresh: EntityId,
    now: Timestamp,
)
    requires
        step(s, action, fresh, now).1.task is Some,
    ensures
        step(s, action, fresh, now).1.task->0.operation_id == fresh,
        step(s, action, fresh, now).0.pending_operations.len() > 0,
        step(s, action, fresh, now).0.pending_operations.last() == AsyncOperationView::started(
            fresh,
            step(s, action, fresh, now).1.task->0.work.operation_type(),
            now,
        ),
{
    match action {
        ActionView::AsyncOperationCompleted(id, result) => {
            if s.is_in_progress(id) {
                if let Ok(payload) = result {
                    lemma_merge_keeps_registry(s.complete_operation(id), payload, now);
                }
            }
        },
        _ => {},
    }
}

/// A completion for an operation that is not registered changes nothing.
pub proof fn lemma_unregistered_completion_is_ignored(
    s: AppStateView,
    id: EntityId,
    result: Result<AsyncOperationResultView, Seq<char>>,
    fresh: EntityId,
    now: Timestamp,
)
    requires
        s.operation_status(id) is None,
    ensures
        step(s, ActionView::AsyncOperationCompleted(id, result), fresh, now) == (s, idle()),
{
}

/// A completion for an operation that has already ended changes nothing:
/// neither the registry nor the inventory nor anything else.
pub proof fn lemma_late_completion_is_ignored(
    s: AppStateView,
    id: EntityId,
    result: Result<AsyncOperationResultView, Seq<char>>,
    fresh: EntityId,
    now: Timestamp,
)
    requires
        s.operation_status(id) is Some,
        s.operation_status(id)->0.is_terminal(),
    ensures
        step(s, ActionView::AsyncOperationCompleted(id, result), fresh, now) == (s, idle()),
{
}

/// The first completion of an operation in progress makes its registry entry
/// final.
pub proof fn lemma_completion_is_final(
    s: AppStateView,
    id: EntityId,
    result: Result<AsyncOperationResultView, Seq<char>>,
    fresh: EntityId,
    now: Timestamp,
)
    requires
        s.is_in_progress(id),
    ensures
        step(s, ActionView::AsyncOperationCompleted(id, result), fresh, now).0.operation_status(id)
            is Some,
        step(
            s,
            ActionView::AsyncOperationCompleted(id, result),
            fresh,
            now,
        ).0.operation_status(id)->0.is_terminal(),
        result is Ok ==> step(
            s,
            ActionView::AsyncOperationCompleted(id, result),
            fresh,
            now,
        ).0.operation_status(id)->0 is Completed,
        result is Err ==> step(
            s,
            ActionView::AsyncOperationCompleted(id, result),
            fresh,
            now,
        ).0.operation_status(id)->0 is Failed,
{
    lemma_scan_back(s.operation_ids(), id, s.operation_ids().len() as int);
    match result {
        Ok(payload) => {
            lemma_registry_after_end(s, id, arbitrary());
            lemma_merge_keeps_registry(s.complete_operation(id), payload, now);
            let next = step(s, ActionView::AsyncOperationCompleted(id, result), fresh, now).0;
            assert(next.operation_ids() =~= s.complete_operation(id).operation_ids());
        },
        Err(reason) => {
            lemma_registry_after_end(s, id, reason);
            let next = step(s, ActionView::AsyncOperationCompleted(id, result), fresh, now).0;
            assert(next.operation_ids() =~= s.fail_operation(id, reason).operation_ids());
        },
    }
}

/// Delivering the completion of an operation a second time changes nothing
/// beyond the first delivery, whatever the two deliveries carry.
pub proof fn lemma_duplicate_completion_is_ignored(
    s: AppStateView,
    id: EntityId,
    first: Result<AsyncOperationResultView, Seq<char>>,
    second: Result<AsyncOperationResultView, Seq<char>>,
    fresh: Seq<EntityId>,
    nows: Seq<Timestamp>,
)
    ensures
        step(
            step(s, ActionView::AsyncOperationCompleted(id, first), fresh[0], nows[0]).0,
            ActionView::AsyncOperationCompleted(id, second),
            fresh[1],
            nows[1],
        ) == (
            step(s, ActionView::AsyncOperationCompleted(id, first), fresh[0], nows[0]).0,
            idle(),
        ),
{
    if s.is_in_progress(id) {
        lemma_completion_is_final(s, id, first, fresh[0], nows[0]);
    }
}

/// The registry is append-only: an update leaves every entry where it is,
/// with its identifier, kind and start, and adds at most one entry at the
/// end. Only the completion of an operation changes the status of an entry,
/// and an entry whose status is final is never changed again.
pub proof fn lemma_registry_is_append_only(
    s: AppStateView,
    action: ActionView,
    fresh: EntityId,
    now: Timestamp,
)
    ensures
        ({
            let old_entries = s.pending_operations;
            let new_entries = step(s, action, fresh, now).0.pending_operations;
            &&& old_entries.len() <= new_entries.len() <= old_entries.len() + 1
            &&& forall|i: int|
                0 <= i < old_entries.len() ==> {
                    &&& (#[trigger] new_entries[i]).id == old_entries[i].id
                    &&& new_entries[i].operation_type == old_entries[i].operation_type
                    &&& new_entries[i].started_at == old_entries[i].started_at
                    &&& old_entries[i].status.is_terminal() ==> new_entries[i] == old_entries[i]
                    &&& !(action is AsyncOperationCompleted) ==> new_entries[i] == old_entries[i]
                }
        }),
{
    match action {
        ActionView::AsyncOperationCompleted(id, result) => {
            if s.is_in_progress(id) {
                lemma_scan_back(s.operation_ids(), id, s.operation_ids().len() as int);
                match result {
                    Ok(payload) => {
                        lemma_merge_keeps_registry(s.complete_operation(id), payload, now);
                    },
                    Err(_) => {},
                }
            }
        },
        _ => {},
    }
}

/// A failed operation changes the registry and the notification queue and
/// nothing else: the inventory, the cursors and the screens stay as they
/// were, and nothing is launched or written.
pub proof fn lemma_failure_leaves_inventory(
    s: AppStateView,
    id: EntityId,
    reason: Seq<char>,
    fresh: EntityId,
    now: Timestamp,
)
    ensures
        ({
            let (next, outcome) = step(
                s,
                ActionView::AsyncOperationCompleted(id, Err(reason)),
                fresh,
                now,
            );
            &&& outcome == idle()
            &&& next == (AppStateView {
                pending_operations: next.pending_operations,
                notifications: next.notifications,
                ..s
            })
            &&& s.is_in_progress(id) ==> next.notifications == push_capped(
                s.notifications,
                NotificationView {
                    message: failure_message(reason),
                    level: NotificationLevel::Error,
                    timestamp: now,
                },
            )
        }),
{
}

/// A state that was saved and loaded again holds the same sites, domains and
/// nodes, field for field and in the same order, and the same auto-save
/// setting; and a valid state is never rejected when it is loaded again.
pub proof fn lemma_save_then_load(s: AppStateView, config_path: Seq<char>)
    requires
        s.inv(),
    ensures
        AppStateView::validate(s.save()) is None,
        AppStateView::load(config_path, s.save()).sites == s.sites,
        AppStateView::load(config_path, s.save()).domains == s.domains,
        AppStateView::load(config_path, s.save()).nodes == s.nodes,
        AppStateView::load(config_path, s.save()).auto_save == s.auto_save,
        AppStateView::load(config_path, s.save()).inv(),
{
    lemma_first_repeat(s.site_ids());
    lemma_first_repeat(s.domain_ids());
    lemma_first_repeat(s.node_ids());
}

/// Deleting a site that does not exist launches nothing and changes nothing:
/// no task, no registry entry, no notification.
pub proof fn lemma_delete_unknown_site_is_ignored(
    s: AppStateView,
    id: EntityId,
    fresh: EntityId,
    now: Timestamp,
)
    requires
        !s.has_site(id),
    ensures
        step(s, ActionView::DeleteSite(id), fresh, now) == (s, idle()),
{
}

/// Synchronising a domain whose DNS is managed by hand launches nothing and
/// changes nothing: no task, no registry entry, no notification, no error.
pub proof fn lemma_manual_dns_is_never_synced(
    s: AppStateView,
    id: EntityId,
    fresh: EntityId,
    now: Timestamp,
)
    requires
        s.domain(id) is Some,
        s.domain(id)->0.dns_provider is Manual,
    ensures
        step(s, ActionView::SyncDnsRecords(id), fresh, now) == (s, idle()),
{
}

/// Every intent that creates, changes or deletes an entity at once puts
/// exactly one notification at the back of the queue.
pub proof fn lemma_crud_notifies_once(
    s: AppStateView,
    action: ActionView,
    fresh: EntityId,
    now: Timestamp,
)
    requires
        action.is_crud(),
    ensures
        exists|notification: NotificationView|
            step(s, action, fresh, now).0.notifications == #[trigger] push_capped(
                s.notifications,
                notification,
            ),
{
    lemma_crud_notifies(s, action, fresh, now);
    let next = step(s, action, fresh, now).0;
    let message = choose|message: Seq<char>|
        next.notifications == push_capped(
            s.notifications,
            NotificationView { message, level: NotificationLevel::Success, timestamp: now },
        ) || next.notifications == push_capped(
            s.notifications,
            NotificationView { message, level: NotificationLevel::Error, timestamp: now },
        );
    let succeeded = NotificationView {
        message,
        level: NotificationLevel::Success,
        timestamp: now,
    };
    let refused = NotificationView { message, level: NotificationLevel::Error, timestamp: now };
    if next.notifications == push_capped(s.notifications, succeeded) {
    } else {
        assert(next.notifications == push_capped(s.notifications, refused));
    }
}

/// The notification of such an intent is one of success or of an error,
/// raised at the instant of the update.
proof fn lemma_crud_notifies(s: AppStateView, action: ActionView, fresh: EntityId, now: Timestamp)
    requires
        action.is_crud(),
    ensures
        exists|message: Seq<char>|
            step(s, action, fresh, now).0.notifications == push_capped(
                s.notifications,
                NotificationView { message, level: NotificationLevel::Success, timestamp: now },
            ) || step(s, action, fresh, now).0.notifications == push_capped(
                s.notifications,
                NotificationView { message, level: NotificationLevel::Error, timestamp: now },
            ),
{
    let next = step(s, action, fresh, now).0;
    let success = |message: Seq<char>|
        NotificationView { message, level: NotificationLevel::Success, timestamp: now };
    let error = |message: Seq<char>|
        NotificationView { message, level: NotificationLevel::Error, timestamp: now };
    let witness: Seq<char> = match action {
        ActionView::CreateSite(site) => if s.has_site(site.id) {
            "Site already exists"@
        } else if !s.has_domain(site.domain_id) {
            "Domain not found"@
        } else if !s.has_node(site.node_id) {
            "Node not found"@
        } else {
            "Site created successfully"@
        },
        ActionView::UpdateSite(id, _) => if s.has_site(id) {
            "Site updated successfully"@
        } else {
            "Site not found"@
        },
        ActionView::CreateDomain(domain) => if s.has_domain(domain.id) {
            "Domain already exists"@
        } else {
            "Domain created successfully"@
        },
        ActionView::DeleteDomain(_) => "Domain deleted successfully"@,
        ActionView::AddDnsRecord(id, _) => if s.has_domain(id) {
            "DNS record added"@
        } else {
            "Domain not found"@
        },
        ActionView::UpdateDnsRecord(id, index, _) => if s.has_dns_record(id, index as int) {
            "DNS record updated"@
        } else if s.has_domain(id) {
            "DNS record not found"@
        } else {
            "Domain not found"@
        },
        ActionView::DeleteDnsRecord(id, index) => if s.has_dns_record(id, index as int) {
            "DNS record deleted"@
        } else if s.has_domain(id) {
            "DNS record not found"@
        } else {
            "Domain not found"@
        },
        ActionView::AddNode(node) => if s.has_node(node.id) {
            "Node already exists"@
        } else {
            "Node added successfully"@
        },
        ActionView::UpdateNode(id, _) => if s.has_node(id) {
            "Node updated successfully"@
        } else {
            "Node not found"@
        },
        _ => "Node removed successfully"@,
    };
    assert(next.notifications == push_capped(s.notifications, success(witness))
        || next.notifications == push_capped(s.notifications, error(witness)));
}

/// Creating a site whose domain and node exist adds it and launches its
/// deployment; when the deployment is then reported as done, the site is
/// running and exactly one notification, of success, has joined the queue.
pub proof fn lemma_create_then_deployed(
    s: AppStateView,
    site: SiteView,
    fresh: Seq<EntityId>,
    nows: Seq<Timestamp>,
)
    requires
        s.inv(),
        !s.has_site(site.id),
        s.has_domain(site.domain_id),
        s.has_node(site.node_id),
    ensures
        ({
            let created = step(s, ActionView::CreateSite(site), fresh[0], nows[0]);
            let deployed = step(
                created.0,
                ActionView::AsyncOperationCompleted(
                    fresh[0],
                    Ok(AsyncOperationResultView::SiteDeployed(site.id)),
                ),
                fresh[1],
                nows[1],
            );
            &&& created.1.task is Some
            &&& created.1.task->0.operation_id == fresh[0]
            &&& created.1.task->0.work is DeploySite
            &&& created.1.task->0.work->DeploySite_site == site
            &&& created.0.site(site.id) == Some(site)
            &&& created.0.is_in_progress(fresh[0])
            &&& deployed.0.site(site.id) == Some(SiteView { status: SiteStatus::Running, ..site })
            &&& deployed.0.operation_status(fresh[0]) is Some
            &&& deployed.0.operation_status(fresh[0])->0 is Completed
            &&& deployed.0.notifications == push_capped(
                created.0.notifications,
                NotificationView {
                    message: "Site deployed successfully"@,
                    level: NotificationLevel::Success,
                    timestamp: nows[1],
                },
            )
            &&& deployed.1 == idle()
        }),
{
    let created = step(s, ActionView::CreateSite(site), fresh[0], nows[0]);
    let added = s.add_site(site).notify(
        "Site created successfully"@,
        NotificationLevel::Success,
        nows[0],
    );
    lemma_position(s.site_ids(), site.id);
    let ids = added.site_ids();
    assert(ids =~= s.site_ids().push(site.id));
    lemma_position(ids, site.id);
    assert(ids[s.sites.len() as int] == site.id);
    assert(added.has_site(site.id));
    assert(added.site_index(site.id) == s.sites.len()) by {
        if added.site_index(site.id) < s.sites.len() {
            assert(s.site_ids()[added.site_index(site.id)] == site.id);
        }
    }
    assert(added.site(site.id) == Some(site));
    assert(added.domain_ids() =~= s.domain_ids());
    assert(added.node_ids() =~= s.node_ids());
    assert(deploy_work(added, site.id) is Some);
    lemma_launched_is_registered(s, ActionView::CreateSite(site), fresh[0], nows[0]);
    assert(created.0.site_ids() =~= ids);
    assert(created.0.sites == added.sites);
    let completion = ActionView::AsyncOperationCompleted(
        fresh[0],
        Ok(AsyncOperationResultView::SiteDeployed(site.id)),
    );
    lemma_completion_is_final(created.0, fresh[0], completion->AsyncOperationCompleted_1, fresh[1], nows[1]);
    let done = created.0.complete_operation(fresh[0]);
    assert(done.site_ids() =~= ids);
    assert(done.sites == added.sites);
    let running = done.set_site_status(site.id, SiteStatus::Running);
    assert(running.site_ids() =~= ids);
    let deployed = step(created.0, completion, fresh[1], nows[1]);
    assert(deployed.0.site_ids() =~= ids);
    assert(deployed.0.sites == running.sites);
}

} // verus!
