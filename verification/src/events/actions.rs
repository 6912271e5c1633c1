//! Every trigger of a change to the console's state.

use crate::ids::EntityId;
use crate::models::dns::{DnsRecord, DnsRecordView};
use crate::models::domain::{Domain, DomainView};
use crate::models::node::{Node, NodeView};
use crate::models::site::{Site, SiteView};
use crate::state::async_ops::{AsyncOperationResult, AsyncOperationResultView};
use crate::state::notifications::{Notification, NotificationView};
use crate::ui::router::Screen;
use vstd::prelude::*;

verus! {

/// An intent of the operator, the completion of a background operation, or
/// an intent of the system.
#[derive(Debug)]
pub enum Action {
    // Navigation
    NavigateTo(Screen),
    NavigateBack,
    // Sites
    CreateSite(Site),
    UpdateSite(EntityId, Site),
    DeleteSite(EntityId),
    DeploySite(EntityId),
    StopSite(EntityId),
    RestartSite(EntityId),
    // Domains
    CreateDomain(Domain),
    DeleteDomain(EntityId),
    AddDnsRecord(EntityId, DnsRecord),
    UpdateDnsRecord(EntityId, usize, DnsRecord),
    DeleteDnsRecord(EntityId, usize),
    SyncDnsRecords(EntityId),
    // Nodes
    AddNode(Node),
    UpdateNode(EntityId, Node),
    RemoveNode(EntityId),
    CheckNodeHealth(EntityId),
    FetchNodeStats(EntityId),
    // Monitoring
    FetchLogs(EntityId),
    FetchMetrics(EntityId),
    // Selection
    SelectNext,
    SelectPrevious,
    SelectItem(usize),
    NextFormField,
    PreviousFormField,
    /// A background operation ended, with what it found or why it failed.
    AsyncOperationCompleted(EntityId, Result<AsyncOperationResult, String>),
    // Notifications
    ShowNotification(Notification),
    DismissNotification,
    // System
    SaveConfig,
    LoadConfig,
    Quit,
    /// Nothing to do.
    Noop,
}

/// The mathematical value of an `Action`.
pub ghost enum ActionView {
    NavigateTo(Screen),
    NavigateBack,
    CreateSite(SiteView),
    UpdateSite(EntityId, SiteView),
    DeleteSite(EntityId),
    DeploySite(EntityId),
    StopSite(EntityId),
    RestartSite(EntityId),
    CreateDomain(DomainView),
    DeleteDomain(EntityId),
    AddDnsRecord(EntityId, DnsRecordView),
    UpdateDnsRecord(EntityId, usize, DnsRecordView),
    DeleteDnsRecord(EntityId, usize),
    SyncDnsRecords(EntityId),
    AddNode(NodeView),
    UpdateNode(EntityId, NodeView),
    RemoveNode(EntityId),
    CheckNodeHealth(EntityId),
    FetchNodeStats(EntityId),
    FetchLogs(EntityId),
    FetchMetrics(EntityId),
    SelectNext,
    SelectPrevious,
    SelectItem(usize),
    NextFormField,
    PreviousFormField,
    AsyncOperationCompleted(EntityId, Result<AsyncOperationResultView, Seq<char>>),
    ShowNotification(NotificationView),
    DismissNotification,
    SaveConfig,
    LoadConfig,
    Quit,
    Noop,
}

impl ActionView {
    /// Whether the intent creates, changes or deletes an entity of the
    /// inventory at once, without background work.
    pub open spec fn is_crud(self) -> bool {
        match self {
            ActionView::CreateSite(_)
            | ActionView::UpdateSite(_, _)
            | ActionView::CreateDomain(_)
            | ActionView::DeleteDomain(_)
            | ActionView::AddDnsRecord(_, _)
            | ActionView::UpdateDnsRecord(_, _, _)
            | ActionView::DeleteDnsRecord(_, _)
            | ActionView::AddNode(_)
            | ActionView::UpdateNode(_, _)
            | ActionView::RemoveNode(_) => true,
            _ => false,
        }
    }
}

impl View for Action {
    type V = ActionView;

    open spec fn view(&self) -> ActionView {
        match self {
            Action::NavigateTo(screen) => ActionView::NavigateTo(*screen),
            Action::NavigateBack => ActionView::NavigateBack,
            Action::CreateSite(site) => ActionView::CreateSite(site@),
            Action::UpdateSite(id, site) => ActionView::UpdateSite(*id, site@),
            Action::DeleteSite(id) => ActionView::DeleteSite(*id),
            Action::DeploySite(id) => ActionView::DeploySite(*id),
            Action::StopSite(id) => ActionView::StopSite(*id),
            Action::RestartSite(id) => ActionView::RestartSite(*id),
            Action::CreateDomain(domain) => ActionView::CreateDomain(domain@),
            Action::DeleteDomain(id) => ActionView::DeleteDomain(*id),
            Action::AddDnsRecord(id, record) => ActionView::AddDnsRecord(*id, record@),
            Action::UpdateDnsRecord(id, index, record) => ActionView::UpdateDnsRecord(
                *id,
                *index,
                record@,
            ),
            Action::DeleteDnsRecord(id, index) => ActionView::DeleteDnsRecord(*id, *index),
            Action::SyncDnsRecords(id) => ActionView::SyncDnsRecords(*id),
            Action::AddNode(node) => ActionView::AddNode(node@),
            Action::UpdateNode(id, node) => ActionView::UpdateNode(*id, node@),
            Action::RemoveNode(id) => ActionView::RemoveNode(*id),
            Action::CheckNodeHealth(id) => ActionView::CheckNodeHealth(*id),
            Action::FetchNodeStats(id) => ActionView::FetchNodeStats(*id),
            Action::FetchLogs(id) => ActionView::FetchLogs(*id),
            Action::FetchMetrics(id) => ActionView::FetchMetrics(*id),
            Action::SelectNext => ActionView::SelectNext,
            Action::SelectPrevious => ActionView::SelectPrevious,
            Action::SelectItem(index) => ActionView::SelectItem(*index),
            Action::NextFormField => ActionView::NextFormField,
            Action::PreviousFormField => ActionView::PreviousFormField,
            Action::AsyncOperationCompleted(id, result) => ActionView::AsyncOperationCompleted(
                *id,
                match result {
                    Ok(payload) => Ok(payload@),
                    Err(reason) => Err(reason@),
                },
            ),
            Action::ShowNotification(notification) => ActionView::ShowNotification(notification@),
            Action::DismissNotification => ActionView::DismissNotification,
            Action::SaveConfig => ActionView::SaveConfig,
            Action::LoadConfig => ActionView::LoadConfig,
            Action::Quit => ActionView::Quit,
            Action::Noop => ActionView::Noop,
        }
    }
}

impl Clone for Action {
    fn clone(&self) -> (copy: Self)
        ensures
            copy@ == self@,
    {
        match self {
            Action::NavigateTo(screen) => Action::NavigateTo(*screen),
            Action::NavigateBack => Action::NavigateBack,
            Action::CreateSite(site) => Action::CreateSite(site.clone()),
            Action::UpdateSite(id, site) => Action::UpdateSite(*id, site.clone()),
            Action::DeleteSite(id) => Action::DeleteSite(*id),
            Action::DeploySite(id) => Action::DeploySite(*id),
            Action::StopSite(id) => Action::StopSite(*id),
            Action::RestartSite(id) => Action::RestartSite(*id),
            Action::CreateDomain(domain) => Action::CreateDomain(domain.clone()),
            Action::DeleteDomain(id) => Action::DeleteDomain(*id),
            Action::AddDnsRecord(id, record) => Action::AddDnsRecord(*id, record.clone()),
            Action::UpdateDnsRecord(id, index, record) => Action::UpdateDnsRecord(
                *id,
                *index,
                record.clone(),
            ),
            Action::DeleteDnsRecord(id, index) => Action::DeleteDnsRecord(*id, *index),
            Action::SyncDnsRecords(id) => Action::SyncDnsRecords(*id),
            Action::AddNode(node) => Action::AddNode(node.clone()),
            Action::UpdateNode(id, node) => Action::UpdateNode(*id, node.clone()),
            Action::RemoveNode(id) => Action::RemoveNode(*id),
            Action::CheckNodeHealth(id) => Action::CheckNodeHealth(*id),
            Action::FetchNodeStats(id) => Action::FetchNodeStats(*id),
            Action::FetchLogs(id) => Action::FetchLogs(*id),
            Action::FetchMetrics(id) => Action::FetchMetrics(*id),
            Action::SelectNext => Action::SelectNext,
            Action::SelectPrevious => Action::SelectPrevious,
            Action::SelectItem(index) => Action::SelectItem(*index),
            Action::NextFormField => Action::NextFormField,
            Action::PreviousFormField => Action::PreviousFormField,
            Action::AsyncOperationCompleted(id, result) => Action::AsyncOperationCompleted(
                *id,
                match result {
                    Ok(payload) => Ok(payload.clone()),
                    Err(reason) => Err(reason.clone()),
                },
            ),
            Action::ShowNotification(notification) => Action::ShowNotification(
                notification.clone(),
            ),
            Action::DismissNotification => Action::DismissNotification,
            Action::SaveConfig => Action::SaveConfig,
            Action::LoadConfig => Action::LoadConfig,
            Action::Quit => Action::Quit,
            Action::Noop => Action::Noop,
        }
    }
}

} // verus!
