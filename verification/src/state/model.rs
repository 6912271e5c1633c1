//! The mathematical model of the console's state: its value, the invariant
//! that every reachable state satisfies, and the effect of each elementary
//! change.

use crate::clock::Timestamp;
use crate::config::schema::{
    package_version_text, ArchonConfigView, ConfigErrorView, SettingsView,
};
use crate::ids::{contains, first_repeat, last_position, position, unique, EntityId};
use crate::models::dns::DnsRecordView;
use crate::models::domain::{domain_ids, DomainView};
use crate::models::node::{node_ids, DockerInfoView, NodeStatus, NodeView, TraefikInfoView};
use crate::models::site::{site_ids, SiteStatus, SiteView};
use crate::state::async_ops::{AsyncOperationView, AsyncStatusView};
use crate::state::notifications::{
    push_capped, NotificationLevel, NotificationView, MAX_NOTIFICATIONS,
};
use crate::state::selection::{
    all_first, cursor_clamped, cursor_next, cursor_previous, cursor_valid, SelectionState,
};
use crate::ui::router::Screen;
use vstd::prelude::*;

verus! {

/// The mathematical value of the console's state.
pub ghost struct AppStateView {
    pub sites: Seq<SiteView>,
    pub domains: Seq<DomainView>,
    pub nodes: Seq<NodeView>,
    pub current_screen: Screen,
    /// The screens visited before the current one, oldest first.
    pub previous_screen: Seq<Screen>,
    pub selection_state: SelectionState,
    /// The registry of background operations, oldest first.
    pub pending_operations: Seq<AsyncOperationView>,
    /// The notification queue, oldest first.
    pub notifications: Seq<NotificationView>,
    pub config_path: Seq<char>,
    pub auto_save: bool,
    pub should_quit: bool,
}

impl AppStateView {
    /// The identifiers of the sites, in order.
    pub open spec fn site_ids(self) -> Seq<EntityId> {
        site_ids(self.sites)
    }

    /// The identifiers of the domains, in order.
    pub open spec fn domain_ids(self) -> Seq<EntityId> {
        domain_ids(self.domains)
    }

    /// The identifiers of the nodes, in order.
    pub open spec fn node_ids(self) -> Seq<EntityId> {
        node_ids(self.nodes)
    }

    /// The identifiers of the registered operations, in order.
    pub open spec fn operation_ids(self) -> Seq<EntityId> {
        Seq::new(self.pending_operations.len(), |i: int| self.pending_operations[i].id)
    }

    /// What holds of every state of the console: within each collection no
    /// two entities share an identifier, the notification queue is within its
    /// bound, and each list cursor points into its list or is zero where the
    /// list is empty.
    pub open spec fn inv(self) -> bool {
        &&& unique(self.site_ids())
        &&& unique(self.domain_ids())
        &&& unique(self.node_ids())
        &&& self.notifications.len() <= MAX_NOTIFICATIONS
        &&& cursor_valid(self.selection_state.sites_list_index as int, self.sites.len() as int)
        &&& cursor_valid(
            self.selection_state.domains_list_index as int,
            self.domains.len() as int,
        )
        &&& cursor_valid(self.selection_state.nodes_list_index as int, self.nodes.len() as int)
    }

    /// Whether the three collections are of a size that the machine can
    /// hold, as those of every state in memory are.
    pub open spec fn fits_machine(self) -> bool {
        &&& self.sites.len() <= usize::MAX
        &&& self.domains.len() <= usize::MAX
        &&& self.nodes.len() <= usize::MAX
    }

    /// Whether a site has this identifier.
    pub open spec fn has_site(self, id: EntityId) -> bool {
        contains(self.site_ids(), id)
    }

    /// The position of the site with this identifier.
    pub open spec fn site_index(self, id: EntityId) -> int {
        position(self.site_ids(), id)
    }

    /// The site with this identifier, if there is one.
    pub open spec fn site(self, id: EntityId) -> Option<SiteView> {
        if self.has_site(id) {
            Some(self.sites[self.site_index(id)])
        } else {
            None
        }
    }

    /// Whether a domain has this identifier.
    pub open spec fn has_domain(self, id: EntityId) -> bool {
        contains(self.domain_ids(), id)
    }

    /// The position of the domain with this identifier.
    pub open spec fn domain_index(self, id: EntityId) -> int {
        position(self.domain_ids(), id)
    }

    /// The domain with this identifier, if there is one.
    pub open spec fn domain(self, id: EntityId) -> Option<DomainView> {
        if self.has_domain(id) {
            Some(self.domains[self.domain_index(id)])
        } else {
            None
        }
    }

    /// Whether a node has this identifier.
    pub open spec fn has_node(self, id: EntityId) -> bool {
        contains(self.node_ids(), id)
    }

    /// The position of the node with this identifier.
    pub open spec fn node_index(self, id: EntityId) -> int {
        position(self.node_ids(), id)
    }

    /// The node with this identifier, if there is one.
    pub open spec fn node(self, id: EntityId) -> Option<NodeView> {
        if self.has_node(id) {
            Some(self.nodes[self.node_index(id)])
        } else {
            None
        }
    }

    /// The node that hosts a site: none if the site is unknown or its
    /// reference dangles.
    pub open spec fn node_for_site(self, site_id: EntityId) -> Option<NodeView> {
        match self.site(site_id) {
            Some(site) => self.node(site.node_id),
            None => None,
        }
    }

    /// The domain that owns a site: none if the site is unknown or its
    /// reference dangles.
    pub open spec fn domain_for_site(self, site_id: EntityId) -> Option<DomainView> {
        match self.site(site_id) {
            Some(site) => self.domain(site.domain_id),
            None => None,
        }
    }

    /// After going to a screen: the screen left behind is on top of the
    /// stack.
    pub open spec fn navigate_to(self, screen: Screen) -> AppStateView {
        AppStateView {
            previous_screen: self.previous_screen.push(self.current_screen),
            current_screen: screen,
            ..self
        }
    }

    /// After going back: on the screen that was on top of the stack, or
    /// unchanged if the stack was empty.
    pub open spec fn navigate_back(self) -> AppStateView {
        if self.previous_screen.len() > 0 {
            AppStateView {
                current_screen: self.previous_screen.last(),
                previous_screen: self.previous_screen.drop_last(),
                ..self
            }
        } else {
            self
        }
    }

    /// After a notification was shown.
    pub open spec fn show(self, notification: NotificationView) -> AppStateView {
        AppStateView { notifications: push_capped(self.notifications, notification), ..self }
    }

    /// After a notification with this message and level was raised at an
    /// instant.
    pub open spec fn notify(
        self,
        message: Seq<char>,
        level: NotificationLevel,
        at: Timestamp,
    ) -> AppStateView {
        self.show(NotificationView { message, level, timestamp: at })
    }

    /// After the oldest notification was dismissed; unchanged if there was
    /// none.
    pub open spec fn dismiss(self) -> AppStateView {
        if self.notifications.len() > 0 {
            AppStateView { notifications: self.notifications.drop_first(), ..self }
        } else {
            self
        }
    }

    /// After a site was added at the end; unchanged if its identifier was
    /// taken.
    pub open spec fn add_site(self, site: SiteView) -> AppStateView {
        if self.has_site(site.id) {
            self
        } else {
            AppStateView { sites: self.sites.push(site), ..self }
        }
    }

    /// After the site with this identifier was removed and the cursor brought
    /// back into the list; unchanged if there was no such site.
    pub open spec fn remove_site(self, id: EntityId) -> AppStateView {
        if self.has_site(id) {
            let sites = self.sites.remove(self.site_index(id));
            AppStateView {
                sites,
                selection_state: SelectionState {
                    sites_list_index: cursor_clamped(
                        self.selection_state.sites_list_index as int,
                        sites.len() as int,
                    ) as usize,
                    ..self.selection_state
                },
                ..self
            }
        } else {
            self
        }
    }

    /// After the site with this identifier took a new status; unchanged if
    /// there was no such site.
    pub open spec fn set_site_status(self, id: EntityId, status: SiteStatus) -> AppStateView {
        if self.has_site(id) {
            let i = self.site_index(id);
            AppStateView { sites: self.sites.update(i, SiteView { status, ..self.sites[i] }), ..self }
        } else {
            self
        }
    }

    /// After the site with this identifier took every field of another value
    /// but the identifier; unchanged if there was no such site.
    pub open spec fn replace_site(self, id: EntityId, site: SiteView) -> AppStateView {
        if self.has_site(id) {
            AppStateView {
                sites: self.sites.update(self.site_index(id), SiteView { id, ..site }),
                ..self
            }
        } else {
            self
        }
    }

    /// After a domain was added at the end; unchanged if its identifier was
    /// taken.
    pub open spec fn add_domain(self, domain: DomainView) -> AppStateView {
        if self.has_domain(domain.id) {
            self
        } else {
            AppStateView { domains: self.domains.push(domain), ..self }
        }
    }

    /// After the domain with this identifier was removed and the cursor
    /// brought back into the list; unchanged if there was no such domain.
    pub open spec fn remove_domain(self, id: EntityId) -> AppStateView {
        if self.has_domain(id) {
            let domains = self.domains.remove(self.domain_index(id));
            AppStateView {
                domains,
                selection_state: SelectionState {
                    domains_list_index: cursor_clamped(
                        self.selection_state.domains_list_index as int,
                        domains.len() as int,
                    ) as usize,
                    ..self.selection_state
                },
                ..self
            }
        } else {
            self
        }
    }

    /// After the records of the domain with this identifier were replaced as
    /// a whole; unchanged if there was no such domain.
    pub open spec fn set_dns_records(
        self,
        id: EntityId,
        records: Seq<DnsRecordView>,
    ) -> AppStateView {
        if self.has_domain(id) {
            let i = self.domain_index(id);
            AppStateView {
                domains: self.domains.update(
                    i,
                    DomainView { dns_records: records, ..self.domains[i] },
                ),
                ..self
            }
        } else {
            self
        }
    }

    /// Whether the domain with this identifier exists and has a record at
    /// this position.
    pub open spec fn has_dns_record(self, id: EntityId, index: int) -> bool {
        self.has_domain(id) && 0 <= index < self.domains[self.domain_index(id)].dns_records.len()
    }

    /// After a record was added at the end of a domain's records; unchanged
    /// if there was no such domain.
    pub open spec fn add_dns_record(self, id: EntityId, record: DnsRecordView) -> AppStateView {
        if self.has_domain(id) {
            self.set_dns_records(id, self.domains[self.domain_index(id)].dns_records.push(record))
        } else {
            self
        }
    }

    /// After the record at a position was replaced; unchanged if there was no
    /// such domain or no record at that position.
    pub open spec fn update_dns_record(
        self,
        id: EntityId,
        index: int,
        record: DnsRecordView,
    ) -> AppStateView {
        if self.has_dns_record(id, index) {
            self.set_dns_records(
                id,
                self.domains[self.domain_index(id)].dns_records.update(index, record),
            )
        } else {
            self
        }
    }

    /// After the record at a position was removed; unchanged if there was no
    /// such domain or no record at that position.
    pub open spec fn delete_dns_record(self, id: EntityId, index: int) -> AppStateView {
        if self.has_dns_record(id, index) {
            self.set_dns_records(id, self.domains[self.domain_index(id)].dns_records.remove(index))
        } else {
            self
        }
    }

    /// After a node was added at the end; unchanged if its identifier was
    /// taken.
    pub open spec fn add_node(self, node: NodeView) -> AppStateView {
        if self.has_node(node.id) {
            self
        } else {
            AppStateView { nodes: self.nodes.push(node), ..self }
        }
    }

    /// After the node with this identifier was removed and the cursor brought
    /// back into the list; unchanged if there was no such node.
    pub open spec fn remove_node(self, id: EntityId) -> AppStateView {
        if self.has_node(id) {
            let nodes = self.nodes.remove(self.node_index(id));
            AppStateView {
                nodes,
                selection_state: SelectionState {
                    nodes_list_index: cursor_clamped(
                        self.selection_state.nodes_list_index as int,
                        nodes.len() as int,
                    ) as usize,
                    ..self.selection_state
                },
                ..self
            }
        } else {
            self
        }
    }

    /// After the node with this identifier took every field of another value
    /// but the identifier; unchanged if there was no such node.
    pub open spec fn replace_node(self, id: EntityId, node: NodeView) -> AppStateView {
        if self.has_node(id) {
            AppStateView {
                nodes: self.nodes.update(self.node_index(id), NodeView { id, ..node }),
                ..self
            }
        } else {
            self
        }
    }

    /// After the result of a health check was recorded for the node with this
    /// identifier; unchanged if there was no such node.
    pub open spec fn set_node_health(
        self,
        id: EntityId,
        status: NodeStatus,
        docker_info: Option<DockerInfoView>,
        traefik_info: Option<TraefikInfoView>,
        at: Timestamp,
    ) -> AppStateView {
        if self.has_node(id) {
            let i = self.node_index(id);
            AppStateView {
                nodes: self.nodes.update(
                    i,
                    self.nodes[i].with_health(status, docker_info, traefik_info, at),
                ),
                ..self
            }
        } else {
            self
        }
    }

    /// After fresh reports were recorded for the node with this identifier;
    /// unchanged if there was no such node.
    pub open spec fn set_node_stats(
        self,
        id: EntityId,
        docker_info: DockerInfoView,
        traefik_info: TraefikInfoView,
    ) -> AppStateView {
        if self.has_node(id) {
            let i = self.node_index(id);
            AppStateView {
                nodes: self.nodes.update(i, self.nodes[i].with_stats(docker_info, traefik_info)),
                ..self
            }
        } else {
            self
        }
    }

    /// After an operation was entered into the registry.
    pub open spec fn register(self, operation: AsyncOperationView) -> AppStateView {
        AppStateView { pending_operations: self.pending_operations.push(operation), ..self }
    }

    /// The position of the most recent registry entry with this identifier,
    /// or -1 if there is none.
    pub open spec fn operation_index(self, id: EntityId) -> int {
        last_position(self.operation_ids(), id)
    }

    /// The status of the operation with this identifier, if it is registered.
    pub open spec fn operation_status(self, id: EntityId) -> Option<AsyncStatusView> {
        if self.operation_index(id) >= 0 {
            Some(self.pending_operations[self.operation_index(id)].status)
        } else {
            None
        }
    }

    /// Whether the operation with this identifier is registered and has not
    /// ended.
    pub open spec fn is_in_progress(self, id: EntityId) -> bool {
        self.operation_status(id) == Some(AsyncStatusView::InProgress)
    }

    /// After the operation with this identifier was marked as done; unchanged
    /// unless it was in progress.
    pub open spec fn complete_operation(self, id: EntityId) -> AppStateView {
        if self.is_in_progress(id) {
            let i = self.operation_index(id);
            AppStateView {
                pending_operations: self.pending_operations.update(
                    i,
                    self.pending_operations[i].completed(),
                ),
                ..self
            }
        } else {
            self
        }
    }

    /// After the operation with this identifier was marked as failed;
    /// unchanged unless it was in progress.
    pub open spec fn fail_operation(self, id: EntityId, reason: Seq<char>) -> AppStateView {
        if self.is_in_progress(id) {
            let i = self.operation_index(id);
            AppStateView {
                pending_operations: self.pending_operations.update(
                    i,
                    self.pending_operations[i].failed(reason),
                ),
                ..self
            }
        } else {
            self
        }
    }

    /// After the cursor of the list on screen moved one step forward, with
    /// wraparound; unchanged on an empty list or on a screen without a list.
    pub open spec fn select_next(self) -> AppStateView {
        let selection = self.selection_state;
        match self.current_screen {
            Screen::SitesList => AppStateView {
                selection_state: SelectionState {
                    sites_list_index: cursor_next(
                        selection.sites_list_index as int,
                        self.sites.len() as int,
                    ) as usize,
                    ..selection
                },
                ..self
            },
            Screen::DomainsList => AppStateView {
                selection_state: SelectionState {
                    domains_list_index: cursor_next(
                        selection.domains_list_index as int,
                        self.domains.len() as int,
                    ) as usize,
                    ..selection
                },
                ..self
            },
            Screen::NodesList => AppStateView {
                selection_state: SelectionState {
                    nodes_list_index: cursor_next(
                        selection.nodes_list_index as int,
                        self.nodes.len() as int,
                    ) as usize,
                    ..selection
                },
                ..self
            },
            _ => self,
        }
    }

    /// After the cursor of the list on screen moved one step back, with
    /// wraparound; unchanged on an empty list or on a screen without a list.
    pub open spec fn select_previous(self) -> AppStateView {
        let selection = self.selection_state;
        match self.current_screen {
            Screen::SitesList => AppStateView {
                selection_state: SelectionState {
                    sites_list_index: cursor_previous(
                        selection.sites_list_index as int,
                        self.sites.len() as int,
                    ) as usize,
                    ..selection
                },
                ..self
            },
            Screen::DomainsList => AppStateView {
                selection_state: SelectionState {
                    domains_list_index: cursor_previous(
                        selection.domains_list_index as int,
                        self.domains.len() as int,
                    ) as usize,
                    ..selection
                },
                ..self
            },
            Screen::NodesList => AppStateView {
                selection_state: SelectionState {
                    nodes_list_index: cursor_previous(
                        selection.nodes_list_index as int,
                        self.nodes.len() as int,
                    ) as usize,
                    ..selection
                },
                ..self
            },
            _ => self,
        }
    }

    /// After the console was told to stop.
    pub open spec fn quit(self) -> AppStateView {
        AppStateView { should_quit: true, ..self }
    }

    /// The inventory as it is persisted: the three collections as they are,
    /// the auto-save setting, and initial values for the other settings.
    pub open spec fn save(self) -> ArchonConfigView {
        ArchonConfigView {
            version: package_version_text(),
            sites: self.sites,
            domains: self.domains,
            nodes: self.nodes,
            settings: SettingsView { auto_save: self.auto_save, ..SettingsView::initial() },
        }
    }

    /// What is wrong with a persisted inventory, if anything: the first site
    /// whose identifier repeats an earlier one, else the first such domain,
    /// else the first such node.
    pub open spec fn validate(config: ArchonConfigView) -> Option<ConfigErrorView> {
        let sites = site_ids(config.sites);
        let domains = domain_ids(config.domains);
        let nodes = node_ids(config.nodes);
        if first_repeat(sites) < sites.len() {
            Some(ConfigErrorView::DuplicateSite(sites[first_repeat(sites)]))
        } else if first_repeat(domains) < domains.len() {
            Some(ConfigErrorView::DuplicateDomain(domains[first_repeat(domains)]))
        } else if first_repeat(nodes) < nodes.len() {
            Some(ConfigErrorView::DuplicateNode(nodes[first_repeat(nodes)]))
        } else {
            None
        }
    }

    /// The state with which the console starts on a persisted inventory: the
    /// three collections as persisted, the dashboard on screen, every cursor
    /// at the first position, nothing pending and nothing to show.
    pub open spec fn load(config_path: Seq<char>, config: ArchonConfigView) -> AppStateView {
        AppStateView {
            sites: config.sites,
            domains: config.domains,
            nodes: config.nodes,
            current_screen: Screen::Dashboard,
            previous_screen: Seq::empty(),
            selection_state: all_first(),
            pending_operations: Seq::empty(),
            notifications: Seq::empty(),
            config_path,
            auto_save: config.settings.auto_save,
            should_quit: false,
        }
    }
}

} // verus!
