//! The console's state and the elementary changes to it.

use crate::clock::{now, Timestamp};
use crate::config::schema::{package_version, ArchonConfig, ConfigError, Settings};
use crate::ids::{
    find_repeat, last_position, lemma_first_repeat, lemma_position, scan_back, EntityId,
};
use crate::models::dns::DnsRecord;
use crate::models::domain::{copy_domains, find_domain, list_domain_ids, Domain};
use crate::models::node::{
    copy_nodes, find_node, list_node_ids, DockerInfo, Node, NodeStatus, TraefikInfo,
};
use crate::models::site::{copy_sites, find_site, list_site_ids, Site, SiteStatus};
use crate::state::async_ops::AsyncOperation;
use crate::state::model::AppStateView;
use crate::state::notifications::{enqueue, MAX_NOTIFICATIONS};
pub use crate::state::notifications::{Notification, NotificationLevel};
use crate::state::preservation::{
    lemma_inv_bookkeeping, lemma_inv_domains, lemma_inv_load, lemma_inv_nodes,
    lemma_inv_selection, lemma_inv_sites,
};
use crate::state::selection::{clamp, cursor_fits, step_back, step_forward, SelectionState};
use crate::ui::router::Screen;
use std::collections::VecDeque;
use vstd::prelude::*;

verus! {

/// The state that the console owns. It is changed only through the methods
/// below, each of which keeps it well formed.
#[derive(Debug)]
pub struct AppState {
    sites: Vec<Site>,
    domains: Vec<Domain>,
    nodes: Vec<Node>,
    current_screen: Screen,
    previous_screen: Vec<Screen>,
    selection_state: SelectionState,
    pending_operations: Vec<AsyncOperation>,
    notifications: VecDeque<Notification>,
    config_path: String,
    auto_save: bool,
    should_quit: bool,
}

impl View for AppState {
    type V = AppStateView;

    closed spec fn view(&self) -> AppStateView {
        AppStateView {
            sites: self.sites.deep_view(),
            domains: self.domains.deep_view(),
            nodes: self.nodes.deep_view(),
            current_screen: self.current_screen,
            previous_screen: self.previous_screen@,
            selection_state: self.selection_state,
            pending_operations: self.pending_operations.deep_view(),
            notifications: self.notifications.deep_view(),
            config_path: self.config_path@,
            auto_save: self.auto_save,
            should_quit: self.should_quit,
        }
    }
}

impl AppState {
    /// Whether the state satisfies the invariant of the console's state.
    pub open spec fn wf(&self) -> bool {
        self@.inv()
    }

    /// The collections of a state in memory are of a size that the machine
    /// can hold.
    pub proof fn lemma_fits_machine(&self)
        ensures
            self@.fits_machine(),
    {
        assert(self.sites.deep_view().len() == self.sites.len());
        assert(self.domains.deep_view().len() == self.domains.len());
        assert(self.nodes.deep_view().len() == self.nodes.len());
    }

    /// Checks the invariant of the console's state. Every state that was
    /// made and changed through the methods of this type passes.
    pub fn is_well_formed(&self) -> (ok: bool)
        ensures
            ok == self.wf(),
    {
        let site_ids = list_site_ids(&self.sites);
        let domain_ids = list_domain_ids(&self.domains);
        let node_ids = list_node_ids(&self.nodes);
        proof {
            lemma_first_repeat(site_ids@);
            lemma_first_repeat(domain_ids@);
            lemma_first_repeat(node_ids@);
        }
        find_repeat(&site_ids).is_none() && find_repeat(&domain_ids).is_none() && find_repeat(
            &node_ids,
        ).is_none() && self.notifications.len() <= MAX_NOTIFICATIONS && cursor_fits(
            self.selection_state.sites_list_index,
            self.sites.len(),
        ) && cursor_fits(self.selection_state.domains_list_index, self.domains.len())
            && cursor_fits(self.selection_state.nodes_list_index, self.nodes.len())
    }

    /// The state with which the console starts on a persisted inventory. An
    /// inventory in which two sites, two domains or two nodes share an
    /// identifier is rejected.
    pub fn new(config_path: String, config: ArchonConfig) -> (r: Result<AppState, ConfigError>)
        ensures
            match AppStateView::validate(config@) {
                None => r is Ok && r->Ok_0.wf() && r->Ok_0@ == AppStateView::load(
                    config_path@,
                    config@,
                ),
                Some(error) => r is Err && r->Err_0@ == error,
            },
    {
        let site_ids = list_site_ids(&config.sites);
        let domain_ids = list_domain_ids(&config.domains);
        let node_ids = list_node_ids(&config.nodes);
        proof {
            lemma_first_repeat(site_ids@);
            lemma_first_repeat(domain_ids@);
            lemma_first_repeat(node_ids@);
        }
        if let Some(i) = find_repeat(&site_ids) {
            return Err(ConfigError::DuplicateSite(site_ids[i]));
        }
        if let Some(i) = find_repeat(&domain_ids) {
            return Err(ConfigError::DuplicateDomain(domain_ids[i]));
        }
        if let Some(i) = find_repeat(&node_ids) {
            return Err(ConfigError::DuplicateNode(node_ids[i]));
        }
        let state = AppState {
            sites: config.sites,
            domains: config.domains,
            nodes: config.nodes,
            current_screen: Screen::Dashboard,
            previous_screen: Vec::new(),
            selection_state: SelectionState::new(),
            pending_operations: Vec::new(),
            notifications: VecDeque::new(),
            config_path,
            auto_save: config.settings.auto_save,
            should_quit: false,
        };
        proof {
            assert(state@.pending_operations =~= Seq::empty());
            assert(state@.notifications =~= Seq::empty());
            assert(state@.previous_screen =~= Seq::empty());
            lemma_inv_load(config_path@, config@);
        }
        Ok(state)
    }

    /// The inventory as it is to be persisted.
    pub fn save(&self) -> (config: ArchonConfig)
        ensures
            config@ == self@.save(),
    {
        let mut settings = Settings::default();
        settings.auto_save = self.auto_save;
        ArchonConfig {
            version: package_version(),
            sites: copy_sites(&self.sites),
            domains: copy_domains(&self.domains),
            nodes: copy_nodes(&self.nodes),
            settings,
        }
    }

    /// The sites, in the order in which they were added.
    pub fn sites(&self) -> (sites: &Vec<Site>)
        ensures
            sites.deep_view() == self@.sites,
    {
        &self.sites
    }

    /// The domains, in the order in which they were added.
    pub fn domains(&self) -> (domains: &Vec<Domain>)
        ensures
            domains.deep_view() == self@.domains,
    {
        &self.domains
    }

    /// The nodes, in the order in which they were added.
    pub fn nodes(&self) -> (nodes: &Vec<Node>)
        ensures
            nodes.deep_view() == self@.nodes,
    {
        &self.nodes
    }

    /// The screen that is shown.
    pub fn current_screen(&self) -> (screen: Screen)
        ensures
            screen == self@.current_screen,
    {
        self.current_screen
    }

    /// The screens visited before the current one, oldest first.
    pub fn previous_screen(&self) -> (screens: &Vec<Screen>)
        ensures
            screens@ == self@.previous_screen,
    {
        &self.previous_screen
    }

    /// The cursors.
    pub fn selection_state(&self) -> (selection: SelectionState)
        ensures
            selection == self@.selection_state,
    {
        self.selection_state
    }

    /// The registry of background operations, oldest first.
    pub fn pending_operations(&self) -> (operations: &Vec<AsyncOperation>)
        ensures
            operations.deep_view() == self@.pending_operations,
    {
        &self.pending_operations
    }

    /// The notification queue, oldest first.
    pub fn notifications(&self) -> (notifications: &VecDeque<Notification>)
        ensures
            notifications.deep_view() == self@.notifications,
    {
        &self.notifications
    }

    /// Where the inventory is persisted.
    pub fn config_path(&self) -> (path: &String)
        ensures
            path@ == self@.config_path,
    {
        &self.config_path
    }

    /// Whether the inventory is persisted after every change to it.
    pub fn auto_save(&self) -> (auto_save: bool)
        ensures
            auto_save == self@.auto_save,
    {
        self.auto_save
    }

    /// Whether the console was told to stop.
    pub fn should_quit(&self) -> (should_quit: bool)
        ensures
            should_quit == self@.should_quit,
    {
        self.should_quit
    }

    /// Goes to a screen and remembers the one left behind.
    pub fn navigate_to(&mut self, screen: Screen)
        requires
            old(self).wf(),
        ensures
            final(self).wf(),
            final(self)@ == old(self)@.navigate_to(screen),
    {
        proof {
            lemma_inv_bookkeeping(
                self@,
                screen,
                arbitrary(),
                arbitrary(),
                arbitrary(),
                arbitrary(),
            );
        }
        self.previous_screen.push(self.current_screen);
        self.current_screen = screen;
    }

    /// Goes back to the screen visited before; does nothing if there is none.
    pub fn navigate_back(&mut self)
        requires
            old(self).wf(),
        ensures
            final(self).wf(),
            final(self)@ == old(self)@.navigate_back(),
    {
        proof {
            lemma_inv_bookkeeping(
                self@,
                arbitrary(),
                arbitrary(),
                arbitrary(),
                arbitrary(),
                arbitrary(),
            );
        }
        if let Some(previous) = self.previous_screen.pop() {
            self.current_screen = previous;
        }
    }

    /// Puts a notification at the back of the queue and drops the oldest ones
    /// beyond the bound.
    pub fn show_notification(&mut self, notification: Notification)
        requires
            old(self).wf(),
        ensures
            final(self).wf(),
            final(self)@ == old(self)@.show(notification@),
    {
        proof {
            lemma_inv_bookkeeping(
                self@,
                arbitrary(),
                notification@,
                arbitrary(),
                arbitrary(),
                arbitrary(),
            );
        }
        enqueue(&mut self.notifications, notification);
    }

    /// Raises a notification at a given instant.
    pub fn add_notification_at(&mut self, message: String, level: NotificationLevel, at: Timestamp)
        requires
            old(self).wf(),
        ensures
            final(self).wf(),
            final(self)@ == old(self)@.notify(message@, level, at),
    {
        self.show_notification(Notification::at(message, level, at));
    }

    /// Raises a notification now.
    pub fn add_notification(&mut self, message: String, level: NotificationLevel)
        requires
            old(self).wf(),
        ensures
            final(self).wf(),
            exists|at: Timestamp| final(self)@ == old(self)@.notify(message@, level, at),
    {
        let at = now();
        self.add_notification_at(message, level, at);
        assert(self@ == old(self)@.notify(message@, level, at));
    }

    /// Drops the oldest notification; does nothing if there is none.
    pub fn dismiss_notification(&mut self)
        requires
            old(self).wf(),
        ensures
            final(self).wf(),
            final(self)@ == old(self)@.dismiss(),
    {
        proof {
            lemma_inv_bookkeeping(
                self@,
                arbitrary(),
                arbitrary(),
                arbitrary(),
                arbitrary(),
                arbitrary(),
            );
        }
        self.notifications.pop_front();
        assert(self@.notifications =~= old(self)@.dismiss().notifications);
    }

    /// The site with this identifier, if there is one.
    pub fn get_site(&self, id: EntityId) -> (site: Option<&Site>)
        ensures
            site.deep_view() == self@.site(id),
    {
        match find_site(&self.sites, id) {
            Some(i) => Some(&self.sites[i]),
            None => None,
        }
    }

    /// The domain with this identifier, if there is one.
    pub fn get_domain(&self, id: EntityId) -> (domain: Option<&Domain>)
        ensures
            domain.deep_view() == self@.domain(id),
    {
        match find_domain(&self.domains, id) {
            Some(i) => Some(&self.domains[i]),
            None => None,
        }
    }

    /// The node with this identifier, if there is one.
    pub fn get_node(&self, id: EntityId) -> (node: Option<&Node>)
        ensures
            node.deep_view() == self@.node(id),
    {
        match find_node(&self.nodes, id) {
            Some(i) => Some(&self.nodes[i]),
            None => None,
        }
    }

    /// The node that hosts a site; none if the site is unknown or its
    /// reference dangles.
    pub fn get_node_for_site(&self, site_id: EntityId) -> (node: Option<&Node>)
        ensures
            node.deep_view() == self@.node_for_site(site_id),
    {
        match self.get_site(site_id) {
            Some(site) => self.get_node(site.node_id),
            None => None,
        }
    }

    /// The domain that owns a site; none if the site is unknown or its
    /// reference dangles.
    pub fn get_domain_for_site(&self, site_id: EntityId) -> (domain: Option<&Domain>)
        ensures
            domain.deep_view() == self@.domain_for_site(site_id),
    {
        match self.get_site(site_id) {
            Some(site) => self.get_domain(site.domain_id),
            None => None,
        }
    }

    /// Adds a site at the end, unless its identifier is taken. Says whether
    /// the site was added.
    pub fn add_site(&mut self, site: Site) -> (added: bool)
        requires
            old(self).wf(),
        ensures
            final(self).wf(),
            added == !old(self)@.has_site(site.id),
            final(self)@ == old(self)@.add_site(site@),
    {
        proof {
            lemma_inv_sites(self@, arbitrary(), site@, arbitrary());
        }
        match find_site(&self.sites, site.id) {
            Some(_) => false,
            None => {
                self.sites.push(site);
                assert(self@.sites =~= old(self)@.sites.push(site@));
                true
            },
        }
    }

    /// Removes the site with this identifier and brings the cursor back into
    /// the list. Says whether there was such a site.
    pub fn remove_site(&mut self, id: EntityId) -> (removed: bool)
        requires
            old(self).wf(),
        ensures
            final(self).wf(),
            removed == old(self)@.has_site(id),
            final(self)@ == old(self)@.remove_site(id),
    {
        proof {
            lemma_inv_sites(self@, id, arbitrary(), arbitrary());
            lemma_position(self@.site_ids(), id);
        }
        match find_site(&self.sites, id) {
            Some(i) => {
                self.sites.remove(i);
                self.selection_state.sites_list_index = clamp(
                    self.selection_state.sites_list_index,
                    self.sites.len(),
                );
                assert(self@.sites =~= old(self)@.sites.remove(i as int));
                true
            },
            None => false,
        }
    }

    /// Gives the site with this identifier a new status. Says whether there
    /// was such a site.
    pub fn set_site_status(&mut self, id: EntityId, status: SiteStatus) -> (changed: bool)
        requires
            old(self).wf(),
        ensures
            final(self).wf(),
            changed == old(self)@.has_site(id),
            final(self)@ == old(self)@.set_site_status(id, status),
    {
        proof {
            lemma_inv_sites(self@, id, arbitrary(), status);
            lemma_position(self@.site_ids(), id);
        }
        match find_site(&self.sites, id) {
            Some(i) => {
                self.sites[i].status = status;
                assert(self@.sites =~= old(self)@.set_site_status(id, status).sites);
                true
            },
            None => false,
        }
    }

    /// Replaces every field of the site with this identifier but the
    /// identifier itself. Says whether there was such a site.
    pub fn replace_site(&mut self, id: EntityId, site: Site) -> (changed: bool)
        requires
            old(self).wf(),
        ensures
            final(self).wf(),
            changed == old(self)@.has_site(id),
            final(self)@ == old(self)@.replace_site(id, site@),
    {
        proof {
            lemma_inv_sites(self@, id, site@, arbitrary());
            lemma_position(self@.site_ids(), id);
        }
        match find_site(&self.sites, id) {
            Some(i) => {
                let mut site = site;
                site.id = id;
                self.sites[i] = site;
                assert(self@.sites =~= old(self)@.replace_site(id, site@).sites);
                true
            },
            None => false,
        }
    }

    /// Adds a domain at the end, unless its identifier is taken. Says whether
    /// the domain was added.
    pub fn add_domain(&mut self, domain: Domain) -> (added: bool)
        requires
            old(self).wf(),
        ensures
            final(self).wf(),
            added == !old(self)@.has_domain(domain.id),
            final(self)@ == old(self)@.add_domain(domain@),
    {
        proof {
            lemma_inv_domains(
                self@,
                arbitrary(),
                domain@,
                arbitrary(),
                arbitrary(),
                arbitrary(),
            );
        }
        match find_domain(&self.domains, domain.id) {
            Some(_) => false,
            None => {
                self.domains.push(domain);
                assert(self@.domains =~= old(self)@.domains.push(domain@));
                true
            },
        }
    }

    /// Removes the domain with this identifier and brings the cursor back
    /// into the list. Says whether there was such a domain.
    pub fn remove_domain(&mut self, id: EntityId) -> (removed: bool)
        requires
            old(self).wf(),
        ensures
            final(self).wf(),
            removed == old(self)@.has_domain(id),
            final(self)@ == old(self)@.remove_domain(id),
    {
        proof {
            lemma_inv_domains(self@, id, arbitrary(), arbitrary(), arbitrary(), arbitrary());
            lemma_position(self@.domain_ids(), id);
        }
        match find_domain(&self.domains, id) {
            Some(i) => {
                self.domains.remove(i);
                self.selection_state.domains_list_index = clamp(
                    self.selection_state.domains_list_index,
                    self.domains.len(),
                );
                assert(self@.domains =~= old(self)@.domains.remove(i as int));
                true
            },
            None => false,
        }
    }

    /// Replaces the records of the domain with this identifier as a whole.
    /// Says whether there was such a domain.
    pub fn set_dns_records(&mut self, id: EntityId, records: Vec<DnsRecord>) -> (changed: bool)
        requires
            old(self).wf(),
        ensures
            final(self).wf(),
            changed == old(self)@.has_domain(id),
            final(self)@ == old(self)@.set_dns_records(id, records.deep_view()),
    {
        proof {
            lemma_inv_domains(
                self@,
                id,
                arbitrary(),
                records.deep_view(),
                arbitrary(),
                arbitrary(),
            );
            lemma_position(self@.domain_ids(), id);
        }
        match find_domain(&self.domains, id) {
            Some(i) => {
                self.domains[i].dns_records = records;
                assert(self@.domains =~= old(self)@.set_dns_records(
                    id,
                    records.deep_view(),
                ).domains);
                true
            },
            None => false,
        }
    }

    /// Adds a record at the end of a domain's records. Says whether there was
    /// such a domain.
    pub fn add_dns_record(&mut self, id: EntityId, record: DnsRecord) -> (changed: bool)
        requires
            old(self).wf(),
        ensures
            final(self).wf(),
            changed == old(self)@.has_domain(id),
            final(self)@ == old(self)@.add_dns_record(id, record@),
    {
        proof {
            lemma_inv_domains(self@, id, arbitrary(), arbitrary(), arbitrary(), record@);
            lemma_position(self@.domain_ids(), id);
        }
        match find_domain(&self.domains, id) {
            Some(i) => {
                let ghost before = self.domains[i as int].dns_records.deep_view();
                self.domains[i].dns_records.push(record);
                assert(self.domains[i as int].dns_records.deep_view() =~= before.push(record@));
                assert(self@.domains =~= old(self)@.add_dns_record(id, record@).domains);
                true
            },
            None => false,
        }
    }

    /// Replaces the record at a position of a domain's records. Says whether
    /// there was such a domain with a record at that position.
    pub fn update_dns_record(&mut self, id: EntityId, index: usize, record: DnsRecord) -> (changed:
        bool)
        requires
            old(self).wf(),
        ensures
            final(self).wf(),
            changed == old(self)@.has_dns_record(id, index as int),
            final(self)@ == old(self)@.update_dns_record(id, index as int, record@),
    {
        proof {
            lemma_inv_domains(self@, id, arbitrary(), arbitrary(), index as int, record@);
            lemma_position(self@.domain_ids(), id);
        }
        match find_domain(&self.domains, id) {
            Some(i) => {
                if index < self.domains[i].dns_records.len() {
                    let ghost before = self.domains[i as int].dns_records.deep_view();
                    self.domains[i].dns_records[index] = record;
                    assert(self.domains[i as int].dns_records.deep_view() =~= before.update(
                        index as int,
                        record@,
                    ));
                    assert(self@.domains =~= old(self)@.update_dns_record(
                        id,
                        index as int,
                        record@,
                    ).domains);
                    true
                } else {
                    false
                }
            },
            None => false,
        }
    }

    /// Removes the record at a position of a domain's records. Says whether
    /// there was such a domain with a record at that position.
    pub fn delete_dns_record(&mut self, id: EntityId, index: usize) -> (changed: bool)
        requires
            old(self).wf(),
        ensures
            final(self).wf(),
            changed == old(self)@.has_dns_record(id, index as int),
            final(self)@ == old(self)@.delete_dns_record(id, index as int),
    {
        proof {
            lemma_inv_domains(self@, id, arbitrary(), arbitrary(), index as int, arbitrary());
            lemma_position(self@.domain_ids(), id);
        }
        match find_domain(&self.domains, id) {
            Some(i) => {
                if index < self.domains[i].dns_records.len() {
                    let ghost before = self.domains[i as int].dns_records.deep_view();
                    self.domains[i].dns_records.remove(index);
                    assert(self.domains[i as int].dns_records.deep_view() =~= before.remove(
                        index as int,
                    ));
                    assert(self@.domains =~= old(self)@.delete_dns_record(
                        id,
                        index as int,
                    ).domains);
                    true
                } else {
                    false
                }
            },
            None => false,
        }
    }

    /// Adds a node at the end, unless its identifier is taken. Says whether
    /// the node was added.
    pub fn add_node(&mut self, node: Node) -> (added: bool)
        requires
            old(self).wf(),
        ensures
            final(self).wf(),
            added == !old(self)@.has_node(node.id),
            final(self)@ == old(self)@.add_node(node@),
    {
        proof {
            lemma_inv_nodes(
                self@,
                arbitrary(),
                node@,
                arbitrary(),
                arbitrary(),
                arbitrary(),
                arbitrary(),
                arbitrary(),
                arbitrary(),
            );
        }
        match find_node(&self.nodes, node.id) {
            Some(_) => false,
            None => {
                self.nodes.push(node);
                assert(self@.nodes =~= old(self)@.nodes.push(node@));
                true
            },
        }
    }

    /// Removes the node with this identifier and brings the cursor back into
    /// the list. Says whether there was such a node.
    pub fn remove_node(&mut self, id: EntityId) -> (removed: bool)
        requires
            old(self).wf(),
        ensures
            final(self).wf(),
            removed == old(self)@.has_node(id),
            final(self)@ == old(self)@.remove_node(id),
    {
        proof {
            lemma_inv_nodes(
                self@,
                id,
                arbitrary(),
                arbitrary(),
                arbitrary(),
                arbitrary(),
                arbitrary(),
                arbitrary(),
                arbitrary(),
            );
            lemma_position(self@.node_ids(), id);
        }
        match find_node(&self.nodes, id) {
            Some(i) => {
                self.nodes.remove(i);
                self.selection_state.nodes_list_index = clamp(
                    self.selection_state.nodes_list_index,
                    self.nodes.len(),
                );
                assert(self@.nodes =~= old(self)@.nodes.remove(i as int));
                true
            },
            None => false,
        }
    }

    /// Replaces every field of the node with this identifier but the
    /// identifier itself. Says whether there was such a node.
    pub fn replace_node(&mut self, id: EntityId, node: Node) -> (changed: bool)
        requires
            old(self).wf(),
        ensures
            final(self).wf(),
            changed == old(self)@.has_node(id),
            final(self)@ == old(self)@.replace_node(id, node@),
    {
        proof {
            lemma_inv_nodes(
                self@,
                id,
                node@,
                arbitrary(),
                arbitrary(),
                arbitrary(),
                arbitrary(),
                arbitrary(),
                arbitrary(),
            );
            lemma_position(self@.node_ids(), id);
        }
        match find_node(&self.nodes, id) {
            Some(i) => {
                let mut node = node;
                node.id = id;
                self.nodes[i] = node;
                assert(self@.nodes =~= old(self)@.replace_node(id, node@).nodes);
                true
            },
            None => false,
        }
    }

    /// Records the result of a health check made at a given instant for the
    /// node with this identifier. Says whether there was such a node.
    pub fn set_node_health(
        &mut self,
        id: EntityId,
        status: NodeStatus,
        docker_info: Option<DockerInfo>,
        traefik_info: Option<TraefikInfo>,
        at: Timestamp,
    ) -> (changed: bool)
        requires
            old(self).wf(),
        ensures
            final(self).wf(),
            changed == old(self)@.has_node(id),
            final(self)@ == old(self)@.set_node_health(
                id,
                status,
                docker_info.deep_view(),
                traefik_info.deep_view(),
                at,
            ),
    {
        proof {
            lemma_inv_nodes(
                self@,
                id,
                arbitrary(),
                status,
                docker_info.deep_view(),
                traefik_info.deep_view(),
                at,
                arbitrary(),
                arbitrary(),
            );
            lemma_position(self@.node_ids(), id);
        }
        match find_node(&self.nodes, id) {
            Some(i) => {
                self.nodes[i].update_health_at(status, docker_info, traefik_info, at);
                assert(self@.nodes =~= old(self)@.set_node_health(
                    id,
                    status,
                    docker_info.deep_view(),
                    traefik_info.deep_view(),
                    at,
                ).nodes);
                true
            },
            None => false,
        }
    }

    /// Records fresh reports for the node with this identifier. Says whether
    /// there was such a node.
    pub fn set_node_stats(
        &mut self,
        id: EntityId,
        docker_info: DockerInfo,
        traefik_info: TraefikInfo,
    ) -> (changed: bool)
        requires
            old(self).wf(),
        ensures
            final(self).wf(),
            changed == old(self)@.has_node(id),
            final(self)@ == old(self)@.set_node_stats(id, docker_info@, traefik_info@),
    {
        proof {
            lemma_inv_nodes(
                self@,
                id,
                arbitrary(),
                arbitrary(),
                arbitrary(),
                arbitrary(),
                arbitrary(),
                docker_info@,
                traefik_info@,
            );
            lemma_position(self@.node_ids(), id);
        }
        match find_node(&self.nodes, id) {
            Some(i) => {
                self.nodes[i].docker_info = Some(docker_info);
                self.nodes[i].traefik_info = Some(traefik_info);
                assert(self@.nodes =~= old(self)@.set_node_stats(
                    id,
                    docker_info@,
                    traefik_info@,
                ).nodes);
                true
            },
            None => false,
        }
    }

    /// Enters an operation into the registry.
    pub fn register_operation(&mut self, operation: AsyncOperation)
        requires
            old(self).wf(),
        ensures
            final(self).wf(),
            final(self)@ == old(self)@.register(operation@),
    {
        proof {
            lemma_inv_bookkeeping(
                self@,
                arbitrary(),
                arbitrary(),
                operation@,
                arbitrary(),
                arbitrary(),
            );
        }
        self.pending_operations.push(operation);
        assert(self@.pending_operations =~= old(self)@.pending_operations.push(operation@));
    }

    /// The position of the most recent registry entry with this identifier.
    fn find_operation(&self, id: EntityId) -> (found: Option<usize>)
        ensures
            match found {
                Some(i) => i == self@.operation_index(id) && i < self.pending_operations.len(),
                None => self@.operation_index(id) == -1,
            },
    {
        let ghost ids = self@.operation_ids();
        let mut end: usize = self.pending_operations.len();
        while end > 0
            invariant
                end <= self.pending_operations.len(),
                ids == self@.operation_ids(),
                last_position(ids, id) == scan_back(ids, id, end as int),
            decreases end,
        {
            assert(ids[end - 1] == self.pending_operations[end - 1].id);
            if self.pending_operations[end - 1].id == id {
                return Some(end - 1);
            }
            end -= 1;
        }
        None
    }

    /// The most recent registry entry with this identifier, if there is one.
    pub fn get_operation(&self, id: EntityId) -> (operation: Option<&AsyncOperation>)
        ensures
            match operation {
                Some(op) => self@.operation_index(id) >= 0 && op@
                    == self@.pending_operations[self@.operation_index(id)],
                None => self@.operation_index(id) == -1,
            },
    {
        match self.find_operation(id) {
            Some(i) => Some(&self.pending_operations[i]),
            None => None,
        }
    }

    /// Whether the operation with this identifier is registered and has not
    /// ended.
    pub fn is_in_progress(&self, id: EntityId) -> (running: bool)
        ensures
            running == self@.is_in_progress(id),
    {
        match self.find_operation(id) {
            Some(i) => self.pending_operations[i].is_in_progress(),
            None => false,
        }
    }

    /// Marks the operation with this identifier as done, if it is in
    /// progress. Says whether it was.
    pub fn complete_operation(&mut self, id: EntityId) -> (changed: bool)
        requires
            old(self).wf(),
        ensures
            final(self).wf(),
            changed == old(self)@.is_in_progress(id),
            final(self)@ == old(self)@.complete_operation(id),
    {
        proof {
            lemma_inv_bookkeeping(
                self@,
                arbitrary(),
                arbitrary(),
                arbitrary(),
                id,
                arbitrary(),
            );
        }
        match self.find_operation(id) {
            Some(i) => {
                if self.pending_operations[i].is_in_progress() {
                    self.pending_operations[i].complete();
                    assert(self@.pending_operations =~= old(self)@.complete_operation(
                        id,
                    ).pending_operations);
                    true
                } else {
                    false
                }
            },
            None => false,
        }
    }

    /// Marks the operation with this identifier as failed for a reason, if it
    /// is in progress. Says whether it was.
    pub fn fail_operation(&mut self, id: EntityId, reason: String) -> (changed: bool)
        requires
            old(self).wf(),
        ensures
            final(self).wf(),
            changed == old(self)@.is_in_progress(id),
            final(self)@ == old(self)@.fail_operation(id, reason@),
    {
        proof {
            lemma_inv_bookkeeping(self@, arbitrary(), arbitrary(), arbitrary(), id, reason@);
        }
        match self.find_operation(id) {
            Some(i) => {
                if self.pending_operations[i].is_in_progress() {
                    self.pending_operations[i].fail(reason);
                    assert(self@.pending_operations =~= old(self)@.fail_operation(
                        id,
                        reason@,
                    ).pending_operations);
                    true
                } else {
                    false
                }
            },
            None => false,
        }
    }

    /// Moves the cursor of the list on screen one step forward, wrapping to
    /// the start; does nothing on an empty list or on a screen without a list.
    pub fn select_next(&mut self)
        requires
            old(self).wf(),
        ensures
            final(self).wf(),
            final(self)@ == old(self)@.select_next(),
    {
        proof {
            lemma_inv_selection(self@);
        }
        match self.current_screen {
            Screen::SitesList => {
                self.selection_state.sites_list_index = step_forward(
                    self.selection_state.sites_list_index,
                    self.sites.len(),
                );
            },
            Screen::DomainsList => {
                self.selection_state.domains_list_index = step_forward(
                    self.selection_state.domains_list_index,
                    self.domains.len(),
                );
            },
            Screen::NodesList => {
                self.selection_state.nodes_list_index = step_forward(
                    self.selection_state.nodes_list_index,
                    self.nodes.len(),
                );
            },
            _ => {},
        }
    }

    /// Moves the cursor of the list on screen one step back, wrapping to the
    /// end; does nothing on an empty list or on a screen without a list.
    pub fn select_previous(&mut self)
        requires
            old(self).wf(),
        ensures
            final(self).wf(),
            final(self)@ == old(self)@.select_previous(),
    {
        proof {
            lemma_inv_selection(self@);
        }
        match self.current_screen {
            Screen::SitesList => {
                self.selection_state.sites_list_index = step_back(
                    self.selection_state.sites_list_index,
                    self.sites.len(),
                );
            },
            Screen::DomainsList => {
                self.selection_state.domains_list_index = step_back(
                    self.selection_state.domains_list_index,
                    self.domains.len(),
                );
            },
            Screen::NodesList => {
                self.selection_state.nodes_list_index = step_back(
                    self.selection_state.nodes_list_index,
                    self.nodes.len(),
                );
            },
            _ => {},
        }
    }

    /// Tells the console to stop.
    pub fn quit(&mut self)
        requires
            old(self).wf(),
        ensures
            final(self).wf(),
            final(self)@ == old(self)@.quit(),
    {
        proof {
            lemma_inv_bookkeeping(
                self@,
                arbitrary(),
                arbitrary(),
                arbitrary(),
                arbitrary(),
                arbitrary(),
            );
        }
        self.should_quit = true;
    }
}

} // verus!
