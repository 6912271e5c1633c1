//! Every elementary change keeps the invariant of the console's state.

use crate::clock::Timestamp;
use crate::config::schema::ArchonConfigView;
use crate::ids::{contains, lemma_position, unique, EntityId};
use crate::models::dns::DnsRecordView;
use crate::models::domain::DomainView;
use crate::models::node::{DockerInfoView, NodeStatus, NodeView, TraefikInfoView};
use crate::models::site::{SiteStatus, SiteView};
use crate::state::async_ops::AsyncOperationView;
use crate::state::model::AppStateView;
use crate::state::notifications::{lemma_push_capped, NotificationView};
use crate::state::selection::lemma_cursor_steps;
use vstd::prelude::*;

verus! {

/// A list without repetition stays so when an identifier that it lacks is
/// added at the end.
pub proof fn lemma_unique_push(ids: Seq<EntityId>, id: EntityId)
    requires
        unique(ids),
        !contains(ids, id),
    ensures
        unique(ids.push(id)),
{
    lemma_position(ids, id);
    let grown = ids.push(id);
    assert forall|i: int, j: int| 0 <= i < j < grown.len() implies grown[i] != grown[j] by {
        if j < ids.len() {
            assert(grown[i] == ids[i] && grown[j] == ids[j]);
        } else {
            assert(grown[i] == ids[i]);
        }
    }
}

/// A list without repetition stays so when an item is removed.
pub proof fn lemma_unique_remove(ids: Seq<EntityId>, at: int)
    requires
        unique(ids),
        0 <= at < ids.len(),
    ensures
        unique(ids.remove(at)),
{
    let rest = ids.remove(at);
    assert forall|i: int, j: int| 0 <= i < j < rest.len() implies rest[i] != rest[j] by {
        let a = if i < at {
            i
        } else {
            i + 1
        };
        let b = if j < at {
            j
        } else {
            j + 1
        };
        assert(rest[i] == ids[a] && rest[j] == ids[b]);
    }
}

/// Navigation, notifications, the registry and the quit flag leave the
/// collections and cursors alone.
pub proof fn lemma_inv_bookkeeping(
    s: AppStateView,
    screen: crate::ui::router::Screen,
    notification: NotificationView,
    operation: AsyncOperationView,
    id: EntityId,
    reason: Seq<char>,
)
    requires
        s.inv(),
    ensures
        s.navigate_to(screen).inv(),
        s.navigate_back().inv(),
        s.show(notification).inv(),
        s.dismiss().inv(),
        s.register(operation).inv(),
        s.complete_operation(id).inv(),
        s.fail_operation(id, reason).inv(),
        s.quit().inv(),
{
    lemma_push_capped(s.notifications, notification);
    assert(s.navigate_to(screen).site_ids() =~= s.site_ids());
    assert(s.navigate_to(screen).domain_ids() =~= s.domain_ids());
    assert(s.navigate_to(screen).node_ids() =~= s.node_ids());
    assert(s.navigate_back().site_ids() =~= s.site_ids());
    assert(s.navigate_back().domain_ids() =~= s.domain_ids());
    assert(s.navigate_back().node_ids() =~= s.node_ids());
    assert(s.show(notification).site_ids() =~= s.site_ids());
    assert(s.show(notification).domain_ids() =~= s.domain_ids());
    assert(s.show(notification).node_ids() =~= s.node_ids());
    assert(s.dismiss().site_ids() =~= s.site_ids());
    assert(s.dismiss().domain_ids() =~= s.domain_ids());
    assert(s.dismiss().node_ids() =~= s.node_ids());
    assert(s.register(operation).site_ids() =~= s.site_ids());
    assert(s.register(operation).domain_ids() =~= s.domain_ids());
    assert(s.register(operation).node_ids() =~= s.node_ids());
    assert(s.complete_operation(id).site_ids() =~= s.site_ids());
    assert(s.complete_operation(id).domain_ids() =~= s.domain_ids());
    assert(s.complete_operation(id).node_ids() =~= s.node_ids());
    assert(s.fail_operation(id, reason).site_ids() =~= s.site_ids());
    assert(s.fail_operation(id, reason).domain_ids() =~= s.domain_ids());
    assert(s.fail_operation(id, reason).node_ids() =~= s.node_ids());
    assert(s.quit().site_ids() =~= s.site_ids());
    assert(s.quit().domain_ids() =~= s.domain_ids());
    assert(s.quit().node_ids() =~= s.node_ids());
}

/// Moving a cursor keeps it in its list.
pub proof fn lemma_inv_selection(s: AppStateView)
    requires
        s.inv(),
    ensures
        s.select_next().inv(),
        s.select_previous().inv(),
{
    lemma_cursor_steps(s.selection_state.sites_list_index as int, s.sites.len() as int);
    lemma_cursor_steps(s.selection_state.domains_list_index as int, s.domains.len() as int);
    lemma_cursor_steps(s.selection_state.nodes_list_index as int, s.nodes.len() as int);
    assert(s.select_next().site_ids() =~= s.site_ids());
    assert(s.select_next().domain_ids() =~= s.domain_ids());
    assert(s.select_next().node_ids() =~= s.node_ids());
    assert(s.select_previous().site_ids() =~= s.site_ids());
    assert(s.select_previous().domain_ids() =~= s.domain_ids());
    assert(s.select_previous().node_ids() =~= s.node_ids());
}

/// Changes to the sites keep the invariant.
pub proof fn lemma_inv_sites(s: AppStateView, id: EntityId, site: SiteView, status: SiteStatus)
    requires
        s.inv(),
    ensures
        s.add_site(site).inv(),
        s.remove_site(id).inv(),
        s.set_site_status(id, status).inv(),
        s.replace_site(id, site).inv(),
{
    lemma_position(s.site_ids(), id);
    lemma_position(s.site_ids(), site.id);
    if !s.has_site(site.id) {
        lemma_unique_push(s.site_ids(), site.id);
        assert(s.add_site(site).site_ids() =~= s.site_ids().push(site.id));
    }
    assert(s.add_site(site).domain_ids() =~= s.domain_ids());
    assert(s.add_site(site).node_ids() =~= s.node_ids());
    if s.has_site(id) {
        lemma_unique_remove(s.site_ids(), s.site_index(id));
        assert(s.remove_site(id).site_ids() =~= s.site_ids().remove(s.site_index(id)));
    }
    assert(s.remove_site(id).domain_ids() =~= s.domain_ids());
    assert(s.remove_site(id).node_ids() =~= s.node_ids());
    assert(s.set_site_status(id, status).site_ids() =~= s.site_ids());
    assert(s.set_site_status(id, status).domain_ids() =~= s.domain_ids());
    assert(s.set_site_status(id, status).node_ids() =~= s.node_ids());
    assert(s.replace_site(id, site).site_ids() =~= s.site_ids());
    assert(s.replace_site(id, site).domain_ids() =~= s.domain_ids());
    assert(s.replace_site(id, site).node_ids() =~= s.node_ids());
}

/// Changes to the domains and their records keep the invariant.
pub proof fn lemma_inv_domains(
    s: AppStateView,
    id: EntityId,
    domain: DomainView,
    records: Seq<DnsRecordView>,
    index: int,
    record: DnsRecordView,
)
    requires
        s.inv(),
    ensures
        s.add_domain(domain).inv(),
        s.remove_domain(id).inv(),
        s.set_dns_records(id, records).inv(),
        s.add_dns_record(id, record).inv(),
        s.update_dns_record(id, index, record).inv(),
        s.delete_dns_record(id, index).inv(),
{
    lemma_position(s.domain_ids(), id);
    lemma_position(s.domain_ids(), domain.id);
    if !s.has_domain(domain.id) {
        lemma_unique_push(s.domain_ids(), domain.id);
        assert(s.add_domain(domain).domain_ids() =~= s.domain_ids().push(domain.id));
    }
    assert(s.add_domain(domain).site_ids() =~= s.site_ids());
    assert(s.add_domain(domain).node_ids() =~= s.node_ids());
    if s.has_domain(id) {
        lemma_unique_remove(s.domain_ids(), s.domain_index(id));
        assert(s.remove_domain(id).domain_ids() =~= s.domain_ids().remove(s.domain_index(id)));
    }
    assert(s.remove_domain(id).site_ids() =~= s.site_ids());
    assert(s.remove_domain(id).node_ids() =~= s.node_ids());
    lemma_inv_records(s, id, records);
    if s.has_domain(id) {
        let old_records = s.domains[s.domain_index(id)].dns_records;
        lemma_inv_records(s, id, old_records.push(record));
        lemma_inv_records(s, id, old_records.update(index, record));
        lemma_inv_records(s, id, old_records.remove(index));
    }
}

/// Replacing a domain's records keeps the invariant.
pub proof fn lemma_inv_records(s: AppStateView, id: EntityId, records: Seq<DnsRecordView>)
    requires
        s.inv(),
    ensures
        s.set_dns_records(id, records).inv(),
{
    lemma_position(s.domain_ids(), id);
    assert(s.set_dns_records(id, records).domain_ids() =~= s.domain_ids());
    assert(s.set_dns_records(id, records).site_ids() =~= s.site_ids());
    assert(s.set_dns_records(id, records).node_ids() =~= s.node_ids());
}

/// Changes to the nodes keep the invariant.
pub proof fn lemma_inv_nodes(
    s: AppStateView,
    id: EntityId,
    node: NodeView,
    status: NodeStatus,
    docker_info: Option<DockerInfoView>,
    traefik_info: Option<TraefikInfoView>,
    at: Timestamp,
    docker_stats: DockerInfoView,
    traefik_stats: TraefikInfoView,
)
    requires
        s.inv(),
    ensures
        s.add_node(node).inv(),
        s.remove_node(id).inv(),
        s.replace_node(id, node).inv(),
        s.set_node_health(id, status, docker_info, traefik_info, at).inv(),
        s.set_node_stats(id, docker_stats, traefik_stats).inv(),
{
    lemma_position(s.node_ids(), id);
    lemma_position(s.node_ids(), node.id);
    if !s.has_node(node.id) {
        lemma_unique_push(s.node_ids(), node.id);
        assert(s.add_node(node).node_ids() =~= s.node_ids().push(node.id));
    }
    assert(s.add_node(node).site_ids() =~= s.site_ids());
    assert(s.add_node(node).domain_ids() =~= s.domain_ids());
    if s.has_node(id) {
        lemma_unique_remove(s.node_ids(), s.node_index(id));
        assert(s.remove_node(id).node_ids() =~= s.node_ids().remove(s.node_index(id)));
    }
    assert(s.remove_node(id).site_ids() =~= s.site_ids());
    assert(s.remove_node(id).domain_ids() =~= s.domain_ids());
    assert(s.replace_node(id, node).node_ids() =~= s.node_ids());
    assert(s.replace_node(id, node).site_ids() =~= s.site_ids());
    assert(s.replace_node(id, node).domain_ids() =~= s.domain_ids());
    let checked = s.set_node_health(id, status, docker_info, traefik_info, at);
    assert(checked.node_ids() =~= s.node_ids());
    assert(checked.site_ids() =~= s.site_ids());
    assert(checked.domain_ids() =~= s.domain_ids());
    let measured = s.set_node_stats(id, docker_stats, traefik_stats);
    assert(measured.node_ids() =~= s.node_ids());
    assert(measured.site_ids() =~= s.site_ids());
    assert(measured.domain_ids() =~= s.domain_ids());
}

/// A persisted inventory without repeated identifiers gives a valid state.
pub proof fn lemma_inv_load(config_path: Seq<char>, config: ArchonConfigView)
    requires
        unique(AppStateView::load(config_path, config).site_ids()),
        unique(AppStateView::load(config_path, config).domain_ids()),
        unique(AppStateView::load(config_path, config).node_ids()),
    ensures
        AppStateView::load(config_path, config).inv(),
{
}

} // verus!
