use archon::app::App;
use archon::clock::Timestamp;
use archon::config::schema::{ArchonConfig, ConfigError};
use archon::events::actions::Action;
use archon::models::dns::{DnsRecord, DnsRecordType};
use archon::models::domain::{DnsProvider, Domain};
use archon::models::node::{DockerInfo, IpAddress, Node, NodeStatus, TraefikInfo};
use archon::models::site::{Site, SiteStatus};
use archon::state::app_state::AppState;
use archon::state::async_ops::{
    AsyncOperationResult, AsyncStatus, ContainerMetrics, OperationType,
};
use archon::state::notifications::{Notification, NotificationLevel};
use archon::tasks::Work;
use archon::transition::StorageRequest;
use archon::ui::router::Screen;

const DOMAIN: u128 = 0xD0;
const NODE: u128 = 0xE0;
const SITE: u128 = 0xA0;

fn update_at(n: i64) -> Timestamp {
    Timestamp::new(1_700_000_000 + n, 0)
}

fn update_domain(id: u128, provider: DnsProvider) -> Domain {
    Domain::with_id(id, format!("d{}.example.com", id), provider, update_at(0))
}

fn update_cloudflare() -> DnsProvider {
    DnsProvider::Cloudflare { api_token: "token".to_string(), zone_id: "zone".to_string() }
}

fn update_node(id: u128) -> Node {
    Node::with_id(
        id,
        format!("node-{}", id),
        "https://node.example.com".to_string(),
        "SECRET-REDACTED".to_string(),
        IpAddress::V4(0x0A00_0001),
    )
}

fn update_site(id: u128, domain: u128, node: u128) -> Site {
    Site::with_id(id, format!("site-{}", id), domain, node, "nginx:latest".to_string(), 8080, update_at(0))
}

fn update_app(auto_save: bool) -> App {
    let mut config = ArchonConfig::default();
    config.settings.auto_save = auto_save;
    App::new(AppState::new("/tmp/archon.toml".to_string(), config).unwrap())
}

/// An app with one domain, one node and nothing else.
fn update_app_with_domain_and_node() -> App {
    let mut app = update_app(false);
    app.apply(Action::CreateDomain(update_domain(DOMAIN, update_cloudflare())), 1, update_at(1));
    app.apply(Action::AddNode(update_node(NODE)), 2, update_at(2));
    app
}

fn update_messages(app: &App) -> Vec<(String, NotificationLevel)> {
    app.state.notifications().iter().map(|n| (n.message.clone(), n.level)).collect()
}

#[test]
fn create_deploy_complete_scenario() {
    let mut app = update_app_with_domain_and_node();
    let created = app.apply(Action::CreateSite(update_site(SITE, DOMAIN, NODE)), 100, update_at(3));
    // the site is there, and its deployment was handed out and registered
    assert_eq!(app.state.sites().len(), 1);
    assert_eq!(app.state.get_site(SITE).unwrap().status, SiteStatus::Inactive);
    let task = created.task.expect("auto-deploy is launched");
    assert_eq!(task.operation_id, 100);
    match &task.work {
        Work::DeploySite { site, domain_name, access } => {
            assert_eq!(site.id, SITE);
            assert_eq!(domain_name, "d208.example.com");
            assert_eq!(access.api_endpoint, "https://node.example.com");
            assert_eq!(access.api_key, "SECRET-REDACTED");
        }
        other => panic!("unexpected work {:?}", other),
    }
    assert_eq!(created.storage, StorageRequest::Nothing);
    assert!(app.state.is_in_progress(100));
    let op = app.state.get_operation(100).unwrap();
    assert_eq!(op.operation_type, OperationType::DeploySite(SITE));
    assert_eq!(op.status, AsyncStatus::InProgress);
    assert_eq!(op.started_at, update_at(3));

    let before = update_messages(&app).len();
    let done = app.apply(
        Action::AsyncOperationCompleted(100, Ok(AsyncOperationResult::SiteDeployed(SITE))),
        101,
        update_at(4),
    );
    assert!(done.task.is_none());
    assert!(done.surfaced.is_none());
    assert_eq!(app.state.get_site(SITE).unwrap().status, SiteStatus::Running);
    assert_eq!(app.state.get_operation(100).unwrap().status, AsyncStatus::Completed);
    let after = update_messages(&app);
    assert_eq!(after.len(), before + 1);
    assert_eq!(
        after.last().unwrap(),
        &("Site deployed successfully".to_string(), NotificationLevel::Success)
    );
    assert_eq!(app.state.notifications().back().unwrap().timestamp, update_at(4));
}

#[test]
fn create_site_through_update_mints_the_operation_id() {
    let mut app = update_app_with_domain_and_node();
    let created = app.update(Action::CreateSite(update_site(SITE, DOMAIN, NODE)));
    let task = created.task.expect("auto-deploy is launched");
    assert!(app.state.is_in_progress(task.operation_id));
    assert_eq!(app.state.pending_operations().len(), 1);
    assert_eq!(app.state.pending_operations()[0].id, task.operation_id);
    let done = app.update(Action::AsyncOperationCompleted(
        task.operation_id,
        Ok(AsyncOperationResult::SiteDeployed(SITE)),
    ));
    assert!(done.task.is_none());
    assert_eq!(app.state.get_site(SITE).unwrap().status, SiteStatus::Running);
    assert!(!app.state.is_in_progress(task.operation_id));
}

#[test]
fn delete_of_unknown_site_changes_nothing() {
    let mut app = update_app_with_domain_and_node();
    let before = format!("{:?}", app.state);
    let outcome = app.apply(Action::DeleteSite(0xFFFF), 7, update_at(9));
    assert!(outcome.task.is_none());
    assert!(outcome.surfaced.is_none());
    assert_eq!(outcome.storage, StorageRequest::Nothing);
    assert_eq!(format!("{:?}", app.state), before);
    assert!(app.state.pending_operations().is_empty());
}

#[test]
fn sync_of_manual_domain_is_short_circuited() {
    let mut app = update_app(false);
    app.apply(Action::CreateDomain(update_domain(DOMAIN, DnsProvider::Manual)), 1, update_at(1));
    let before = format!("{:?}", app.state);
    let outcome = app.apply(Action::SyncDnsRecords(DOMAIN), 7, update_at(9));
    assert!(outcome.task.is_none());
    assert_eq!(outcome.storage, StorageRequest::Nothing);
    assert_eq!(format!("{:?}", app.state), before);
}

#[test]
fn sync_of_managed_domain_is_registered_and_merged() {
    let mut app = update_app_with_domain_and_node();
    let outcome = app.apply(Action::SyncDnsRecords(DOMAIN), 7, update_at(9));
    let task = outcome.task.unwrap();
    assert_eq!(task.operation_id, 7);
    match &task.work {
        Work::SyncDns { domain_id, domain_name, provider } => {
            assert_eq!(*domain_id, DOMAIN);
            assert_eq!(domain_name, "d208.example.com");
            assert_eq!(provider, &update_cloudflare());
        }
        other => panic!("unexpected work {:?}", other),
    }
    assert_eq!(app.state.get_operation(7).unwrap().operation_type, OperationType::UpdateDns(DOMAIN));
    let records = vec![
        DnsRecord::new(DnsRecordType::A, "www".to_string(), "10.0.0.1".to_string(), 300),
        DnsRecord::new(DnsRecordType::TXT, "@".to_string(), "v=spf1".to_string(), 60),
    ];
    app.apply(
        Action::AsyncOperationCompleted(7, Ok(AsyncOperationResult::DnsSynced(DOMAIN, records.clone()))),
        8,
        update_at(10),
    );
    assert_eq!(app.state.get_domain(DOMAIN).unwrap().dns_records, records);
    assert_eq!(
        update_messages(&app).last().unwrap(),
        &("DNS records synced successfully".to_string(), NotificationLevel::Success)
    );
}

#[test]
fn duplicate_completion_is_ignored() {
    let mut app = update_app_with_domain_and_node();
    app.apply(Action::CreateSite(update_site(SITE, DOMAIN, NODE)), 100, update_at(3));
    app.apply(Action::DeleteSite(SITE), 200, update_at(4));
    app.apply(
        Action::AsyncOperationCompleted(200, Ok(AsyncOperationResult::SiteDeleted(SITE))),
        201,
        update_at(5),
    );
    assert!(app.state.get_site(SITE).is_none());
    let after_first = format!("{:?}", app.state);
    // the same completion again, and a contradicting one
    let again = app.apply(
        Action::AsyncOperationCompleted(200, Ok(AsyncOperationResult::SiteDeleted(SITE))),
        202,
        update_at(6),
    );
    assert!(again.task.is_none() && again.surfaced.is_none());
    assert_eq!(format!("{:?}", app.state), after_first);
    app.apply(Action::AsyncOperationCompleted(200, Err("late".to_string())), 203, update_at(7));
    assert_eq!(format!("{:?}", app.state), after_first);
    assert_eq!(app.state.get_operation(200).unwrap().status, AsyncStatus::Completed);
}

#[test]
fn completion_without_registration_is_ignored() {
    let mut app = update_app_with_domain_and_node();
    app.apply(Action::CreateSite(update_site(SITE, DOMAIN, NODE)), 100, update_at(3));
    let before = format!("{:?}", app.state);
    app.apply(
        Action::AsyncOperationCompleted(999, Ok(AsyncOperationResult::SiteDeleted(SITE))),
        5,
        update_at(4),
    );
    assert_eq!(format!("{:?}", app.state), before);
    assert!(app.state.get_site(SITE).is_some());
}

#[test]
fn failed_operation_is_told_and_nothing_is_merged() {
    let mut app = update_app_with_domain_and_node();
    app.apply(Action::CreateSite(update_site(SITE, DOMAIN, NODE)), 100, update_at(3));
    app.apply(
        Action::AsyncOperationCompleted(100, Err("Server error: 500 - boom".to_string())),
        101,
        update_at(4),
    );
    assert_eq!(app.state.get_site(SITE).unwrap().status, SiteStatus::Inactive);
    assert_eq!(
        app.state.get_operation(100).unwrap().status,
        AsyncStatus::Failed("Server error: 500 - boom".to_string())
    );
    assert!(app.state.get_operation(100).unwrap().is_failed());
    assert_eq!(
        update_messages(&app).last().unwrap(),
        &("Operation failed: Server error: 500 - boom".to_string(), NotificationLevel::Error)
    );
}

#[test]
fn site_is_removed_only_when_deletion_is_confirmed() {
    let mut app = update_app_with_domain_and_node();
    app.apply(Action::CreateSite(update_site(SITE, DOMAIN, NODE)), 100, update_at(3));
    let notes = update_messages(&app).len();
    let outcome = app.apply(Action::DeleteSite(SITE), 200, update_at(4));
    match outcome.task.unwrap().work {
        Work::DeleteSite { site_id, .. } => assert_eq!(site_id, SITE),
        other => panic!("unexpected work {:?}", other),
    }
    assert!(app.state.get_site(SITE).is_some());
    assert_eq!(update_messages(&app).len(), notes);
    app.apply(Action::AsyncOperationCompleted(200, Err("unreachable".to_string())), 201, update_at(5));
    assert!(app.state.get_site(SITE).is_some());
}

#[test]
fn crud_intents_never_duplicate_identifiers() {
    let mut app = update_app(false);
    let actions = vec![
        Action::CreateDomain(update_domain(1, DnsProvider::Manual)),
        Action::CreateDomain(update_domain(1, update_cloudflare())),
        Action::CreateDomain(update_domain(2, DnsProvider::Manual)),
        Action::AddNode(update_node(1)),
        Action::AddNode(update_node(1)),
        Action::AddNode(update_node(2)),
        Action::CreateSite(update_site(1, 1, 1)),
        Action::CreateSite(update_site(1, 2, 2)),
        Action::CreateSite(update_site(2, 1, 1)),
        // an update that carries another site's identifier keeps its own
        Action::UpdateSite(2, update_site(1, 2, 2)),
        Action::UpdateNode(2, update_node(1)),
        Action::DeleteDomain(1),
        Action::CreateDomain(update_domain(1, DnsProvider::Manual)),
        Action::RemoveNode(1),
        Action::AddNode(update_node(1)),
    ];
    for (i, action) in actions.into_iter().enumerate() {
        let count = app.state.notifications().len();
        app.apply(action, 1000 + i as u128, update_at(i as i64));
        // every such intent tells its outcome exactly once
        assert_eq!(app.state.notifications().len(), count + 1);
        let mut sites: Vec<u128> = app.state.sites().iter().map(|s| s.id).collect();
        let mut domains: Vec<u128> = app.state.domains().iter().map(|d| d.id).collect();
        let mut nodes: Vec<u128> = app.state.nodes().iter().map(|n| n.id).collect();
        for ids in [&mut sites, &mut domains, &mut nodes] {
            let len = ids.len();
            ids.sort();
            ids.dedup();
            assert_eq!(ids.len(), len);
        }
    }
    assert_eq!(app.state.sites().iter().map(|s| s.id).collect::<Vec<_>>(), vec![1, 2]);
    assert_eq!(app.state.domains().iter().map(|d| d.id).collect::<Vec<_>>(), vec![2, 1]);
    assert_eq!(app.state.nodes().iter().map(|n| n.id).collect::<Vec<_>>(), vec![2, 1]);
    // the updated site took the new fields and kept its identifier
    let updated = app.state.get_site(2).unwrap();
    assert_eq!(updated.name, "site-1");
    assert_eq!(updated.domain_id, 2);
    assert_eq!(app.state.get_node(2).unwrap().name, "node-1");
}

#[test]
fn refusals_are_told_as_errors() {
    let mut app = update_app_with_domain_and_node();
    let cases: Vec<(Action, &str)> = vec![
        (Action::CreateDomain(update_domain(DOMAIN, DnsProvider::Manual)), "Domain already exists"),
        (Action::AddNode(update_node(NODE)), "Node already exists"),
        (Action::CreateSite(update_site(SITE, 0xBAD, NODE)), "Domain not found"),
        (Action::CreateSite(update_site(SITE, DOMAIN, 0xBAD)), "Node not found"),
        (Action::UpdateSite(SITE, update_site(SITE, DOMAIN, NODE)), "Site not found"),
        (Action::UpdateNode(0xBAD, update_node(0xBAD)), "Node not found"),
        (
            Action::AddDnsRecord(
                0xBAD,
                DnsRecord::new(DnsRecordType::A, "a".to_string(), "b".to_string(), 1),
            ),
            "Domain not found",
        ),
        (
            Action::UpdateDnsRecord(
                DOMAIN,
                0,
                DnsRecord::new(DnsRecordType::A, "a".to_string(), "b".to_string(), 1),
            ),
            "DNS record not found",
        ),
        (Action::DeleteDnsRecord(DOMAIN, 3), "DNS record not found"),
        (Action::DeleteDnsRecord(0xBAD, 0), "Domain not found"),
    ];
    for (action, message) in cases {
        let sites = app.state.sites().len();
        let domains = app.state.domains().len();
        let nodes = app.state.nodes().len();
        let outcome = app.apply(action, 5, update_at(5));
        assert!(outcome.task.is_none());
        assert_eq!(outcome.storage, StorageRequest::Nothing);
        assert_eq!(
            update_messages(&app).last().unwrap(),
            &(message.to_string(), NotificationLevel::Error)
        );
        assert_eq!(app.state.sites().len(), sites);
        assert_eq!(app.state.domains().len(), domains);
        assert_eq!(app.state.nodes().len(), nodes);
    }
    app.apply(Action::CreateSite(update_site(SITE, DOMAIN, NODE)), 6, update_at(6));
    app.apply(Action::CreateSite(update_site(SITE, DOMAIN, NODE)), 7, update_at(7));
    assert_eq!(
        update_messages(&app).last().unwrap(),
        &("Site already exists".to_string(), NotificationLevel::Error)
    );
    assert_eq!(app.state.sites().len(), 1);
}

#[test]
fn dns_record_intents_edit_the_records() {
    let mut app = update_app_with_domain_and_node();
    let a = DnsRecord::new(DnsRecordType::A, "www".to_string(), "10.0.0.1".to_string(), 300);
    let b = DnsRecord::new(DnsRecordType::CNAME, "api".to_string(), "www".to_string(), 60);
    let c = DnsRecord::new(DnsRecordType::MX, "@".to_string(), "mail".to_string(), 600).with_proxy(true);
    app.apply(Action::AddDnsRecord(DOMAIN, a.clone()), 1, update_at(1));
    app.apply(Action::AddDnsRecord(DOMAIN, b.clone()), 1, update_at(2));
    assert_eq!(app.state.get_domain(DOMAIN).unwrap().dns_records, vec![a.clone(), b.clone()]);
    assert_eq!(update_messages(&app).last().unwrap().0, "DNS record added");
    app.apply(Action::UpdateDnsRecord(DOMAIN, 0, c.clone()), 1, update_at(3));
    assert_eq!(app.state.get_domain(DOMAIN).unwrap().dns_records, vec![c.clone(), b.clone()]);
    assert_eq!(update_messages(&app).last().unwrap().0, "DNS record updated");
    app.apply(Action::UpdateDnsRecord(DOMAIN, 2, a.clone()), 1, update_at(4));
    assert_eq!(app.state.get_domain(DOMAIN).unwrap().dns_records, vec![c.clone(), b.clone()]);
    app.apply(Action::DeleteDnsRecord(DOMAIN, 0), 1, update_at(5));
    assert_eq!(app.state.get_domain(DOMAIN).unwrap().dns_records, vec![b]);
    assert_eq!(update_messages(&app).last().unwrap().0, "DNS record deleted");
}

#[test]
fn auto_save_is_requested_after_changes_only() {
    let mut app = update_app(true);
    let o = app.apply(Action::CreateDomain(update_domain(DOMAIN, update_cloudflare())), 1, update_at(1));
    assert_eq!(o.storage, StorageRequest::AutoSave);
    let o = app.apply(Action::CreateDomain(update_domain(DOMAIN, update_cloudflare())), 1, update_at(1));
    assert_eq!(o.storage, StorageRequest::Nothing);
    let o = app.apply(Action::AddNode(update_node(NODE)), 2, update_at(2));
    assert_eq!(o.storage, StorageRequest::AutoSave);
    let o = app.apply(Action::CreateSite(update_site(SITE, DOMAIN, NODE)), 3, update_at(3));
    assert_eq!(o.storage, StorageRequest::AutoSave);
    assert!(o.task.is_some());
    let o = app.apply(Action::UpdateSite(SITE, update_site(SITE, DOMAIN, NODE)), 4, update_at(4));
    assert_eq!(o.storage, StorageRequest::AutoSave);
    assert_eq!(o.task.unwrap().operation_id, 4);
    for action in [
        Action::DeploySite(SITE),
        Action::SelectNext,
        Action::NavigateTo(Screen::Help),
        Action::DismissNotification,
        Action::Noop,
        Action::SelectItem(3),
        Action::NextFormField,
        Action::PreviousFormField,
    ] {
        let o = app.apply(action, 50, update_at(5));
        assert_eq!(o.storage, StorageRequest::Nothing);
    }
    let o = app.apply(Action::RemoveNode(NODE), 5, update_at(6));
    assert_eq!(o.storage, StorageRequest::AutoSave);
    let o = app.apply(Action::DeleteDomain(DOMAIN), 5, update_at(6));
    assert_eq!(o.storage, StorageRequest::AutoSave);
    // the site's references now dangle: nothing is launched for it, without error
    let before = format!("{:?}", app.state);
    for action in [
        Action::DeploySite(SITE),
        Action::StopSite(SITE),
        Action::RestartSite(SITE),
        Action::DeleteSite(SITE),
        Action::FetchLogs(SITE),
        Action::FetchMetrics(SITE),
    ] {
        let o = app.apply(action, 60, update_at(7));
        assert!(o.task.is_none());
        assert_eq!(format!("{:?}", app.state), before);
    }
    assert!(app.state.get_node_for_site(SITE).is_none());
    assert!(app.state.get_domain_for_site(SITE).is_none());
}

#[test]
fn every_launch_is_registered_in_progress() {
    let mut app = update_app_with_domain_and_node();
    app.apply(Action::CreateSite(update_site(SITE, DOMAIN, NODE)), 10, update_at(3));
    let launches: Vec<(Action, OperationType)> = vec![
        (Action::DeploySite(SITE), OperationType::DeploySite(SITE)),
        (Action::StopSite(SITE), OperationType::StopSite(SITE)),
        (Action::RestartSite(SITE), OperationType::RestartSite(SITE)),
        (Action::DeleteSite(SITE), OperationType::DeleteSite(SITE)),
        (Action::SyncDnsRecords(DOMAIN), OperationType::UpdateDns(DOMAIN)),
        (Action::CheckNodeHealth(NODE), OperationType::NodeHealthCheck(NODE)),
        (Action::FetchNodeStats(NODE), OperationType::FetchNodeStats(NODE)),
        (Action::FetchLogs(SITE), OperationType::FetchLogs(SITE)),
        (Action::FetchMetrics(SITE), OperationType::FetchMetrics(SITE)),
    ];
    for (i, (action, kind)) in launches.into_iter().enumerate() {
        let id = 500 + i as u128;
        let outcome = app.apply(action, id, update_at(10 + i as i64));
        let task = outcome.task.expect("work is launched");
        assert_eq!(task.operation_id, id);
        assert_eq!(task.work.operation_type(), kind);
        let op = app.state.pending_operations().last().unwrap();
        assert_eq!((op.id, op.operation_type), (id, kind));
        assert_eq!(op.status, AsyncStatus::InProgress);
        assert!(app.state.is_in_progress(id));
        if let Work::FetchLogs { lines, .. } = task.work {
            assert_eq!(lines, 100);
        }
    }
    assert_eq!(app.state.pending_operations().len(), 10);
    for missing in [Action::CheckNodeHealth(1), Action::FetchNodeStats(1), Action::SyncDnsRecords(1)] {
        assert!(app.apply(missing, 900, update_at(30)).task.is_none());
    }
    assert_eq!(app.state.pending_operations().len(), 10);
}

#[test]
fn node_results_are_merged_without_notification() {
    let mut app = update_app_with_domain_and_node();
    app.apply(Action::CheckNodeHealth(NODE), 1, update_at(3));
    let notes = update_messages(&app).len();
    let docker = DockerInfo::new("24.0".to_string(), 3, 9);
    let traefik = TraefikInfo::new("3.0".to_string(), 2, 2);
    app.apply(
        Action::AsyncOperationCompleted(
            1,
            Ok(AsyncOperationResult::NodeHealth(NODE, NodeStatus::Online, Some(docker.clone()), None)),
        ),
        2,
        update_at(4),
    );
    let node = app.state.get_node(NODE).unwrap();
    assert_eq!(node.status, NodeStatus::Online);
    assert_eq!(node.docker_info, Some(docker.clone()));
    assert_eq!(node.traefik_info, None);
    assert_eq!(node.last_health_check, Some(update_at(4)));
    app.apply(Action::FetchNodeStats(NODE), 3, update_at(5));
    app.apply(
        Action::AsyncOperationCompleted(
            3,
            Ok(AsyncOperationResult::NodeStats(NODE, docker.clone(), traefik.clone())),
        ),
        4,
        update_at(6),
    );
    let node = app.state.get_node(NODE).unwrap();
    assert_eq!(node.status, NodeStatus::Online);
    assert_eq!(node.traefik_info, Some(traefik));
    assert_eq!(node.last_health_check, Some(update_at(4)));
    assert_eq!(update_messages(&app).len(), notes);
}

#[test]
fn logs_and_metrics_are_surfaced_not_stored() {
    let mut app = update_app_with_domain_and_node();
    app.apply(Action::CreateSite(update_site(SITE, DOMAIN, NODE)), 10, update_at(3));
    app.apply(Action::FetchLogs(SITE), 11, update_at(4));
    app.apply(Action::FetchMetrics(SITE), 12, update_at(5));
    let before_sites = format!("{:?}", app.state.sites());
    let notes = update_messages(&app).len();
    let logs = AsyncOperationResult::Logs(SITE, vec!["a".to_string(), "b".to_string()]);
    let o = app.apply(Action::AsyncOperationCompleted(11, Ok(logs.clone())), 13, update_at(6));
    assert_eq!(o.surfaced, Some(logs));
    let metrics = AsyncOperationResult::Metrics(
        SITE,
        ContainerMetrics {
            cpu_usage_percent_bits: 12.5f64.to_bits(),
            memory_usage_mb: 64,
            memory_limit_mb: 512,
            network_rx_bytes: 1,
            network_tx_bytes: 2,
        },
    );
    let o = app.apply(Action::AsyncOperationCompleted(12, Ok(metrics.clone())), 14, update_at(7));
    assert_eq!(o.surfaced, Some(metrics));
    assert_eq!(format!("{:?}", app.state.sites()), before_sites);
    assert_eq!(update_messages(&app).len(), notes);
    assert!(app.state.get_operation(11).unwrap().is_completed());
    assert!(app.state.get_operation(12).unwrap().is_completed());
}

#[test]
fn manual_save_is_confirmed_or_its_failure_told() {
    let mut app = update_app(true);
    let o = app.apply(Action::SaveConfig, 1, update_at(1));
    assert_eq!(o.storage, StorageRequest::ManualSave);
    assert!(app.state.notifications().is_empty());
    assert_eq!(app.storage_finished_at(StorageRequest::ManualSave, Ok(()), update_at(2)), Ok(()));
    assert_eq!(
        update_messages(&app),
        vec![("Configuration saved".to_string(), NotificationLevel::Success)]
    );
    assert_eq!(
        app.storage_finished_at(StorageRequest::ManualSave, Err("disk full".to_string()), update_at(3)),
        Ok(())
    );
    assert_eq!(
        update_messages(&app).last().unwrap(),
        &("Failed to save configuration: disk full".to_string(), NotificationLevel::Error)
    );
    assert_eq!(app.storage_finished(StorageRequest::ManualSave, Ok(())), Ok(()));
    assert_eq!(update_messages(&app).len(), 3);
}

#[test]
fn failed_auto_save_is_an_error_for_the_caller() {
    let mut app = update_app(true);
    let before = format!("{:?}", app.state);
    assert_eq!(
        app.storage_finished_at(StorageRequest::AutoSave, Err("disk full".to_string()), update_at(1)),
        Err(ConfigError::Storage("disk full".to_string()))
    );
    assert_eq!(app.storage_finished_at(StorageRequest::AutoSave, Ok(()), update_at(1)), Ok(()));
    assert_eq!(app.storage_finished_at(StorageRequest::Nothing, Err("x".to_string()), update_at(1)), Ok(()));
    assert_eq!(app.storage_finished_at(StorageRequest::Reload, Err("x".to_string()), update_at(1)), Ok(()));
    assert_eq!(format!("{:?}", app.state), before);
}

#[test]
fn quit_waits_for_the_save_when_auto_save_is_on() {
    let mut app = update_app(true);
    let o = app.apply(Action::Quit, 1, update_at(1));
    assert_eq!(o.storage, StorageRequest::SaveThenQuit);
    assert!(!app.state.should_quit());
    assert_eq!(
        app.storage_finished_at(StorageRequest::SaveThenQuit, Err("disk full".to_string()), update_at(2)),
        Err(ConfigError::Storage("disk full".to_string()))
    );
    assert!(!app.state.should_quit());
    assert_eq!(app.storage_finished_at(StorageRequest::SaveThenQuit, Ok(()), update_at(3)), Ok(()));
    assert!(app.state.should_quit());

    let mut app = update_app(false);
    let o = app.apply(Action::Quit, 1, update_at(1));
    assert_eq!(o.storage, StorageRequest::Nothing);
    assert!(app.state.should_quit());
}

#[test]
fn reload_starts_over_on_what_was_read() {
    let mut app = update_app_with_domain_and_node();
    app.apply(Action::NavigateTo(Screen::NodesList), 1, update_at(3));
    app.apply(Action::CheckNodeHealth(NODE), 2, update_at(4));
    let o = app.apply(Action::LoadConfig, 3, update_at(5));
    assert_eq!(o.storage, StorageRequest::Reload);
    let mut config = ArchonConfig::default();
    config.domains.push(update_domain(7, DnsProvider::Manual));
    config.settings.auto_save = true;
    assert_eq!(app.reload_at(Ok(config), update_at(6)), Ok(()));
    assert_eq!(app.state.domains().len(), 1);
    assert_eq!(app.state.domains()[0].id, 7);
    assert!(app.state.nodes().is_empty());
    assert_eq!(app.state.current_screen(), Screen::Dashboard);
    assert!(app.state.previous_screen().is_empty());
    assert!(app.state.pending_operations().is_empty());
    assert!(app.state.auto_save());
    assert_eq!(app.state.config_path(), "/tmp/archon.toml");
    assert_eq!(
        update_messages(&app),
        vec![("Configuration reloaded".to_string(), NotificationLevel::Info)]
    );
    // a failed read and an invalid inventory leave the state as it is
    let before = format!("{:?}", app.state);
    assert_eq!(
        app.reload_at(Err("no such file".to_string()), update_at(7)),
        Err(ConfigError::Storage("no such file".to_string()))
    );
    let mut twice = ArchonConfig::default();
    twice.nodes.push(update_node(3));
    twice.nodes.push(update_node(3));
    assert_eq!(app.reload_at(Ok(twice), update_at(8)), Err(ConfigError::DuplicateNode(3)));
    assert_eq!(format!("{:?}", app.state), before);
    assert_eq!(app.reload(Err("gone".to_string())), Err(ConfigError::Storage("gone".to_string())));
}

#[test]
fn shown_notifications_respect_the_bound() {
    let mut app = update_app(false);
    for i in 0..60 {
        app.apply(
            Action::ShowNotification(Notification::at(format!("n{}", i), NotificationLevel::Info, update_at(i))),
            1,
            update_at(i),
        );
        assert!(app.state.notifications().len() <= 50);
    }
    let messages: Vec<String> = update_messages(&app).into_iter().map(|m| m.0).collect();
    let expected: Vec<String> = (10..60).map(|i| format!("n{}", i)).collect();
    assert_eq!(messages, expected);
    app.apply(Action::DismissNotification, 1, update_at(0));
    assert_eq!(app.state.notifications().len(), 49);
    assert_eq!(app.state.notifications().front().unwrap().message, "n11");
}
