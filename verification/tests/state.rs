use archon::clock::Timestamp;
use archon::config::schema::{package_version, ArchonConfig, ConfigError, Settings};
use archon::config::loader::{load_config, storage_error, LoadPlan, StorageStep};
use archon::models::domain::{DnsProvider, Domain};
use archon::models::node::{IpAddress, Node};
use archon::models::site::{Site, SiteStatus};
use archon::state::app_state::AppState;
use archon::state::async_ops::{AsyncOperation, AsyncStatus, OperationType};
use archon::state::notifications::{Notification, NotificationLevel, MAX_NOTIFICATIONS};
use archon::state::selection::{clamp, step_back, step_forward, SelectionState};
use archon::ui::router::Screen;

fn state_at(n: i64) -> Timestamp {
    Timestamp::new(n, 5)
}

fn state_site(id: u128) -> Site {
    Site::with_id(id, format!("s{}", id), 1, 1, "img".to_string(), 80, state_at(0))
}

fn state_domain(id: u128) -> Domain {
    Domain::with_id(id, format!("d{}", id), DnsProvider::Manual, state_at(0))
}

fn state_node(id: u128) -> Node {
    Node::with_id(id, format!("n{}", id), "e".to_string(), "k".to_string(), IpAddress::V6(1))
}

fn state_empty() -> AppState {
    AppState::new("cfg".to_string(), ArchonConfig::default()).unwrap()
}

fn state_with(sites: u128, domains: u128, nodes: u128) -> AppState {
    let mut state = state_empty();
    for i in 0..sites {
        assert!(state.add_site(state_site(i)));
    }
    for i in 0..domains {
        assert!(state.add_domain(state_domain(i)));
    }
    for i in 0..nodes {
        assert!(state.add_node(state_node(i)));
    }
    state
}

#[test]
fn test_load_nonexistent_creates_default() {
    // Where there is no file, loading begins with the inventory of a new installation.
    let config = match load_config(false) {
        LoadPlan::CreateDefault(config) => config,
        LoadPlan::ReadExisting => panic!("nothing to read"),
    };
    assert_eq!(config.version, package_version());
    assert_eq!(config.version, "0.1.0");
    assert!(config.sites.is_empty());
    assert!(matches!(load_config(true), LoadPlan::ReadExisting));
}

#[test]
fn test_save_and_load() {
    let mut config = ArchonConfig::default();
    config.settings.auto_save = false;
    let state = AppState::new("test.toml".to_string(), config).unwrap();
    let saved = state.save();
    let loaded = AppState::new("test.toml".to_string(), saved).unwrap();
    assert_eq!(loaded.auto_save(), false);
    assert_eq!(loaded.save().settings.auto_save, false);
}

#[test]
fn save_then_load_reproduces_the_collections() {
    let mut state = state_with(3, 2, 4);
    state.set_site_status(1, SiteStatus::Failed);
    let saved = state.save();
    assert_eq!(saved.version, "0.1.0");
    assert_eq!(
        saved.settings,
        Settings {
            auto_save: true,
            health_check_interval_seconds: 300,
            default_dns_ttl: 300,
            theme: "default".to_string(),
        }
    );
    let loaded = AppState::new("elsewhere".to_string(), saved).unwrap();
    assert_eq!(format!("{:?}", loaded.sites()), format!("{:?}", state.sites()));
    assert_eq!(loaded.domains(), state.domains());
    assert_eq!(loaded.nodes(), state.nodes());
    assert_eq!(loaded.config_path(), "elsewhere");
    assert_eq!(loaded.sites()[1].status, SiteStatus::Failed);
}

#[test]
fn default_settings_and_inventory() {
    let settings = Settings::default();
    assert!(settings.auto_save);
    assert_eq!(settings.health_check_interval_seconds, 300);
    assert_eq!(settings.default_dns_ttl, 300);
    assert_eq!(settings.theme, "default");
    let config = ArchonConfig::new();
    assert!(config.sites.is_empty() && config.domains.is_empty() && config.nodes.is_empty());
    assert_eq!(config.settings, settings);
    let state = state_empty();
    assert_eq!(state.current_screen(), Screen::Dashboard);
    assert_eq!(Screen::default(), Screen::Dashboard);
    assert_eq!(state.selection_state(), SelectionState::new());
    assert!(state.auto_save());
    assert!(!state.should_quit());
    assert!(state.notifications().is_empty());
    assert!(state.pending_operations().is_empty());
}

#[test]
fn inventory_with_repeated_identifiers_is_rejected() {
    let mut config = ArchonConfig::default();
    config.sites = vec![state_site(1), state_site(2), state_site(3), state_site(2), state_site(1)];
    config.domains = vec![state_domain(9), state_domain(9)];
    assert_eq!(AppState::new("p".to_string(), config).unwrap_err(), ConfigError::DuplicateSite(2));
    let mut config = ArchonConfig::default();
    config.domains = vec![state_domain(9), state_domain(8), state_domain(9)];
    config.nodes = vec![state_node(4), state_node(4)];
    assert_eq!(AppState::new("p".to_string(), config).unwrap_err(), ConfigError::DuplicateDomain(9));
    let mut config = ArchonConfig::default();
    config.nodes = vec![state_node(4), state_node(4)];
    let error = AppState::new("p".to_string(), config).unwrap_err();
    assert_eq!(error, ConfigError::DuplicateNode(4));
    assert_eq!(
        error.to_string(),
        "Configuration error: duplicate node id 00000000-0000-0000-0000-000000000004"
    );
    assert_eq!(
        ConfigError::DuplicateSite(0xa1a2a3a4b1b2c1c2d1d2d3d4d5d6d7d8).to_string(),
        "Configuration error: duplicate site id a1a2a3a4-b1b2-c1c2-d1d2-d3d4d5d6d7d8"
    );
    assert_eq!(
        ConfigError::DuplicateDomain(1).to_string(),
        "Configuration error: duplicate domain id 00000000-0000-0000-0000-000000000001"
    );
    assert_eq!(ConfigError::Storage("x".to_string()).to_string(), "Configuration error: x");
}

#[test]
fn storage_failures_name_the_step_and_the_path() {
    let cases = [
        (StorageStep::Read, "Failed to read config file: /a/b.toml"),
        (StorageStep::Parse, "Failed to parse config file: /a/b.toml"),
        (StorageStep::CreateDirectory, "Failed to create config directory: /a/b.toml"),
        (StorageStep::Serialize, "Failed to serialize config to TOML"),
        (StorageStep::Write, "Failed to write config file: /a/b.toml"),
    ];
    for (step, message) in cases {
        assert_eq!(storage_error(step, "/a/b.toml"), ConfigError::Storage(message.to_string()));
    }
}

#[test]
fn select_next_wraps_modulo_the_length() {
    for len in 1..6u128 {
        let mut state = state_with(len, 0, 0);
        state.navigate_to(Screen::SitesList);
        for n in 1..20usize {
            state.select_next();
            assert_eq!(state.selection_state().sites_list_index, n % len as usize);
            assert_eq!(state.selection_state().domains_list_index, 0);
            assert_eq!(state.selection_state().nodes_list_index, 0);
        }
    }
    let mut state = state_with(2, 3, 4);
    state.navigate_to(Screen::DomainsList);
    for _ in 0..4 {
        state.select_next();
    }
    assert_eq!(state.selection_state().domains_list_index, 1);
    state.navigate_to(Screen::NodesList);
    for _ in 0..7 {
        state.select_next();
    }
    assert_eq!(state.selection_state().nodes_list_index, 3);
    assert_eq!(state.selection_state().sites_list_index, 0);
}

#[test]
fn select_on_empty_list_or_other_screen_is_a_no_op() {
    for screen in [Screen::SitesList, Screen::DomainsList, Screen::NodesList] {
        let mut state = state_empty();
        state.navigate_to(screen);
        let before = format!("{:?}", state);
        for _ in 0..3 {
            state.select_next();
            state.select_previous();
        }
        assert_eq!(format!("{:?}", state), before);
    }
    let mut state = state_with(3, 3, 3);
    for screen in [Screen::Dashboard, Screen::Help, Screen::SiteCreate, Screen::SiteEdit(1)] {
        state.navigate_to(screen);
        let before = format!("{:?}", state);
        state.select_next();
        state.select_previous();
        assert_eq!(format!("{:?}", state), before);
    }
}

#[test]
fn select_previous_wraps_to_the_end() {
    let mut state = state_with(3, 0, 0);
    state.navigate_to(Screen::SitesList);
    state.select_previous();
    assert_eq!(state.selection_state().sites_list_index, 2);
    state.select_previous();
    assert_eq!(state.selection_state().sites_list_index, 1);
    state.select_next();
    state.select_next();
    assert_eq!(state.selection_state().sites_list_index, 0);
}

#[test]
fn cursor_arithmetic() {
    assert_eq!(step_forward(0, 1), 0);
    assert_eq!(step_forward(3, 5), 4);
    assert_eq!(step_forward(4, 5), 0);
    assert_eq!(step_forward(0, 0), 0);
    assert_eq!(step_forward(usize::MAX - 1, usize::MAX), 0);
    assert_eq!(step_back(0, 5), 4);
    assert_eq!(step_back(4, 5), 3);
    assert_eq!(step_back(0, 0), 0);
    assert_eq!(step_back(0, usize::MAX), usize::MAX - 1);
    assert_eq!(clamp(7, 3), 2);
    assert_eq!(clamp(2, 3), 2);
    assert_eq!(clamp(7, 0), 0);
    let mut selection = SelectionState::default();
    selection.form_field_index = 4;
    selection.dns_records_index = 2;
    selection.reset();
    assert_eq!(selection, SelectionState::new());
}

#[test]
fn cursor_stays_in_the_list_when_items_are_removed() {
    let mut state = state_with(3, 3, 3);
    state.navigate_to(Screen::SitesList);
    state.select_next();
    state.select_next();
    assert_eq!(state.selection_state().sites_list_index, 2);
    assert!(state.remove_site(0));
    assert_eq!(state.selection_state().sites_list_index, 1);
    assert!(!state.remove_site(0));
    assert_eq!(state.selection_state().sites_list_index, 1);
    assert!(state.remove_site(2));
    assert_eq!(state.selection_state().sites_list_index, 0);
    assert!(state.remove_site(1));
    assert_eq!(state.selection_state().sites_list_index, 0);
    assert!(state.sites().is_empty());
    state.navigate_to(Screen::NodesList);
    state.select_previous();
    assert!(state.remove_node(1));
    assert_eq!(state.selection_state().nodes_list_index, 1);
    assert_eq!(state.nodes().iter().map(|n| n.id).collect::<Vec<_>>(), vec![0, 2]);
    state.navigate_to(Screen::DomainsList);
    state.select_next();
    assert!(state.remove_domain(0));
    assert_eq!(state.selection_state().domains_list_index, 1);
    assert!(state.remove_domain(2));
    assert_eq!(state.selection_state().domains_list_index, 0);
}

#[test]
fn pushing_51_notifications_leaves_the_50_most_recent() {
    let mut state = state_empty();
    for i in 0..51 {
        state.add_notification_at(format!("m{}", i), NotificationLevel::Info, state_at(i));
    }
    assert_eq!(MAX_NOTIFICATIONS, 50);
    assert_eq!(state.notifications().len(), 50);
    let messages: Vec<String> = state.notifications().iter().map(|n| n.message.clone()).collect();
    let expected: Vec<String> = (1..51).map(|i| format!("m{}", i)).collect();
    assert_eq!(messages, expected);
    assert!(!messages.contains(&"m0".to_string()));
    assert_eq!(state.notifications()[0].timestamp, state_at(1));
}

#[test]
fn notifications_are_dismissed_oldest_first() {
    let mut state = state_empty();
    state.dismiss_notification();
    assert!(state.notifications().is_empty());
    state.add_notification("first".to_string(), NotificationLevel::Warning);
    state.show_notification(Notification::error("second"));
    assert_eq!(state.notifications().len(), 2);
    state.dismiss_notification();
    assert_eq!(state.notifications().len(), 1);
    assert_eq!(state.notifications()[0].message, "second");
    assert_eq!(state.notifications()[0].level, NotificationLevel::Error);
}

#[test]
fn notification_constructors_set_message_and_level() {
    assert_eq!(Notification::info("a").level, NotificationLevel::Info);
    assert_eq!(Notification::success("b").level, NotificationLevel::Success);
    assert_eq!(Notification::warning("c").level, NotificationLevel::Warning);
    let e = Notification::error("d");
    assert_eq!((e.message.as_str(), e.level), ("d", NotificationLevel::Error));
    // the clock is read: the time is this century's
    assert!(e.timestamp.secs > 1_600_000_000);
    assert!(e.timestamp.nanos < 2_000_000_000);
    let copy = e.clone();
    assert_eq!(copy, e);
}

#[test]
fn navigation_is_a_stack() {
    let mut state = state_empty();
    state.navigate_back();
    assert_eq!(state.current_screen(), Screen::Dashboard);
    state.navigate_to(Screen::SitesList);
    state.navigate_to(Screen::SiteDetail(4));
    assert_eq!(state.current_screen(), Screen::SiteDetail(4));
    assert_eq!(state.previous_screen(), &vec![Screen::Dashboard, Screen::SitesList]);
    state.navigate_back();
    assert_eq!(state.current_screen(), Screen::SitesList);
    state.navigate_back();
    state.navigate_back();
    assert_eq!(state.current_screen(), Screen::Dashboard);
    assert!(state.previous_screen().is_empty());
}

#[test]
fn lookups_tolerate_dangling_references() {
    let mut state = state_empty();
    assert!(state.add_site(Site::with_id(5, "s".to_string(), 10, 20, "i".to_string(), 1, state_at(0))));
    assert!(state.get_site(5).is_some());
    assert!(state.get_site(6).is_none());
    assert!(state.get_domain_for_site(5).is_none());
    assert!(state.get_node_for_site(5).is_none());
    assert!(state.get_node_for_site(6).is_none());
    assert!(state.add_domain(state_domain(10)));
    assert!(state.add_node(state_node(20)));
    assert_eq!(state.get_domain_for_site(5).unwrap().id, 10);
    assert_eq!(state.get_node_for_site(5).unwrap().id, 20);
    assert!(state.remove_domain(10));
    assert!(state.get_domain_for_site(5).is_none());
    assert_eq!(state.get_node(20).unwrap().name, "n20");
    assert!(state.get_domain(10).is_none());
}

#[test]
fn additions_with_a_taken_identifier_are_refused() {
    let mut state = state_with(1, 1, 1);
    let before = format!("{:?}", state);
    assert!(!state.add_site(state_site(0)));
    assert!(!state.add_domain(state_domain(0)));
    assert!(!state.add_node(state_node(0)));
    assert_eq!(format!("{:?}", state), before);
    assert!(!state.set_site_status(9, SiteStatus::Running));
    assert!(!state.replace_site(9, state_site(9)));
    assert!(!state.replace_node(9, state_node(9)));
    assert!(!state.set_dns_records(9, vec![]));
    assert_eq!(format!("{:?}", state), before);
    assert!(state.replace_site(0, state_site(77)));
    assert_eq!(state.sites()[0].id, 0);
    assert_eq!(state.sites()[0].name, "s77");
}

#[test]
fn registry_entries_end_once() {
    let mut state = state_empty();
    state.register_operation(AsyncOperation::with_id(1, OperationType::DeploySite(9), state_at(1)));
    state.register_operation(AsyncOperation::with_id(2, OperationType::FetchLogs(9), state_at(2)));
    assert!(state.is_in_progress(1) && state.is_in_progress(2));
    assert!(!state.is_in_progress(3));
    assert!(state.get_operation(3).is_none());
    assert!(state.complete_operation(1));
    assert!(!state.complete_operation(1));
    assert!(!state.fail_operation(1, "late".to_string()));
    assert_eq!(state.get_operation(1).unwrap().status, AsyncStatus::Completed);
    assert!(state.fail_operation(2, "why".to_string()));
    assert!(!state.complete_operation(2));
    assert_eq!(state.get_operation(2).unwrap().status, AsyncStatus::Failed("why".to_string()));
    assert!(!state.complete_operation(3));
    // a reused identifier stands for the most recent entry
    state.register_operation(AsyncOperation::with_id(1, OperationType::DeleteSite(9), state_at(3)));
    assert!(state.is_in_progress(1));
    assert_eq!(state.get_operation(1).unwrap().operation_type, OperationType::DeleteSite(9));
    assert_eq!(state.pending_operations()[0].status, AsyncStatus::Completed);
}

#[test]
fn operation_lifecycle() {
    let mut op = AsyncOperation::new(OperationType::NodeHealthCheck(3));
    assert!(op.is_in_progress() && !op.is_completed() && !op.is_failed());
    assert_eq!(op.operation_type, OperationType::NodeHealthCheck(3));
    op.complete();
    assert!(op.is_completed());
    op.fail("x".to_string());
    assert!(op.is_completed() && !op.is_failed());
    let mut op = AsyncOperation::with_id(1, OperationType::FetchMetrics(3), state_at(0));
    op.fail("x".to_string());
    assert!(op.is_failed());
    op.complete();
    assert_eq!(op.status, AsyncStatus::Failed("x".to_string()));
    assert_eq!(op.clone(), op);
    // minted identifiers are version-4 UUIDs and differ from one another
    let a = AsyncOperation::new(OperationType::DeploySite(1));
    let b = AsyncOperation::new(OperationType::DeploySite(1));
    assert_ne!(a.id, b.id);
    assert_eq!((a.id >> 76) & 0xF, 4);
}
