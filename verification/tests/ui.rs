use archon::clock::Timestamp;
use archon::config::schema::ArchonConfig;
use archon::events::actions::Action;
use archon::events::handler::{
    handle_dashboard_keys, handle_domains_list_keys, handle_event, handle_key_event,
    handle_nodes_list_keys, handle_sites_list_keys, Event, KeyCode, KeyEvent, KeyEventKind,
    KeyModifiers,
};
use archon::models::domain::{DnsProvider, Domain};
use archon::models::node::{DockerInfo, IpAddress, Node, NodeStatus};
use archon::models::site::{Site, SiteStatus};
use archon::state::app_state::AppState;
use archon::state::async_ops::{AsyncOperation, OperationType};
use archon::state::notifications::NotificationLevel;
use archon::ui::render::{render, render_main_content, render_status, MainContent};
use archon::ui::router::Screen;
use archon::ui::screens::{dashboard, domains, help, nodes, sites};
use archon::ui::theme::{Color, Style, Theme};

fn ui_key(code: KeyCode) -> KeyEvent {
    KeyEvent { code, modifiers: KeyModifiers::none(), kind: KeyEventKind::Press }
}

fn ui_state() -> AppState {
    let mut state = AppState::new("p".to_string(), ArchonConfig::default()).unwrap();
    let at = Timestamp::new(0, 0);
    let providers = vec![
        DnsProvider::Manual,
        DnsProvider::Cloudflare { api_token: "t".to_string(), zone_id: "z".to_string() },
        DnsProvider::Route53 {
            access_key: "a".to_string(),
            secret_key: "s".to_string(),
            hosted_zone_id: "h".to_string(),
        },
    ];
    for (i, provider) in providers.into_iter().enumerate() {
        state.add_domain(Domain::with_id(i as u128, format!("d{}.org", i), provider, at));
    }
    for i in 0..7u128 {
        state.add_node(Node::with_id(
            i,
            format!("node{}", i),
            format!("https://n{}", i),
            "k".to_string(),
            IpAddress::V4(i as u32),
        ));
    }
    state.set_node_health(0, NodeStatus::Online, Some(DockerInfo::new("d".to_string(), 12, 3)), None, at);
    state.set_node_health(1, NodeStatus::Offline, None, None, at);
    state.set_node_health(2, NodeStatus::Degraded, None, None, at);
    state.set_node_health(5, NodeStatus::Online, None, None, at);
    for i in 0..6u128 {
        state.add_site(Site::with_id(i, format!("site{}", i), i % 2, 0, "img".to_string(), 8000 + i as u16, at));
    }
    state.set_site_status(0, SiteStatus::Running);
    state.set_site_status(1, SiteStatus::Failed);
    state.set_site_status(2, SiteStatus::Running);
    state.set_site_status(3, SiteStatus::Deploying);
    state.set_site_status(4, SiteStatus::Stopped);
    state
}

#[test]
fn theme_styles() {
    let theme = Theme::new();
    assert_eq!(theme, Theme::default());
    assert_eq!(
        theme,
        Theme {
            primary: Color::Blue,
            success: Color::Green,
            warning: Color::Yellow,
            error: Color::Red,
            background: Color::Reset,
            text: Color::White,
            selected: Color::Cyan,
        }
    );
    assert_eq!(theme.primary_style(), Style { fg: Color::Blue, bold: false });
    assert_eq!(theme.success_style(), Style { fg: Color::Green, bold: false });
    assert_eq!(theme.warning_style(), Style { fg: Color::Yellow, bold: false });
    assert_eq!(theme.error_style(), Style { fg: Color::Red, bold: false });
    assert_eq!(theme.selected_style(), Style { fg: Color::Cyan, bold: true });
    assert_eq!(theme.title_style(), Style { fg: Color::Blue, bold: true });
}

#[test]
fn status_bar_shows_the_oldest_notification_or_the_counts() {
    let mut state = ui_state();
    state.register_operation(AsyncOperation::with_id(1, OperationType::DeploySite(0), Timestamp::new(0, 0)));
    assert_eq!(render_status(&state), "Ready | Pending ops: 1 | Sites: 6 | Domains: 3 | Nodes: 7");
    state.add_notification("first".to_string(), NotificationLevel::Info);
    state.add_notification("second".to_string(), NotificationLevel::Info);
    assert_eq!(render_status(&state), "first");
    state.dismiss_notification();
    assert_eq!(render_status(&state), "second");
    let empty = AppState::new("p".to_string(), ArchonConfig::default()).unwrap();
    assert_eq!(render_status(&empty), "Ready | Pending ops: 0 | Sites: 0 | Domains: 0 | Nodes: 0");
}

#[test]
fn frame_has_header_menu_content_and_status() {
    let mut state = ui_state();
    let frame = render(&state);
    assert_eq!(frame.header, "ARCHON - Web Server Manager                      [?] Help  [q] Quit");
    assert_eq!(frame.header_style, Style { fg: Color::Blue, bold: true });
    assert_eq!(frame.menu, " [1] Dashboard  [2] Sites  [3] Domains  [4] Nodes");
    assert!(matches!(frame.content, MainContent::Dashboard(_)));
    assert_eq!(frame.status, "Ready | Pending ops: 0 | Sites: 6 | Domains: 3 | Nodes: 7");
    state.navigate_to(Screen::Help);
    match render_main_content(&state) {
        MainContent::Help(screen) => {
            assert_eq!(screen.title, "Help - Keybindings");
            assert_eq!(screen.lines.len(), 41);
            assert_eq!(screen.lines[0], "ARCHON - Web Server Manager");
            assert_eq!(screen.lines[14], "  ↑ / k         - Move up");
            assert_eq!(screen.lines[40], "Press Esc to return to previous screen");
            assert_eq!(screen.lines, help::help_lines());
            assert_eq!(help::render().lines, screen.lines);
        }
        other => panic!("unexpected content {:?}", other),
    }
    state.navigate_to(Screen::SitesList);
    match render_main_content(&state) {
        MainContent::Placeholder { title, text } => {
            assert_eq!(title, "Coming Soon");
            assert_eq!(
                text,
                "Screen: SitesList\n\nThis screen is not yet implemented.\n\nPress Esc to go back or 1-4 to navigate."
            );
        }
        other => panic!("unexpected content {:?}", other),
    }
    assert_eq!(Screen::NodeEdit(1).debug(), "NodeEdit(00000000-0000-0000-0000-000000000001)");
    assert_eq!(
        Screen::SiteDetail(0xa1a2a3a4b1b2c1c2d1d2d3d4d5d6d7d8).debug(),
        "SiteDetail(a1a2a3a4-b1b2-c1c2-d1d2-d3d4d5d6d7d8)"
    );
    assert_eq!(Screen::DomainDnsEditor(2).debug(), "DomainDnsEditor(00000000-0000-0000-0000-000000000002)");
    assert_eq!(Screen::Dashboard.debug(), "Dashboard");
}

#[test]
fn dashboard_summaries() {
    let state = ui_state();
    assert_eq!(
        dashboard::render_sites_summary(&state),
        vec![
            "Total Sites: 6",
            "Running: 2",
            "Failed: 1",
            "",
            "Recent:",
            "  • site5",
            "  • site4",
            "  • site3",
            "  • site2",
            "  • site1",
        ]
    );
    assert_eq!(
        dashboard::render_nodes_summary(&state),
        vec![
            "Total Nodes: 7",
            "Online: 2",
            "Offline: 1",
            "",
            "Nodes:",
            "  🟢 node0",
            "  🔴 node1",
            "  🟡 node2",
            "  ⚪ node3",
            "  ⚪ node4",
        ]
    );
    assert_eq!(
        dashboard::render_domains_summary(&state),
        vec![
            "Total Domains: 3",
            "Manual DNS: 1",
            "API Managed: 2",
            "",
            "Domains:",
            "  • d0.org (Manual)",
            "  • d1.org (Cloudflare)",
            "  • d2.org (Route53)",
        ]
    );
    let all = dashboard::render(&state);
    assert_eq!(all.sites.title, "Sites");
    assert_eq!(all.nodes.title, "Nodes");
    assert_eq!(all.domains.title, "Domains");
    assert_eq!(all.sites.lines, dashboard::render_sites_summary(&state));
    assert_eq!(dashboard::COLUMN_PERCENTAGES, [33, 33, 34]);
    let empty = AppState::new("p".to_string(), ArchonConfig::default()).unwrap();
    assert_eq!(
        dashboard::render_sites_summary(&empty),
        vec!["Total Sites: 0", "Running: 0", "Failed: 0", "", "Recent:"]
    );
}

#[test]
fn list_screens() {
    let mut state = ui_state();
    state.navigate_to(Screen::SitesList);
    state.select_next();
    let list = sites::list::render(&state);
    assert_eq!(list.title, "Sites - [c]reate [e]dit [d]elete [Enter]detail [r]edeploy");
    assert_eq!(list.header, vec!["Name", "Domain", "Node", "Status", "SSL", "Port"]);
    assert_eq!(list.selected, 1);
    assert_eq!(list.rows.len(), 6);
    let row = &list.rows[1];
    assert_eq!(
        (row.name.as_str(), row.domain.as_str(), row.node.as_str(), row.status.as_str(), row.ssl.as_str(), row.port.as_str()),
        ("site1", "d1.org", "node0", "❌ Failed", "✓", "8001")
    );
    assert_eq!(list.rows[0].status, "🟢 Running");
    assert_eq!(list.rows[3].status, "🟡 Deploying");
    assert_eq!(list.rows[4].status, "🔴 Stopped");
    assert_eq!(list.rows[5].status, "⚪ Inactive");
    state.remove_domain(1);
    state.remove_node(0);
    let list = sites::list::render(&state);
    assert_eq!((list.rows[1].domain.as_str(), list.rows[1].node.as_str()), ("Unknown", "Unknown"));
    assert_eq!(list.rows[0].domain, "d0.org");

    let state = ui_state();
    let list = nodes::list::render(&state);
    assert_eq!(list.title, "Nodes - [c]reate [e]dit [d]elete [Enter]detail [h]ealth check");
    assert_eq!(list.header, vec!["Name", "IP Address", "Status", "Containers", "API Endpoint"]);
    assert_eq!(list.rows.len(), 7);
    let row = &list.rows[0];
    assert_eq!(
        (row.name.as_str(), row.ip_address, row.status.as_str(), row.containers.as_str(), row.api_endpoint.as_str()),
        ("node0", IpAddress::V4(0), "🟢 Online", "12", "https://n0")
    );
    assert_eq!(list.rows[1].containers, "?");
    assert_eq!(list.rows[3].status, "⚪ Unknown");

    let list = domains::list::render(&state);
    assert_eq!(list.title, "Domains - [c]reate [e]dit DNS [d]elete [s]ync");
    assert_eq!(list.header, vec!["Domain Name", "DNS Provider", "Records", "Sites"]);
    let cells: Vec<(&str, &str, &str, &str)> = list
        .rows
        .iter()
        .map(|r| (r.name.as_str(), r.provider.as_str(), r.records.as_str(), r.sites.as_str()))
        .collect();
    assert_eq!(
        cells,
        vec![
            ("d0.org", "⚠️  Manual", "0", "3"),
            ("d1.org", "Cloudflare", "0", "3"),
            ("d2.org", "Route53", "0", "0"),
        ]
    );

    let empty = AppState::new("p".to_string(), ArchonConfig::default()).unwrap();
    let list = sites::list::render(&empty);
    assert_eq!(list.title, "Sites - No sites configured");
    assert!(list.header.is_empty() && list.rows.is_empty());
    assert_eq!(nodes::list::render(&empty).title, "Nodes - No nodes configured");
    assert_eq!(domains::list::render(&empty).title, "Domains - No domains configured");
}

#[test]
fn global_keys() {
    for screen in [Screen::Dashboard, Screen::SitesList, Screen::Help, Screen::NodeEdit(3)] {
        let quit = KeyEvent { code: KeyCode::Char('c'), modifiers: KeyModifiers::control(), kind: KeyEventKind::Press };
        assert!(matches!(handle_key_event(quit, &screen), Action::Quit));
        assert!(matches!(handle_key_event(ui_key(KeyCode::Char('q')), &screen), Action::Quit));
        assert!(matches!(
            handle_key_event(ui_key(KeyCode::Char('?')), &screen),
            Action::NavigateTo(Screen::Help)
        ));
        assert!(matches!(handle_key_event(ui_key(KeyCode::Esc), &screen), Action::NavigateBack));
        let mut shifted = ui_key(KeyCode::Esc);
        shifted.modifiers.shift = true;
        assert!(matches!(handle_key_event(shifted, &screen), Action::NavigateBack));
    }
    // with another modifier the letters are not the global keys
    let mut key = ui_key(KeyCode::Char('q'));
    key.modifiers.alt = true;
    assert!(matches!(handle_key_event(key, &Screen::Help), Action::Noop));
    let mut key = ui_key(KeyCode::Char('c'));
    key.modifiers.control = true;
    key.modifiers.shift = true;
    assert!(matches!(handle_key_event(key, &Screen::Help), Action::Noop));
    // on a list, control-shift-c falls through to the list's own `c`
    assert!(matches!(
        handle_key_event(key, &Screen::SitesList),
        Action::NavigateTo(Screen::SiteCreate)
    ));
}

#[test]
fn screen_keys() {
    let dash = |c: char| handle_dashboard_keys(ui_key(KeyCode::Char(c)));
    assert!(matches!(dash('1'), Action::NavigateTo(Screen::Dashboard)));
    assert!(matches!(dash('d'), Action::NavigateTo(Screen::Dashboard)));
    assert!(matches!(dash('2'), Action::NavigateTo(Screen::SitesList)));
    assert!(matches!(dash('s'), Action::NavigateTo(Screen::SitesList)));
    assert!(matches!(dash('3'), Action::NavigateTo(Screen::DomainsList)));
    assert!(matches!(dash('4'), Action::NavigateTo(Screen::NodesList)));
    assert!(matches!(dash('n'), Action::NavigateTo(Screen::NodesList)));
    assert!(matches!(dash('r'), Action::LoadConfig));
    assert!(matches!(dash('x'), Action::Noop));
    assert!(matches!(handle_dashboard_keys(ui_key(KeyCode::Up)), Action::Noop));
    for (handler, create) in [
        (handle_sites_list_keys as fn(KeyEvent) -> Action, Screen::SiteCreate),
        (handle_domains_list_keys, Screen::DomainCreate),
        (handle_nodes_list_keys, Screen::NodeCreate),
    ] {
        assert!(matches!(handler(ui_key(KeyCode::Up)), Action::SelectPrevious));
        assert!(matches!(handler(ui_key(KeyCode::Char('k'))), Action::SelectPrevious));
        assert!(matches!(handler(ui_key(KeyCode::Down)), Action::SelectNext));
        assert!(matches!(handler(ui_key(KeyCode::Char('j'))), Action::SelectNext));
        match handler(ui_key(KeyCode::Char('c'))) {
            Action::NavigateTo(screen) => assert_eq!(screen, create),
            other => panic!("unexpected {:?}", other),
        }
        assert!(matches!(handler(ui_key(KeyCode::Char('1'))), Action::Noop));
        assert!(matches!(handler(ui_key(KeyCode::Other)), Action::Noop));
    }
    assert!(matches!(
        handle_key_event(ui_key(KeyCode::Char('j')), &Screen::DomainsList),
        Action::SelectNext
    ));
    assert!(matches!(handle_key_event(ui_key(KeyCode::Char('j')), &Screen::Dashboard), Action::Noop));
    assert!(matches!(handle_key_event(ui_key(KeyCode::Char('1')), &Screen::SiteCreate), Action::Noop));
}

#[test]
fn only_pressed_keys_count() {
    let mut key = ui_key(KeyCode::Char('q'));
    assert!(matches!(handle_event(Event::Key(key), &Screen::Dashboard), Action::Quit));
    key.kind = KeyEventKind::Release;
    assert!(matches!(handle_event(Event::Key(key), &Screen::Dashboard), Action::Noop));
    key.kind = KeyEventKind::Repeat;
    assert!(matches!(handle_event(Event::Key(key), &Screen::Dashboard), Action::Noop));
    assert!(matches!(handle_event(Event::Other, &Screen::Dashboard), Action::Noop));
    assert!(matches!(
        handle_event(Event::Key(ui_key(KeyCode::Char('3'))), &Screen::Dashboard),
        Action::NavigateTo(Screen::DomainsList)
    ));
}
