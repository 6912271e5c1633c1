use archon::clock::Timestamp;
use archon::models::domain::{DnsProvider, Domain};
use archon::models::node::{DockerInfo, IpAddress, Node, NodeStatus, TraefikInfo};
use archon::models::site::{ConfigFile, Site, SiteStatus};
use archon::string_map::StringMap;
use archon::text::{decimal, join2, join3, same_text};

fn models_entries(map: &StringMap) -> Vec<(String, String)> {
    let mut entries: Vec<(String, String)> =
        (0..map.len()).map(|i| (map.key_at(i).clone(), map.value_at(i).clone())).collect();
    entries.sort();
    entries
}

fn models_pairs(pairs: &[(&str, &str)]) -> Vec<(String, String)> {
    let mut entries: Vec<(String, String)> =
        pairs.iter().map(|(k, v)| (k.to_string(), v.to_string())).collect();
    entries.sort();
    entries
}

#[test]
fn decimal_prints_numbers() {
    assert_eq!(decimal(0), "0");
    assert_eq!(decimal(7), "7");
    assert_eq!(decimal(10), "10");
    assert_eq!(decimal(65535), "65535");
    assert_eq!(decimal(1_000_000_007), "1000000007");
    assert_eq!(decimal(u64::MAX), "18446744073709551615");
    for n in [1u64, 9, 11, 99, 100, 101, 999, 1000, 123456789] {
        assert_eq!(decimal(n), n.to_string());
    }
}

#[test]
fn text_helpers() {
    assert_eq!(join2("ab", "cd"), "abcd");
    assert_eq!(join2("", ""), "");
    assert_eq!(join3("a", "", "c"), "ac");
    assert!(same_text("abc", "abc"));
    assert!(!same_text("abc", "abd"));
    assert!(!same_text("abc", "ab"));
}

#[test]
fn string_map_behaves_as_a_map() {
    let mut map = StringMap::new();
    assert!(map.is_empty());
    assert_eq!(map.get("a"), None);
    map.insert("a".to_string(), "1".to_string());
    map.insert("b".to_string(), "2".to_string());
    map.insert("a".to_string(), "3".to_string());
    assert_eq!(map.len(), 2);
    assert!(!map.is_empty());
    assert_eq!(map.get("a"), Some(&"3".to_string()));
    assert_eq!(map.get("b"), Some(&"2".to_string()));
    assert_eq!(map.get("c"), None);
    assert_eq!(map.key_at(0), "a");
    assert_eq!(map.value_at(0), "3");
    assert_eq!(map.key_at(1), "b");
    let copy = map.clone();
    map.insert("b".to_string(), "9".to_string());
    assert_eq!(copy.get("b"), Some(&"2".to_string()));
    assert_eq!(models_entries(&copy), models_pairs(&[("a", "3"), ("b", "2")]));
}

#[test]
fn new_site_is_inactive_with_tls() {
    let site = Site::new("blog".to_string(), 1, 2, "nginx".to_string(), 8080);
    assert_eq!(site.name, "blog");
    assert_eq!((site.domain_id, site.node_id), (1, 2));
    assert_eq!(site.docker_image, "nginx");
    assert!(site.environment_vars.is_empty());
    assert_eq!(site.port, 8080);
    assert!(site.ssl_enabled);
    assert!(site.config_files.is_empty());
    assert_eq!(site.status, SiteStatus::Inactive);
    assert_eq!(site.created_at, site.updated_at);
    assert!(site.created_at.secs > 1_600_000_000);
    let other = Site::new("blog".to_string(), 1, 2, "nginx".to_string(), 8080);
    assert_ne!(site.id, other.id);
    let fixed = Site::with_id(7, "x".to_string(), 1, 2, "y".to_string(), 1, Timestamp::new(3, 4));
    assert_eq!(fixed.id, 7);
    assert_eq!(fixed.created_at, Timestamp { secs: 3, nanos: 4 });
    let copy = fixed.clone();
    assert_eq!(format!("{:?}", copy), format!("{:?}", fixed));
}

#[test]
fn traefik_labels_with_tls() {
    let site = Site::with_id(
        0xa1a2a3a4b1b2c1c2d1d2d3d4d5d6d7d8,
        "blog".to_string(),
        1,
        2,
        "nginx".to_string(),
        8080,
        Timestamp::new(0, 0),
    );
    let labels = site.generate_traefik_labels("example.com");
    let r = "site-a1a2a3a4-b1b2-c1c2-d1d2-d3d4d5d6d7d8";
    let expected = [
        ("traefik.enable".to_string(), "true".to_string()),
        (format!("traefik.http.routers.{}.rule", r), "Host(`example.com`)".to_string()),
        (format!("traefik.http.routers.{}.entrypoints", r), "websecure".to_string()),
        (format!("traefik.http.routers.{}.tls", r), "true".to_string()),
        (format!("traefik.http.routers.{}.tls.certresolver", r), "letsencrypt".to_string()),
        (format!("traefik.http.services.{}.loadbalancer.server.port", r), "8080".to_string()),
    ];
    assert_eq!(labels.len(), 6);
    for (key, value) in &expected {
        assert_eq!(labels.get(key), Some(value));
    }
}

#[test]
fn traefik_labels_without_tls() {
    let mut site = Site::with_id(1, "s".to_string(), 1, 2, "i".to_string(), 65535, Timestamp::new(0, 0));
    site.ssl_enabled = false;
    let labels = site.generate_traefik_labels("a.b");
    let r = "site-00000000-0000-0000-0000-000000000001";
    assert_eq!(
        models_entries(&labels),
        models_pairs(&[
            ("traefik.enable", "true"),
            (&format!("traefik.http.routers.{}.rule", r), "Host(`a.b`)"),
            (&format!("traefik.http.routers.{}.entrypoints", r), "web"),
            (&format!("traefik.http.services.{}.loadbalancer.server.port", r), "65535"),
        ])
    );
}

#[test]
fn config_files() {
    let empty = ConfigFile::new("nginx.conf".to_string(), "/etc/nginx/nginx.conf".to_string());
    assert_eq!(empty.name, "nginx.conf");
    assert_eq!(empty.content, "");
    assert_eq!(empty.container_path, "/etc/nginx/nginx.conf");
    let full = ConfigFile::with_content("a".to_string(), "b".to_string(), "c".to_string());
    assert_eq!((full.name.as_str(), full.content.as_str(), full.container_path.as_str()), ("a", "b", "c"));
    assert_eq!(full.clone(), full);
}

#[test]
fn status_names() {
    let sites = [
        (SiteStatus::Inactive, "Inactive"),
        (SiteStatus::Deploying, "Deploying"),
        (SiteStatus::Running, "Running"),
        (SiteStatus::Failed, "Failed"),
        (SiteStatus::Stopped, "Stopped"),
    ];
    for (status, name) in sites {
        assert_eq!(status.to_string(), name);
    }
    let nodes = [
        (NodeStatus::Unknown, "Unknown"),
        (NodeStatus::Online, "Online"),
        (NodeStatus::Offline, "Offline"),
        (NodeStatus::Degraded, "Degraded"),
    ];
    for (status, name) in nodes {
        assert_eq!(status.to_string(), name);
    }
}

#[test]
fn new_domain_has_no_records() {
    let domain = Domain::new("example.com".to_string(), DnsProvider::Manual);
    assert_eq!(domain.name, "example.com");
    assert!(domain.dns_records.is_empty());
    assert!(domain.traefik_enabled);
    assert!(domain.is_manual_dns());
    assert_eq!(domain.provider_name(), "Manual");
    assert!(domain.created_at.secs > 1_600_000_000);
    let cf = Domain::with_id(
        3,
        "a".to_string(),
        DnsProvider::Cloudflare { api_token: "t".to_string(), zone_id: "z".to_string() },
        Timestamp::new(1, 2),
    );
    assert!(!cf.is_manual_dns());
    assert!(!cf.dns_provider.is_manual());
    assert_eq!(cf.provider_name(), "Cloudflare");
    assert_eq!(cf.clone(), cf);
    let r53 = Domain::new(
        "b".to_string(),
        DnsProvider::Route53 {
            access_key: "a".to_string(),
            secret_key: "s".to_string(),
            hosted_zone_id: "h".to_string(),
        },
    );
    assert_eq!(r53.provider_name(), "Route53");
    assert!(!r53.is_manual_dns());
    assert!(DnsProvider::Manual.is_manual());
    assert_ne!(domain.id, r53.id);
}

#[test]
fn new_node_is_unobserved_and_health_is_recorded() {
    let mut node = Node::new("n".to_string(), "https://n".to_string(), "k".to_string(), IpAddress::V4(1));
    assert_eq!((node.name.as_str(), node.api_endpoint.as_str(), node.api_key.as_str()), ("n", "https://n", "k"));
    assert_eq!(node.ip_address, IpAddress::V4(1));
    assert_eq!(node.status, NodeStatus::Unknown);
    assert_eq!(node.docker_info, None);
    assert_eq!(node.traefik_info, None);
    assert_eq!(node.last_health_check, None);
    let id = node.id;
    let docker = DockerInfo::new("24".to_string(), 2, 5);
    assert_eq!((docker.version.as_str(), docker.containers_running, docker.images_count), ("24", 2, 5));
    let traefik = TraefikInfo::new("3".to_string(), 4, 6);
    assert_eq!((traefik.version.as_str(), traefik.routers_count, traefik.services_count), ("3", 4, 6));
    node.update_health(NodeStatus::Degraded, Some(docker.clone()), Some(traefik.clone()));
    assert_eq!(node.status, NodeStatus::Degraded);
    assert_eq!(node.docker_info, Some(docker));
    assert_eq!(node.traefik_info, Some(traefik));
    assert!(node.last_health_check.unwrap().secs > 1_600_000_000);
    node.update_health_at(NodeStatus::Offline, None, None, Timestamp::new(9, 9));
    assert_eq!(node.status, NodeStatus::Offline);
    assert_eq!(node.docker_info, None);
    assert_eq!(node.last_health_check, Some(Timestamp::new(9, 9)));
    assert_eq!(node.id, id);
    assert_eq!(node.name, "n");
    assert_eq!(node.clone(), node);
}
