use archon::api::client::{
    bearer, error_body, is_success, Body, HttpMethod, MAX_IDLE_CONNECTIONS_PER_HOST,
    REQUEST_TIMEOUT_SECONDS,
};
use archon::api::error::ApiError;
use archon::api::node_client::{HealthResponse, NodeClient, ResponseKind};
use archon::clock::Timestamp;
use archon::dns::provider::ProviderError;
use archon::events::actions::Action;
use archon::models::dns::{DnsRecord, DnsRecordType};
use archon::models::node::{DockerInfo, NodeStatus, TraefikInfo};
use archon::models::site::{ConfigFile, Site};
use archon::state::async_ops::{AsyncOperationResult, ContainerMetrics};
use archon::state::notifications::NotificationLevel;
use archon::tasks::{
    delete_finished, deploy_finished, dns_sync_finished, health_check_finished, logs_finished,
    metrics_finished, node_stats_finished, restart_finished, stop_finished,
};

const API_SITE: u128 = 0xa1a2a3a4b1b2c1c2d1d2d3d4d5d6d7d8;
const API_SITE_TEXT: &str = "a1a2a3a4-b1b2-c1c2-d1d2-d3d4d5d6d7d8";

fn api_site() -> Site {
    let mut site = Site::with_id(
        API_SITE,
        "blog".to_string(),
        1,
        2,
        "nginx:1.25".to_string(),
        8080,
        Timestamp::new(0, 0),
    );
    site.environment_vars.insert("RUST_LOG".to_string(), "info".to_string());
    site.config_files.push(ConfigFile::with_content(
        "nginx.conf".to_string(),
        "worker_processes 1;".to_string(),
        "/etc/nginx/nginx.conf".to_string(),
    ));
    site.config_files.push(ConfigFile::new("empty".to_string(), "/tmp/empty".to_string()));
    site
}

fn api_completed(action: Action) -> (u128, Result<AsyncOperationResult, String>) {
    match action {
        Action::AsyncOperationCompleted(id, result) => (id, result),
        other => panic!("not a completion: {:?}", other),
    }
}

#[test]
fn error_messages() {
    assert_eq!(ApiError::NetworkError("refused".to_string()).to_string(), "Network error: refused");
    assert_eq!(ApiError::AuthError("bad key".to_string()).to_string(), "Authentication failed: bad key");
    assert_eq!(ApiError::NotFound("site 1".to_string()).to_string(), "Resource not found: site 1");
    assert_eq!(
        ApiError::ServerError { status: 503, message: "down".to_string() }.to_string(),
        "Server error: 503 - down"
    );
    assert_eq!(ApiError::InvalidResponse("eof".to_string()).to_string(), "Invalid response: eof");
    assert_eq!(ApiError::Timeout.to_string(), "Timeout");
}

#[test]
fn success_is_the_2xx_range() {
    for status in [200u16, 201, 204, 299] {
        assert!(is_success(status));
        assert_eq!(NodeClient::judge(status, None), Ok(()));
    }
    for status in [0u16, 100, 199, 300, 301, 404, 500, 65535] {
        assert!(!is_success(status));
    }
    assert_eq!(
        NodeClient::judge(404, Some("no such site".to_string())),
        Err(ApiError::ServerError { status: 404, message: "no such site".to_string() })
    );
    assert_eq!(
        NodeClient::judge(500, None),
        Err(ApiError::ServerError { status: 500, message: "Unknown error".to_string() })
    );
    assert_eq!(
        NodeClient::server_error(502, Some("".to_string())),
        ApiError::ServerError { status: 502, message: "".to_string() }
    );
    assert_eq!(error_body(None), "Unknown error");
    assert_eq!(REQUEST_TIMEOUT_SECONDS, 30);
    assert_eq!(MAX_IDLE_CONNECTIONS_PER_HOST, 10);
}

#[test]
fn unreadable_answers_name_their_kind() {
    let cases = [
        (ResponseKind::Deployment, "Failed to parse deployment response: eof"),
        (ResponseKind::Status, "Failed to parse status response: eof"),
        (ResponseKind::Health, "Failed to parse health response: eof"),
        (ResponseKind::DockerInfo, "Failed to parse Docker info: eof"),
        (ResponseKind::TraefikInfo, "Failed to parse Traefik info: eof"),
        (ResponseKind::Logs, "Failed to parse logs response: eof"),
        (ResponseKind::Metrics, "Failed to parse metrics response: eof"),
    ];
    for (kind, message) in cases {
        assert_eq!(
            NodeClient::invalid_response(kind, "eof"),
            ApiError::InvalidResponse(message.to_string())
        );
    }
}

#[test]
fn deploy_request_carries_the_site() {
    let client = NodeClient::new();
    let site = api_site();
    let request = client.deploy_site("https://node:8443", "SECRET-REDACTED", &site, "example.com");
    assert_eq!(request.method, HttpMethod::Post);
    assert_eq!(request.url, "https://node:8443/api/v1/sites/deploy");
    assert_eq!(request.authorization, "Bearer SECRET-REDACTED");
    assert_eq!(bearer("k"), "Bearer k");
    let body = match request.body {
        Body::Deploy(body) => body,
        other => panic!("unexpected body {:?}", other),
    };
    assert_eq!(body.name, "blog");
    assert_eq!(body.domain, "example.com");
    assert_eq!(body.docker_image, "nginx:1.25");
    assert_eq!(body.port, 8080);
    assert!(body.ssl_enabled);
    assert_eq!(body.environment_vars.len(), 1);
    assert_eq!(body.environment_vars.get("RUST_LOG"), Some(&"info".to_string()));
    assert_eq!(body.config_files.len(), 2);
    assert_eq!(body.config_files[0].name, "nginx.conf");
    assert_eq!(body.config_files[0].content, "worker_processes 1;");
    assert_eq!(body.config_files[0].container_path, "/etc/nginx/nginx.conf");
    assert_eq!(body.config_files[1].content, "");
    assert_eq!(body.traefik_labels.len(), 6);
    assert_eq!(
        body.traefik_labels.get(&format!("traefik.http.routers.site-{}.rule", API_SITE_TEXT)),
        Some(&"Host(`example.com`)".to_string())
    );
    let update = client.update_site("https://node:8443", "k", &site, "example.com");
    assert_eq!(update.method, HttpMethod::Put);
    assert_eq!(update.url, format!("https://node:8443/api/v1/sites/{}", API_SITE_TEXT));
    assert!(matches!(update.body, Body::Deploy(_)));
}

#[test]
fn plain_requests() {
    let client = NodeClient::default();
    let e = "http://n";
    let site = |rest: &str| format!("http://n/api/v1/sites/{}{}", API_SITE_TEXT, rest);
    let cases = vec![
        (client.get_site_status(e, "k", API_SITE), HttpMethod::Get, site("/status")),
        (client.delete_site(e, "k", API_SITE), HttpMethod::Delete, site("")),
        (client.health_check(e, "k"), HttpMethod::Get, "http://n/api/v1/health".to_string()),
        (client.get_docker_info(e, "k"), HttpMethod::Get, "http://n/api/v1/docker/info".to_string()),
        (client.get_traefik_info(e, "k"), HttpMethod::Get, "http://n/api/v1/traefik/info".to_string()),
        (client.get_container_logs(e, "k", API_SITE, 100), HttpMethod::Get, site("/logs?lines=100")),
        (client.get_container_logs(e, "k", API_SITE, 0), HttpMethod::Get, site("/logs?lines=0")),
        (client.get_container_metrics(e, "k", API_SITE), HttpMethod::Get, site("/metrics")),
        (client.stop_site(e, "k", API_SITE), HttpMethod::Post, site("/stop")),
        (client.restart_site(e, "k", API_SITE), HttpMethod::Post, site("/restart")),
    ];
    for (request, method, url) in cases {
        assert_eq!(request.method, method);
        assert_eq!(request.url, url);
        assert_eq!(request.authorization, "Bearer k");
        assert!(matches!(request.body, Body::Empty));
    }
}

#[test]
fn units_of_work_report_once() {
    let failure = || ApiError::ServerError { status: 500, message: "boom".to_string() };
    let text = "Server error: 500 - boom".to_string();
    assert_eq!(api_completed(deploy_finished(1, 9, Ok(()))), (1, Ok(AsyncOperationResult::SiteDeployed(9))));
    assert_eq!(api_completed(deploy_finished(1, 9, Err(failure()))), (1, Err(text.clone())));
    assert_eq!(api_completed(delete_finished(2, 9, Ok(()))), (2, Ok(AsyncOperationResult::SiteDeleted(9))));
    assert_eq!(api_completed(delete_finished(2, 9, Err(ApiError::Timeout))), (2, Err("Timeout".to_string())));
    for (action, message) in [(stop_finished(3, Ok(())), "Site stopped"), (restart_finished(4, Ok(())), "Site restarted")] {
        match action {
            Action::ShowNotification(n) => {
                assert_eq!(n.message, message);
                assert_eq!(n.level, NotificationLevel::Success);
            }
            other => panic!("unexpected {:?}", other),
        }
    }
    assert_eq!(api_completed(stop_finished(3, Err(failure()))), (3, Err(text.clone())));
    assert_eq!(api_completed(restart_finished(4, Err(failure()))), (4, Err(text.clone())));
    let records = vec![DnsRecord::new(DnsRecordType::A, "w".to_string(), "1.1.1.1".to_string(), 1)];
    assert_eq!(
        api_completed(dns_sync_finished(5, 8, Ok(records.clone()))),
        (5, Ok(AsyncOperationResult::DnsSynced(8, records)))
    );
    assert_eq!(
        api_completed(dns_sync_finished(5, 8, Err(ProviderError::NotImplemented))),
        (5, Err("Route53 provider not yet implemented".to_string()))
    );
    let docker = DockerInfo::new("d".to_string(), 1, 2);
    let traefik = TraefikInfo::new("t".to_string(), 3, 4);
    let health = HealthResponse { status: NodeStatus::Online, docker: Some(docker.clone()), traefik: None };
    assert_eq!(
        api_completed(health_check_finished(6, 7, Ok(health))),
        (6, Ok(AsyncOperationResult::NodeHealth(7, NodeStatus::Online, Some(docker.clone()), None)))
    );
    assert_eq!(api_completed(health_check_finished(6, 7, Err(failure()))), (6, Err(text.clone())));
    assert_eq!(
        api_completed(node_stats_finished(7, 7, Ok(docker.clone()), Ok(traefik.clone()))),
        (7, Ok(AsyncOperationResult::NodeStats(7, docker.clone(), traefik.clone())))
    );
    let stats_failed = (7, Err("Failed to fetch node stats".to_string()));
    assert_eq!(api_completed(node_stats_finished(7, 7, Err(failure()), Ok(traefik))), stats_failed);
    assert_eq!(api_completed(node_stats_finished(7, 7, Ok(docker), Err(failure()))), stats_failed);
    assert_eq!(api_completed(node_stats_finished(7, 7, Err(failure()), Err(failure()))), stats_failed);
    assert_eq!(
        api_completed(logs_finished(8, 9, Ok(vec!["l1".to_string()]))),
        (8, Ok(AsyncOperationResult::Logs(9, vec!["l1".to_string()])))
    );
    assert_eq!(api_completed(logs_finished(8, 9, Err(failure()))), (8, Err(text.clone())));
    let metrics = ContainerMetrics {
        cpu_usage_percent_bits: 1.5f64.to_bits(),
        memory_usage_mb: 1,
        memory_limit_mb: 2,
        network_rx_bytes: 3,
        network_tx_bytes: 4,
    };
    assert_eq!(
        api_completed(metrics_finished(9, 9, Ok(metrics))),
        (9, Ok(AsyncOperationResult::Metrics(9, metrics)))
    );
    assert_eq!(api_completed(metrics_finished(9, 9, Err(failure()))), (9, Err(text)));
}
