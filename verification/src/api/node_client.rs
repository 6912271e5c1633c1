//! Requests to a node and the shapes of its answers.

use crate::api::client::{
    bearer, bearer_text, body_or_unknown, error_body, Body, BodyView, ConfigFileDto,
    ConfigFileDtoView, DeployRequest, DeployRequestView, HttpMethod, HttpRequest, HttpRequestView,
};
use crate::api::error::{ApiError, ApiErrorView};
use crate::ids::{hyphenated_text, id_text, EntityId};
use crate::models::node::{DockerInfo, DockerInfoView, NodeStatus, TraefikInfo, TraefikInfoView};
use crate::models::site::{ConfigFileView, Site, SiteStatus, SiteView};
use crate::text::{decimal, decimal_text, join2, join3};
use vstd::prelude::*;
use vstd::string::*;

verus! {

/// A node's answer to a deployment.
#[derive(Debug, PartialEq, Eq)]
pub struct DeploymentResponse {
    pub site_id: EntityId,
    pub container_id: String,
    pub status: SiteStatus,
}

/// A node's answer to a status query.
#[derive(Clone, Copy, Debug, PartialEq, Eq, Structural)]
pub struct StatusResponse {
    pub status: SiteStatus,
}

/// A node's answer to a health check.
#[derive(Debug, PartialEq, Eq)]
pub struct HealthResponse {
    pub status: NodeStatus,
    pub docker: Option<DockerInfo>,
    pub traefik: Option<TraefikInfo>,
}

/// The mathematical value of a `HealthResponse`.
pub ghost struct HealthResponseView {
    pub status: NodeStatus,
    pub docker: Option<DockerInfoView>,
    pub traefik: Option<TraefikInfoView>,
}

impl View for HealthResponse {
    type V = HealthResponseView;

    open spec fn view(&self) -> HealthResponseView {
        HealthResponseView {
            status: self.status,
            docker: self.docker.deep_view(),
            traefik: self.traefik.deep_view(),
        }
    }
}

/// The answers that a node gives in a shape of their own.
#[derive(Clone, Copy, Debug, PartialEq, Eq, Structural)]
pub enum ResponseKind {
    Deployment,
    Status,
    Health,
    DockerInfo,
    TraefikInfo,
    Logs,
    Metrics,
}

impl ResponseKind {
    /// How the kind of answer is called where it could not be read.
    pub open spec fn name(self) -> Seq<char> {
        match self {
            ResponseKind::Deployment => "deployment response"@,
            ResponseKind::Status => "status response"@,
            ResponseKind::Health => "health response"@,
            ResponseKind::DockerInfo => "Docker info"@,
            ResponseKind::TraefikInfo => "Traefik info"@,
            ResponseKind::Logs => "logs response"@,
            ResponseKind::Metrics => "metrics response"@,
        }
    }

    /// What is said of an answer of this kind that could not be read, given
    /// the reader's own account.
    pub open spec fn parse_failure(self, reason: Seq<char>) -> Seq<char> {
        "Failed to parse "@ + self.name() + ": "@ + reason
    }
}

/// The file as it is sent to a node.
pub open spec fn file_dto(file: ConfigFileView) -> ConfigFileDtoView {
    ConfigFileDtoView {
        name: file.name,
        content: file.content,
        container_path: file.container_path,
    }
}

/// What a node is told to deploy for a site under a domain: the site's
/// settings, its files, and the labels that configure the reverse proxy.
pub open spec fn deploy_body(site: SiteView, domain_name: Seq<char>) -> DeployRequestView {
    DeployRequestView {
        name: site.name,
        domain: domain_name,
        docker_image: site.docker_image,
        environment_vars: site.environment_vars,
        port: site.port,
        ssl_enabled: site.ssl_enabled,
        config_files: Seq::new(site.config_files.len(), |i: int| file_dto(site.config_files[i])),
        traefik_labels: site.traefik_labels(domain_name),
    }
}

/// The address of something about a site on a node.
pub open spec fn site_url(endpoint: Seq<char>, site_id: EntityId, rest: Seq<char>) -> Seq<char> {
    endpoint + "/api/v1/sites/"@ + hyphenated_text(site_id) + rest
}

/// A request without a body.
pub open spec fn plain_request(
    method: HttpMethod,
    url: Seq<char>,
    api_key: Seq<char>,
) -> HttpRequestView {
    HttpRequestView { method, url, authorization: bearer_text(api_key), body: BodyView::Empty }
}

/// The client of the node API. It lays down what is sent for each call and
/// how each answer is judged; sending is left to the caller.
#[derive(Clone, Copy, Debug)]
pub struct NodeClient {}

impl NodeClient {
    /// The client; it holds nothing.
    pub fn new() -> (client: Self)
        ensures
            client == (NodeClient {  }),
    {
        NodeClient {  }
    }

    fn plain(method: HttpMethod, url: String, api_key: &str) -> (request: HttpRequest)
        ensures
            request@ == plain_request(method, url@, api_key@),
    {
        HttpRequest { method, url, authorization: bearer(api_key), body: Body::Empty }
    }

    fn site_address(node_endpoint: &str, site_id: EntityId, rest: &str) -> (url: String)
        ensures
            url@ == site_url(node_endpoint@, site_id, rest@),
    {
        let id = id_text(site_id);
        join3(node_endpoint, "/api/v1/sites/", id.as_str()).concat(rest)
    }

    /// The body of a deployment.
    pub fn deploy_request(site: &Site, domain_name: &str) -> (body: DeployRequest)
        ensures
            body@ == deploy_body(site@, domain_name@),
    {
        let mut config_files: Vec<ConfigFileDto> = Vec::new();
        let mut i: usize = 0;
        while i < site.config_files.len()
            invariant
                i <= site.config_files.len(),
                config_files.len() == i,
                forall|k: int| 0 <= k < i ==> config_files[k]@ == file_dto(site.config_files[k]@),
            decreases site.config_files.len() - i,
        {
            let file = &site.config_files[i];
            config_files.push(
                ConfigFileDto {
                    name: file.name.clone(),
                    content: file.content.clone(),
                    container_path: file.container_path.clone(),
                },
            );
            i += 1;
        }
        let body = DeployRequest {
            name: site.name.clone(),
            domain: String::from_str(domain_name),
            docker_image: site.docker_image.clone(),
            environment_vars: site.environment_vars.clone(),
            port: site.port,
            ssl_enabled: site.ssl_enabled,
            config_files,
            traefik_labels: site.generate_traefik_labels(domain_name),
        };
        assert(body@.config_files =~= deploy_body(site@, domain_name@).config_files);
        body
    }

    /// Deploys a site: the deployment is posted to the node.
    pub fn deploy_site(&self, node_endpoint: &str, api_key: &str, site: &Site, domain_name: &str) -> (request:
        HttpRequest)
        ensures
            request@ == (HttpRequestView {
                method: HttpMethod::Post,
                url: node_endpoint@ + "/api/v1/sites/deploy"@,
                authorization: bearer_text(api_key@),
                body: BodyView::Deploy(deploy_body(site@, domain_name@)),
            }),
    {
        HttpRequest {
            method: HttpMethod::Post,
            url: join2(node_endpoint, "/api/v1/sites/deploy"),
            authorization: bearer(api_key),
            body: Body::Deploy(Self::deploy_request(site, domain_name)),
        }
    }

    /// Updates a site's configuration: the deployment is put under the
    /// site's address.
    pub fn update_site(&self, node_endpoint: &str, api_key: &str, site: &Site, domain_name: &str) -> (request:
        HttpRequest)
        ensures
            request@ == (HttpRequestView {
                method: HttpMethod::Put,
                url: site_url(node_endpoint@, site.id, Seq::empty()),
                authorization: bearer_text(api_key@),
                body: BodyView::Deploy(deploy_body(site@, domain_name@)),
            }),
    {
        let url = Self::site_address(node_endpoint, site.id, "");
        proof {
            reveal_strlit("");
            assert(""@ =~= Seq::<char>::empty());
        }
        HttpRequest {
            method: HttpMethod::Put,
            url,
            authorization: bearer(api_key),
            body: Body::Deploy(Self::deploy_request(site, domain_name)),
        }
    }

    /// Asks for a site's status.
    pub fn get_site_status(&self, node_endpoint: &str, api_key: &str, site_id: EntityId) -> (request:
        HttpRequest)
        ensures
            request@ == plain_request(
                HttpMethod::Get,
                site_url(node_endpoint@, site_id, "/status"@),
                api_key@,
            ),
    {
        Self::plain(
            HttpMethod::Get,
            Self::site_address(node_endpoint, site_id, "/status"),
            api_key,
        )
    }

    /// Deletes a site from a node.
    pub fn delete_site(&self, node_endpoint: &str, api_key: &str, site_id: EntityId) -> (request:
        HttpRequest)
        ensures
            request@ == plain_request(
                HttpMethod::Delete,
                site_url(node_endpoint@, site_id, Seq::empty()),
                api_key@,
            ),
    {
        proof {
            reveal_strlit("");
            assert(""@ =~= Seq::<char>::empty());
        }
        Self::plain(HttpMethod::Delete, Self::site_address(node_endpoint, site_id, ""), api_key)
    }

    /// Checks a node's health.
    pub fn health_check(&self, node_endpoint: &str, api_key: &str) -> (request: HttpRequest)
        ensures
            request@ == plain_request(
                HttpMethod::Get,
                node_endpoint@ + "/api/v1/health"@,
                api_key@,
            ),
    {
        Self::plain(HttpMethod::Get, join2(node_endpoint, "/api/v1/health"), api_key)
    }

    /// Asks for a node's container-engine report.
    pub fn get_docker_info(&self, node_endpoint: &str, api_key: &str) -> (request: HttpRequest)
        ensures
            request@ == plain_request(
                HttpMethod::Get,
                node_endpoint@ + "/api/v1/docker/info"@,
                api_key@,
            ),
    {
        Self::plain(HttpMethod::Get, join2(node_endpoint, "/api/v1/docker/info"), api_key)
    }

    /// Asks for a node's reverse-proxy report.
    pub fn get_traefik_info(&self, node_endpoint: &str, api_key: &str) -> (request: HttpRequest)
        ensures
            request@ == plain_request(
                HttpMethod::Get,
                node_endpoint@ + "/api/v1/traefik/info"@,
                api_key@,
            ),
    {
        Self::plain(HttpMethod::Get, join2(node_endpoint, "/api/v1/traefik/info"), api_key)
    }

    /// Asks for the last lines of a site's logs.
    pub fn get_container_logs(
        &self,
        node_endpoint: &str,
        api_key: &str,
        site_id: EntityId,
        lines: usize,
    ) -> (request: HttpRequest)
        ensures
            request@ == plain_request(
                HttpMethod::Get,
                site_url(node_endpoint@, site_id, "/logs?lines="@ + decimal_text(lines as nat)),
                api_key@,
            ),
    {
        let count = decimal(lines as u64);
        let rest = join2("/logs?lines=", count.as_str());
        Self::plain(
            HttpMethod::Get,
            Self::site_address(node_endpoint, site_id, rest.as_str()),
            api_key,
        )
    }

    /// Asks for a site's resource usage.
    pub fn get_container_metrics(&self, node_endpoint: &str, api_key: &str, site_id: EntityId) -> (request:
        HttpRequest)
        ensures
            request@ == plain_request(
                HttpMethod::Get,
                site_url(node_endpoint@, site_id, "/metrics"@),
                api_key@,
            ),
    {
        Self::plain(
            HttpMethod::Get,
            Self::site_address(node_endpoint, site_id, "/metrics"),
            api_key,
        )
    }

    /// Stops a site.
    pub fn stop_site(&self, node_endpoint: &str, api_key: &str, site_id: EntityId) -> (request:
        HttpRequest)
        ensures
            request@ == plain_request(
                HttpMethod::Post,
                site_url(node_endpoint@, site_id, "/stop"@),
                api_key@,
            ),
    {
        Self::plain(HttpMethod::Post, Self::site_address(node_endpoint, site_id, "/stop"), api_key)
    }

    /// Restarts a site.
    pub fn restart_site(&self, node_endpoint: &str, api_key: &str, site_id: EntityId) -> (request:
        HttpRequest)
        ensures
            request@ == plain_request(
                HttpMethod::Post,
                site_url(node_endpoint@, site_id, "/restart"@),
                api_key@,
            ),
    {
        Self::plain(
            HttpMethod::Post,
            Self::site_address(node_endpoint, site_id, "/restart"),
            api_key,
        )
    }

    /// The failure that an answer with a status outside the 2xx range stands
    /// for: it carries the status and the body, or a fixed text where the
    /// body could not be read.
    pub fn server_error(status: u16, body: Option<String>) -> (error: ApiError)
        ensures
            error@ == (ApiErrorView::ServerError {
                status,
                message: body_or_unknown(body.deep_view()),
            }),
    {
        ApiError::ServerError { status, message: error_body(body) }
    }

    /// The failure that an answer in an unexpected shape stands for, given
    /// the reader's own account of what was wrong.
    pub fn invalid_response(kind: ResponseKind, reason: &str) -> (error: ApiError)
        ensures
            error@ == ApiErrorView::InvalidResponse(kind.parse_failure(reason@)),
    {
        let name = match kind {
            ResponseKind::Deployment => "deployment response",
            ResponseKind::Status => "status response",
            ResponseKind::Health => "health response",
            ResponseKind::DockerInfo => "Docker info",
            ResponseKind::TraefikInfo => "Traefik info",
            ResponseKind::Logs => "logs response",
            ResponseKind::Metrics => "metrics response",
        };
        ApiError::InvalidResponse(join3("Failed to parse ", name, ": ").concat(reason))
    }

    /// Judges an answer that carries nothing: it is a success exactly if its
    /// status is in the 2xx range.
    pub fn judge(status: u16, body: Option<String>) -> (r: Result<(), ApiError>)
        ensures
            crate::api::client::status_is_success(status) ==> r is Ok,
            !crate::api::client::status_is_success(status) ==> r is Err && r->Err_0@ == (
            ApiErrorView::ServerError { status, message: body_or_unknown(body.deep_view()) }),
    {
        if crate::api::client::is_success(status) {
            Ok(())
        } else {
            Err(Self::server_error(status, body))
        }
    }
}

impl Default for NodeClient {
    fn default() -> (client: Self)
        ensures
            client == (NodeClient {  }),
    {
        NodeClient::new()
    }
}

} // verus!
