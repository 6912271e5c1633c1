//! Requests as values: what is to be sent over HTTP, described without
//! sending it.

use crate::string_map::StringMap;
use vstd::prelude::*;
use vstd::string::*;

verus! {

/// The seconds after which a call is given up.
pub const REQUEST_TIMEOUT_SECONDS: u64 = 30;

/// The most idle connections kept open to one host.
pub const MAX_IDLE_CONNECTIONS_PER_HOST: usize = 10;

/// The method of a request.
#[derive(Clone, Copy, Debug, PartialEq, Eq, Structural)]
pub enum HttpMethod {
    Get,
    Post,
    Put,
    Delete,
}

/// A file of a deployment, as it is sent to a node.
#[derive(Debug, PartialEq, Eq)]
pub struct ConfigFileDto {
    pub name: String,
    pub content: String,
    pub container_path: String,
}

/// The mathematical value of a `ConfigFileDto`.
pub ghost struct ConfigFileDtoView {
    pub name: Seq<char>,
    pub content: Seq<char>,
    pub container_path: Seq<char>,
}

impl View for ConfigFileDto {
    type V = ConfigFileDtoView;

    open spec fn view(&self) -> ConfigFileDtoView {
        ConfigFileDtoView {
            name: self.name@,
            content: self.content@,
            container_path: self.container_path@,
        }
    }
}

impl DeepView for ConfigFileDto {
    type V = ConfigFileDtoView;

    open spec fn deep_view(&self) -> ConfigFileDtoView {
        self@
    }
}

/// What a node is told to deploy.
#[derive(Debug)]
pub struct DeployRequest {
    pub name: String,
    pub domain: String,
    pub docker_image: String,
    pub environment_vars: StringMap,
    pub port: u16,
    pub ssl_enabled: bool,
    pub config_files: Vec<ConfigFileDto>,
    pub traefik_labels: StringMap,
}

/// The mathematical value of a `DeployRequest`.
pub ghost struct DeployRequestView {
    pub name: Seq<char>,
    pub domain: Seq<char>,
    pub docker_image: Seq<char>,
    pub environment_vars: Map<Seq<char>, Seq<char>>,
    pub port: u16,
    pub ssl_enabled: bool,
    pub config_files: Seq<ConfigFileDtoView>,
    pub traefik_labels: Map<Seq<char>, Seq<char>>,
}

impl View for DeployRequest {
    type V = DeployRequestView;

    open spec fn view(&self) -> DeployRequestView {
        DeployRequestView {
            name: self.name@,
            domain: self.domain@,
            docker_image: self.docker_image@,
            environment_vars: self.environment_vars@,
            port: self.port,
            ssl_enabled: self.ssl_enabled,
            config_files: self.config_files.deep_view(),
            traefik_labels: self.traefik_labels@,
        }
    }
}

impl DeepView for DeployRequest {
    type V = DeployRequestView;

    open spec fn deep_view(&self) -> DeployRequestView {
        self@
    }
}

/// A DNS record in the shape of the Cloudflare API.
#[derive(Debug, PartialEq, Eq)]
pub struct CloudflareDnsRecord {
    pub id: Option<String>,
    pub record_type: String,
    pub name: String,
    pub content: String,
    pub ttl: u32,
    pub proxied: bool,
}

/// The mathematical value of a `CloudflareDnsRecord`.
pub ghost struct CloudflareDnsRecordView {
    pub id: Option<Seq<char>>,
    pub record_type: Seq<char>,
    pub name: Seq<char>,
    pub content: Seq<char>,
    pub ttl: u32,
    pub proxied: bool,
}

impl View for CloudflareDnsRecord {
    type V = CloudflareDnsRecordView;

    open spec fn view(&self) -> CloudflareDnsRecordView {
        CloudflareDnsRecordView {
            id: self.id.deep_view(),
            record_type: self.record_type@,
            name: self.name@,
            content: self.content@,
            ttl: self.ttl,
            proxied: self.proxied,
        }
    }
}

impl DeepView for CloudflareDnsRecord {
    type V = CloudflareDnsRecordView;

    open spec fn deep_view(&self) -> CloudflareDnsRecordView {
        self@
    }
}

/// What a request carries as its JSON body.
#[derive(Debug)]
pub enum Body {
    Empty,
    Deploy(DeployRequest),
    DnsRecord(CloudflareDnsRecord),
}

/// The mathematical value of a `Body`.
pub ghost enum BodyView {
    Empty,
    Deploy(DeployRequestView),
    DnsRecord(CloudflareDnsRecordView),
}

impl View for Body {
    type V = BodyView;

    open spec fn view(&self) -> BodyView {
        match self {
            Body::Empty => BodyView::Empty,
            Body::Deploy(request) => BodyView::Deploy(request@),
            Body::DnsRecord(record) => BodyView::DnsRecord(record@),
        }
    }
}

/// A request to be sent: where, how, with which credential and what body.
#[derive(Debug)]
pub struct HttpRequest {
    pub method: HttpMethod,
    pub url: String,
    /// The value of the `Authorization` header.
    pub authorization: String,
    pub body: Body,
}

/// The mathematical value of an `HttpRequest`.
pub ghost struct HttpRequestView {
    pub method: HttpMethod,
    pub url: Seq<char>,
    pub authorization: Seq<char>,
    pub body: BodyView,
}

impl View for HttpRequest {
    type V = HttpRequestView;

    open spec fn view(&self) -> HttpRequestView {
        HttpRequestView {
            method: self.method,
            url: self.url@,
            authorization: self.authorization@,
            body: self.body@,
        }
    }
}

impl DeepView for HttpRequest {
    type V = HttpRequestView;

    open spec fn deep_view(&self) -> HttpRequestView {
        self@
    }
}

/// The header value that passes a token on as a bearer credential.
pub open spec fn bearer_text(token: Seq<char>) -> Seq<char> {
    "Bearer "@ + token
}

/// The header value that passes a token on as a bearer credential.
pub fn bearer(token: &str) -> (value: String)
    ensures
        value@ == bearer_text(token@),
{
    crate::text::join2("Bearer ", token)
}

/// Whether a status code reports success: the codes from 200 to 299 do.
pub open spec fn status_is_success(status: u16) -> bool {
    200 <= status < 300
}

/// Whether a status code reports success.
pub fn is_success(status: u16) -> (success: bool)
    ensures
        success == status_is_success(status),
{
    200 <= status && status < 300
}

/// The text that stands for the body of an answer whose body could not be
/// read.
pub open spec fn body_or_unknown(body: Option<Seq<char>>) -> Seq<char> {
    match body {
        Some(text) => text,
        None => "Unknown error"@,
    }
}

/// The text of an answer's body, or a fixed text where it could not be read.
pub fn error_body(body: Option<String>) -> (text: String)
    ensures
        text@ == body_or_unknown(body.deep_view()),
{
    match body {
        Some(text) => text,
        None => String::from_str("Unknown error"),
    }
}

} // verus!
