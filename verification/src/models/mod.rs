//! The inventory's entities: sites, domains, nodes and DNS records.

pub mod dns;
pub mod domain;
pub mod node;
pub mod site;

pub use dns::{DnsRecord, DnsRecordType};
pub use domain::{DnsProvider, Domain};
pub use node::{DockerInfo, IpAddress, Node, NodeStatus, TraefikInfo};
pub use site::{ConfigFile, Site, SiteStatus};
