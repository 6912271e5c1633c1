//! The dashboard: one summary each of the sites, the nodes and the domains.

use crate::models::domain::{Domain, DomainView};
use crate::models::node::{Node, NodeStatus, NodeView};
use crate::models::site::{Site, SiteStatus, SiteView};
use crate::state::app_state::AppState;
use crate::text::{decimal, decimal_text, join2, join3};
use vstd::prelude::*;
use vstd::string::*;

verus! {

/// The most items that a summary lists by name.
pub const LISTED: usize = 5;

/// The shares of the width, in percent, of the three summaries.
pub const COLUMN_PERCENTAGES: [u16; 3] = [33, 33, 34];

/// A bordered box with a title and lines of text.
#[derive(Debug, PartialEq, Eq)]
pub struct Panel {
    pub title: String,
    pub lines: Vec<String>,
}

/// The mathematical value of a `Panel`.
pub ghost struct PanelView {
    pub title: Seq<char>,
    pub lines: Seq<Seq<char>>,
}

impl View for Panel {
    type V = PanelView;

    open spec fn view(&self) -> PanelView {
        PanelView { title: self.title@, lines: self.lines.deep_view() }
    }
}

/// The three summaries, from left to right.
#[derive(Debug, PartialEq, Eq)]
pub struct Dashboard {
    pub sites: Panel,
    pub nodes: Panel,
    pub domains: Panel,
}

/// The number of sites with a status.
pub open spec fn count_sites(sites: Seq<SiteView>, status: SiteStatus) -> nat
    decreases sites.len(),
{
    if sites.len() == 0 {
        0
    } else {
        count_sites(sites.drop_last(), status) + if sites.last().status == status {
            1nat
        } else {
            0nat
        }
    }
}

/// The number of nodes with a status.
pub open spec fn count_nodes(nodes: Seq<NodeView>, status: NodeStatus) -> nat
    decreases nodes.len(),
{
    if nodes.len() == 0 {
        0
    } else {
        count_nodes(nodes.drop_last(), status) + if nodes.last().status == status {
            1nat
        } else {
            0nat
        }
    }
}

/// The number of domains whose DNS is managed by hand.
pub open spec fn count_manual(domains: Seq<DomainView>) -> nat
    decreases domains.len(),
{
    if domains.len() == 0 {
        0
    } else {
        count_manual(domains.drop_last()) + if domains.last().dns_provider is Manual {
            1nat
        } else {
            0nat
        }
    }
}

/// How many items a summary lists by name.
pub open spec fn listed(len: nat) -> nat {
    if len < LISTED {
        len
    } else {
        LISTED as nat
    }
}

/// A line of a summary that names an item.
pub open spec fn bullet(text: Seq<char>) -> Seq<char> {
    "  \u{2022} "@ + text
}

/// The summary of the sites: how many there are, how many run, how many
/// failed, and the names of the most recent ones, last added first.
pub open spec fn sites_summary(sites: Seq<SiteView>) -> Seq<Seq<char>> {
    seq![
        "Total Sites: "@ + decimal_text(sites.len()),
        "Running: "@ + decimal_text(count_sites(sites, SiteStatus::Running)),
        "Failed: "@ + decimal_text(count_sites(sites, SiteStatus::Failed)),
        Seq::empty(),
        "Recent:"@,
    ] + Seq::new(listed(sites.len()), |k: int| bullet(sites[sites.len() - 1 - k].name))
}

/// The sign of a node's status.
pub open spec fn node_icon(status: NodeStatus) -> Seq<char> {
    match status {
        NodeStatus::Online => "\u{1F7E2}"@,
        NodeStatus::Offline => "\u{1F534}"@,
        NodeStatus::Degraded => "\u{1F7E1}"@,
        NodeStatus::Unknown => "\u{26AA}"@,
    }
}

/// The line of a summary that names a node, after the sign of its status.
pub open spec fn node_line(node: NodeView) -> Seq<char> {
    "  "@ + node_icon(node.status) + " "@ + node.name
}

/// The summary of the nodes: how many there are, how many are online, how
/// many are offline, and the first ones with their status.
pub open spec fn nodes_summary(nodes: Seq<NodeView>) -> Seq<Seq<char>> {
    seq![
        "Total Nodes: "@ + decimal_text(nodes.len()),
        "Online: "@ + decimal_text(count_nodes(nodes, NodeStatus::Online)),
        "Offline: "@ + decimal_text(count_nodes(nodes, NodeStatus::Offline)),
        Seq::empty(),
        "Nodes:"@,
    ] + Seq::new(listed(nodes.len()), |k: int| node_line(nodes[k]))
}

/// The line of a summary that names a domain, with its provider.
pub open spec fn domain_line(domain: DomainView) -> Seq<char> {
    bullet(domain.name + " ("@ + domain.dns_provider.name() + ")"@)
}

/// The summary of the domains: how many there are, how many are managed by
/// hand, how many through an API, and the first ones with their provider.
pub open spec fn domains_summary(domains: Seq<DomainView>) -> Seq<Seq<char>> {
    seq![
        "Total Domains: "@ + decimal_text(domains.len()),
        "Manual DNS: "@ + decimal_text(count_manual(domains)),
        "API Managed: "@ + decimal_text((domains.len() - count_manual(domains)) as nat),
        Seq::empty(),
        "Domains:"@,
    ] + Seq::new(listed(domains.len()), |k: int| domain_line(domains[k]))
}

fn count_sites_with(sites: &Vec<Site>, status: SiteStatus) -> (count: usize)
    ensures
        count == count_sites(sites.deep_view(), status),
{
    let ghost all = sites.deep_view();
    let mut count: usize = 0;
    let mut i: usize = 0;
    assert(all.subrange(0, 0) =~= Seq::empty());
    while i < sites.len()
        invariant
            i <= sites.len(),
            all == sites.deep_view(),
            count == count_sites(all.subrange(0, i as int), status),
            count <= i,
        decreases sites.len() - i,
    {
        assert(all.subrange(0, i + 1).drop_last() =~= all.subrange(0, i as int));
        assert(all.subrange(0, i + 1).last() == sites[i as int]@);
        if sites[i].status == status {
            count += 1;
        }
        i += 1;
    }
    assert(all.subrange(0, sites.len() as int) =~= all);
    count
}

fn count_nodes_with(nodes: &Vec<Node>, status: NodeStatus) -> (count: usize)
    ensures
        count == count_nodes(nodes.deep_view(), status),
{
    let ghost all = nodes.deep_view();
    let mut count: usize = 0;
    let mut i: usize = 0;
    assert(all.subrange(0, 0) =~= Seq::empty());
    while i < nodes.len()
        invariant
            i <= nodes.len(),
            all == nodes.deep_view(),
            count == count_nodes(all.subrange(0, i as int), status),
            count <= i,
        decreases nodes.len() - i,
    {
        assert(all.subrange(0, i + 1).drop_last() =~= all.subrange(0, i as int));
        assert(all.subrange(0, i + 1).last() == nodes[i as int]@);
        if nodes[i].status == status {
            count += 1;
        }
        i += 1;
    }
    assert(all.subrange(0, nodes.len() as int) =~= all);
    count
}

fn count_manual_domains(domains: &Vec<Domain>) -> (count: usize)
    ensures
        count == count_manual(domains.deep_view()),
        count <= domains.len(),
{
    let ghost all = domains.deep_view();
    let mut count: usize = 0;
    let mut i: usize = 0;
    assert(all.subrange(0, 0) =~= Seq::empty());
    while i < domains.len()
        invariant
            i <= domains.len(),
            all == domains.deep_view(),
            count == count_manual(all.subrange(0, i as int)),
            count <= i,
        decreases domains.len() - i,
    {
        assert(all.subrange(0, i + 1).drop_last() =~= all.subrange(0, i as int));
        assert(all.subrange(0, i + 1).last() == domains[i as int]@);
        if domains[i].is_manual_dns() {
            count += 1;
        }
        i += 1;
    }
    assert(all.subrange(0, domains.len() as int) =~= all);
    count
}

fn counted(label: &str, count: usize) -> (line: String)
    ensures
        line@ == label@ + decimal_text(count as nat),
{
    let number = decimal(count as u64);
    join2(label, number.as_str())
}

fn shown(len: usize) -> (n: usize)
    ensures
        n == listed(len as nat),
{
    if len < LISTED {
        len
    } else {
        LISTED
    }
}

/// The lines of the summary of the sites.
pub fn render_sites_summary(state: &AppState) -> (lines: Vec<String>)
    ensures
        lines.deep_view() == sites_summary(state@.sites),
{
    let sites = state.sites();
    let ghost all = sites.deep_view();
    let mut lines: Vec<String> = Vec::new();
    lines.push(counted("Total Sites: ", sites.len()));
    lines.push(counted("Running: ", count_sites_with(sites, SiteStatus::Running)));
    lines.push(counted("Failed: ", count_sites_with(sites, SiteStatus::Failed)));
    lines.push(String::new());
    lines.push(String::from_str("Recent:"));
    let n = shown(sites.len());
    let mut k: usize = 0;
    while k < n
        invariant
            k <= n,
            n == listed(sites.len() as nat),
            all == sites.deep_view(),
            lines.len() == 5 + k,
            lines.deep_view() == sites_summary(all).subrange(0, 5 + k),
        decreases n - k,
    {
        let ghost before = lines.deep_view();
        let site = &sites[sites.len() - 1 - k];
        lines.push(join2("  \u{2022} ", site.name.as_str()));
        assert(lines.deep_view() =~= before.push(bullet(all[all.len() - 1 - k].name)));
        assert(lines.deep_view() =~= sites_summary(all).subrange(0, 5 + k + 1));
        k += 1;
    }
    assert(sites_summary(all).subrange(0, 5 + n) =~= sites_summary(all));
    lines
}

fn icon_of(status: NodeStatus) -> (icon: &'static str)
    ensures
        icon@ == node_icon(status),
{
    match status {
        NodeStatus::Online => "\u{1F7E2}",
        NodeStatus::Offline => "\u{1F534}",
        NodeStatus::Degraded => "\u{1F7E1}",
        NodeStatus::Unknown => "\u{26AA}",
    }
}

/// The lines of the summary of the nodes.
pub fn render_nodes_summary(state: &AppState) -> (lines: Vec<String>)
    ensures
        lines.deep_view() == nodes_summary(state@.nodes),
{
    let nodes = state.nodes();
    let ghost all = nodes.deep_view();
    let mut lines: Vec<String> = Vec::new();
    lines.push(counted("Total Nodes: ", nodes.len()));
    lines.push(counted("Online: ", count_nodes_with(nodes, NodeStatus::Online)));
    lines.push(counted("Offline: ", count_nodes_with(nodes, NodeStatus::Offline)));
    lines.push(String::new());
    lines.push(String::from_str("Nodes:"));
    let n = shown(nodes.len());
    let mut k: usize = 0;
    while k < n
        invariant
            k <= n,
            n == listed(nodes.len() as nat),
            all == nodes.deep_view(),
            lines.len() == 5 + k,
            lines.deep_view() == nodes_summary(all).subrange(0, 5 + k),
        decreases n - k,
    {
        let ghost before = lines.deep_view();
        let node = &nodes[k];
        lines.push(
            join3("  ", icon_of(node.status), " ").concat(node.name.as_str()),
        );
        assert(lines.deep_view() =~= before.push(node_line(all[k as int])));
        assert(lines.deep_view() =~= nodes_summary(all).subrange(0, 5 + k + 1));
        k += 1;
    }
    assert(nodes_summary(all).subrange(0, 5 + n) =~= nodes_summary(all));
    lines
}

/// The lines of the summary of the domains.
pub fn render_domains_summary(state: &AppState) -> (lines: Vec<String>)
    ensures
        lines.deep_view() == domains_summary(state@.domains),
{
    let domains = state.domains();
    let ghost all = domains.deep_view();
    let manual = count_manual_domains(domains);
    let mut lines: Vec<String> = Vec::new();
    lines.push(counted("Total Domains: ", domains.len()));
    lines.push(counted("Manual DNS: ", manual));
    lines.push(counted("API Managed: ", domains.len() - manual));
    lines.push(String::new());
    lines.push(String::from_str("Domains:"));
    let n = shown(domains.len());
    let mut k: usize = 0;
    while k < n
        invariant
            k <= n,
            n == listed(domains.len() as nat),
            all == domains.deep_view(),
            lines.len() == 5 + k,
            lines.deep_view() == domains_summary(all).subrange(0, 5 + k),
        decreases n - k,
    {
        let ghost before = lines.deep_view();
        let domain = &domains[k];
        let named = join3(domain.name.as_str(), " (", domain.provider_name()).concat(")");
        lines.push(join2("  \u{2022} ", named.as_str()));
        assert(lines.deep_view() =~= before.push(domain_line(all[k as int])));
        assert(lines.deep_view() =~= domains_summary(all).subrange(0, 5 + k + 1));
        k += 1;
    }
    assert(domains_summary(all).subrange(0, 5 + n) =~= domains_summary(all));
    lines
}

/// The dashboard of a state.
pub fn render(state: &AppState) -> (dashboard: Dashboard)
    ensures
        dashboard.sites@ == (PanelView { title: "Sites"@, lines: sites_summary(state@.sites) }),
        dashboard.nodes@ == (PanelView { title: "Nodes"@, lines: nodes_summary(state@.nodes) }),
        dashboard.domains@ == (PanelView {
            title: "Domains"@,
            lines: domains_summary(state@.domains),
        }),
{
    Dashboard {
        sites: Panel { title: String::from_str("Sites"), lines: render_sites_summary(state) },
        nodes: Panel { title: String::from_str("Nodes"), lines: render_nodes_summary(state) },
        domains: Panel {
            title: String::from_str("Domains"),
            lines: render_domains_summary(state),
        },
    }
}

} // verus!
