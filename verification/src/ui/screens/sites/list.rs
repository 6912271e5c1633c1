//! The list of sites.

use crate::models::site::{Site, SiteStatus, SiteView};
use crate::state::app_state::AppState;
use crate::state::model::AppStateView;
use crate::text::{decimal, decimal_text, join3};
use vstd::prelude::*;
use vstd::string::*;

verus! {

/// The shares of the width of the six columns: the first four in percent,
/// the last two in cells.
pub const COLUMN_PERCENTAGES: [u16; 4] = [25, 20, 20, 15];

pub const COLUMN_LENGTHS: [u16; 2] = [5, 8];

/// One row of the list.
#[derive(Debug, PartialEq, Eq)]
pub struct SiteRow {
    pub name: String,
    pub domain: String,
    pub node: String,
    pub status: String,
    pub ssl: String,
    pub port: String,
}

/// The mathematical value of a `SiteRow`.
pub ghost struct SiteRowView {
    pub name: Seq<char>,
    pub domain: Seq<char>,
    pub node: Seq<char>,
    pub status: Seq<char>,
    pub ssl: Seq<char>,
    pub port: Seq<char>,
}

impl View for SiteRow {
    type V = SiteRowView;

    open spec fn view(&self) -> SiteRowView {
        SiteRowView {
            name: self.name@,
            domain: self.domain@,
            node: self.node@,
            status: self.status@,
            ssl: self.ssl@,
            port: self.port@,
        }
    }
}

impl DeepView for SiteRow {
    type V = SiteRowView;

    open spec fn deep_view(&self) -> SiteRowView {
        self@
    }
}

/// The list of sites as a table, with the row under the cursor.
#[derive(Debug, PartialEq, Eq)]
pub struct SitesList {
    pub title: String,
    pub header: Vec<String>,
    pub rows: Vec<SiteRow>,
    pub selected: usize,
}

/// The mathematical value of a `SitesList`.
pub ghost struct SitesListView {
    pub title: Seq<char>,
    pub header: Seq<Seq<char>>,
    pub rows: Seq<SiteRowView>,
    pub selected: usize,
}

impl View for SitesList {
    type V = SitesListView;

    open spec fn view(&self) -> SitesListView {
        SitesListView {
            title: self.title@,
            header: self.header.deep_view(),
            rows: self.rows.deep_view(),
            selected: self.selected,
        }
    }
}

/// The sign of a site's status.
pub open spec fn site_icon(status: SiteStatus) -> Seq<char> {
    match status {
        SiteStatus::Running => "\u{1F7E2}"@,
        SiteStatus::Deploying => "\u{1F7E1}"@,
        SiteStatus::Failed => "\u{274C}"@,
        SiteStatus::Stopped => "\u{1F534}"@,
        SiteStatus::Inactive => "\u{26AA}"@,
    }
}

/// The name under which a referenced entity is shown: its own, or a fixed
/// one where the reference dangles.
pub open spec fn name_or_unknown(name: Option<Seq<char>>) -> Seq<char> {
    match name {
        Some(name) => name,
        None => "Unknown"@,
    }
}

/// The row of a site: its name, the names of its domain and its node, its
/// status after the sign of the status, a mark for TLS, and its port.
pub open spec fn site_row(s: AppStateView, site: SiteView) -> SiteRowView {
    SiteRowView {
        name: site.name,
        domain: name_or_unknown(
            match s.domain(site.domain_id) {
                Some(domain) => Some(domain.name),
                None => None,
            },
        ),
        node: name_or_unknown(
            match s.node(site.node_id) {
                Some(node) => Some(node.name),
                None => None,
            },
        ),
        status: site_icon(site.status) + " "@ + site.status.name(),
        ssl: if site.ssl_enabled {
            "\u{2713}"@
        } else {
            "\u{2717}"@
        },
        port: decimal_text(site.port as nat),
    }
}

/// The titles of the columns.
pub open spec fn header_text() -> Seq<Seq<char>> {
    seq!["Name"@, "Domain"@, "Node"@, "Status"@, "SSL"@, "Port"@]
}

/// What the list of sites shows: without sites, a title that says so and
/// nothing else; else one row for each site, in order.
pub open spec fn sites_list(s: AppStateView) -> SitesListView {
    if s.sites.len() == 0 {
        SitesListView {
            title: "Sites - No sites configured"@,
            header: Seq::empty(),
            rows: Seq::empty(),
            selected: s.selection_state.sites_list_index,
        }
    } else {
        SitesListView {
            title: "Sites - [c]reate [e]dit [d]elete [Enter]detail [r]edeploy"@,
            header: header_text(),
            rows: Seq::new(s.sites.len(), |i: int| site_row(s, s.sites[i])),
            selected: s.selection_state.sites_list_index,
        }
    }
}

fn icon_of(status: SiteStatus) -> (icon: &'static str)
    ensures
        icon@ == site_icon(status),
{
    match status {
        SiteStatus::Running => "\u{1F7E2}",
        SiteStatus::Deploying => "\u{1F7E1}",
        SiteStatus::Failed => "\u{274C}",
        SiteStatus::Stopped => "\u{1F534}",
        SiteStatus::Inactive => "\u{26AA}",
    }
}

fn row_of(state: &AppState, site: &Site) -> (row: SiteRow)
    ensures
        row@ == site_row(state@, site@),
{
    let domain = match state.get_domain(site.domain_id) {
        Some(domain) => domain.name.clone(),
        None => String::from_str("Unknown"),
    };
    let node = match state.get_node(site.node_id) {
        Some(node) => node.name.clone(),
        None => String::from_str("Unknown"),
    };
    let status = site.status.to_string();
    SiteRow {
        name: site.name.clone(),
        domain,
        node,
        status: join3(icon_of(site.status), " ", status.as_str()),
        ssl: if site.ssl_enabled {
            String::from_str("\u{2713}")
        } else {
            String::from_str("\u{2717}")
        },
        port: decimal(site.port as u64),
    }
}

/// What the list of sites shows.
pub fn render(state: &AppState) -> (list: SitesList)
    ensures
        list@ == sites_list(state@),
{
    let sites = state.sites();
    let selected = state.selection_state().sites_list_index;
    if sites.len() == 0 {
        let list = SitesList {
            title: String::from_str("Sites - No sites configured"),
            header: Vec::new(),
            rows: Vec::new(),
            selected,
        };
        assert(list@.header =~= Seq::empty());
        assert(list@.rows =~= Seq::empty());
        return list;
    }
    let mut header: Vec<String> = Vec::new();
    header.push(String::from_str("Name"));
    header.push(String::from_str("Domain"));
    header.push(String::from_str("Node"));
    header.push(String::from_str("Status"));
    header.push(String::from_str("SSL"));
    header.push(String::from_str("Port"));
    assert(header.deep_view() =~= header_text());
    let mut rows: Vec<SiteRow> = Vec::new();
    let mut i: usize = 0;
    while i < sites.len()
        invariant
            i <= sites.len(),
            sites.deep_view() == state@.sites,
            rows.len() == i,
            forall|k: int| 0 <= k < i ==> rows[k]@ == site_row(state@, state@.sites[k]),
        decreases sites.len() - i,
    {
        rows.push(row_of(state, &sites[i]));
        i += 1;
    }
    assert(rows.deep_view() =~= sites_list(state@).rows);
    SitesList {
        title: String::from_str("Sites - [c]reate [e]dit [d]elete [Enter]detail [r]edeploy"),
        header,
        rows,
        selected,
    }
}

} // verus!
