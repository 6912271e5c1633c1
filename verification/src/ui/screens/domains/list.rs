//! The list of domains.

use crate::ids::EntityId;
use crate::models::domain::{Domain, DomainView};
use crate::models::site::{Site, SiteView};
use crate::state::app_state::AppState;
use crate::state::model::AppStateView;
use crate::text::{decimal, decimal_text};
use vstd::prelude::*;
use vstd::string::*;

verus! {

/// One row of the list.
#[derive(Debug, PartialEq, Eq)]
pub struct DomainRow {
    pub name: String,
    pub provider: String,
    pub records: String,
    pub sites: String,
}

/// The mathematical value of a `DomainRow`.
pub ghost struct DomainRowView {
    pub name: Seq<char>,
    pub provider: Seq<char>,
    pub records: Seq<char>,
    pub sites: Seq<char>,
}

impl View for DomainRow {
    type V = DomainRowView;

    open spec fn view(&self) -> DomainRowView {
        DomainRowView {
            name: self.name@,
            provider: self.provider@,
            records: self.records@,
            sites: self.sites@,
        }
    }
}

impl DeepView for DomainRow {
    type V = DomainRowView;

    open spec fn deep_view(&self) -> DomainRowView {
        self@
    }
}

/// The list of domains as a table, with the row under the cursor.
#[derive(Debug, PartialEq, Eq)]
pub struct DomainsList {
    pub title: String,
    pub header: Vec<String>,
    pub rows: Vec<DomainRow>,
    pub selected: usize,
}

/// The mathematical value of a `DomainsList`.
pub ghost struct DomainsListView {
    pub title: Seq<char>,
    pub header: Seq<Seq<char>>,
    pub rows: Seq<DomainRowView>,
    pub selected: usize,
}

impl View for DomainsList {
    type V = DomainsListView;

    open spec fn view(&self) -> DomainsListView {
        DomainsListView {
            title: self.title@,
            header: self.header.deep_view(),
            rows: self.rows.deep_view(),
            selected: self.selected,
        }
    }
}

/// The number of sites that refer to a domain.
pub open spec fn count_sites_of(sites: Seq<SiteView>, domain_id: EntityId) -> nat
    decreases sites.len(),
{
    if sites.len() == 0 {
        0
    } else {
        count_sites_of(sites.drop_last(), domain_id) + if sites.last().domain_id == domain_id {
            1nat
        } else {
            0nat
        }
    }
}

/// How a domain's provider is shown: by its name, with a warning sign where
/// the DNS is managed by hand.
pub open spec fn provider_text(domain: DomainView) -> Seq<char> {
    if domain.dns_provider is Manual {
        "\u{26A0}\u{FE0F}  Manual"@
    } else {
        domain.dns_provider.name()
    }
}

/// The row of a domain: its name, its provider, the number of its records
/// and the number of sites that refer to it.
pub open spec fn domain_row(s: AppStateView, domain: DomainView) -> DomainRowView {
    DomainRowView {
        name: domain.name,
        provider: provider_text(domain),
        records: decimal_text(domain.dns_records.len()),
        sites: decimal_text(count_sites_of(s.sites, domain.id)),
    }
}

/// The titles of the columns.
pub open spec fn header_text() -> Seq<Seq<char>> {
    seq!["Domain Name"@, "DNS Provider"@, "Records"@, "Sites"@]
}

/// What the list of domains shows: without domains, a title that says so
/// and nothing else; else one row for each domain, in order.
pub open spec fn domains_list(s: AppStateView) -> DomainsListView {
    if s.domains.len() == 0 {
        DomainsListView {
            title: "Domains - No domains configured"@,
            header: Seq::empty(),
            rows: Seq::empty(),
            selected: s.selection_state.domains_list_index,
        }
    } else {
        DomainsListView {
            title: "Domains - [c]reate [e]dit DNS [d]elete [s]ync"@,
            header: header_text(),
            rows: Seq::new(s.domains.len(), |i: int| domain_row(s, s.domains[i])),
            selected: s.selection_state.domains_list_index,
        }
    }
}

fn count_sites(sites: &Vec<Site>, domain_id: EntityId) -> (count: usize)
    ensures
        count == count_sites_of(sites.deep_view(), domain_id),
{
    let ghost all = sites.deep_view();
    let mut count: usize = 0;
    let mut i: usize = 0;
    assert(all.subrange(0, 0) =~= Seq::empty());
    while i < sites.len()
        invariant
            i <= sites.len(),
            all == sites.deep_view(),
            count == count_sites_of(all.subrange(0, i as int), domain_id),
            count <= i,
        decreases sites.len() - i,
    {
        assert(all.subrange(0, i + 1).drop_last() =~= all.subrange(0, i as int));
        assert(all.subrange(0, i + 1).last() == sites[i as int]@);
        if sites[i].domain_id == domain_id {
            count += 1;
        }
        i += 1;
    }
    assert(all.subrange(0, sites.len() as int) =~= all);
    count
}

fn row_of(state: &AppState, domain: &Domain) -> (row: DomainRow)
    ensures
        row@ == domain_row(state@, domain@),
{
    DomainRow {
        name: domain.name.clone(),
        provider: if domain.is_manual_dns() {
            String::from_str("\u{26A0}\u{FE0F}  Manual")
        } else {
            String::from_str(domain.provider_name())
        },
        records: decimal(domain.dns_records.len() as u64),
        sites: decimal(count_sites(state.sites(), domain.id) as u64),
    }
}

/// What the list of domains shows.
pub fn render(state: &AppState) -> (list: DomainsList)
    ensures
        list@ == domains_list(state@),
{
    let domains = state.domains();
    let selected = state.selection_state().domains_list_index;
    if domains.len() == 0 {
        let list = DomainsList {
            title: String::from_str("Domains - No domains configured"),
            header: Vec::new(),
            rows: Vec::new(),
            selected,
        };
        assert(list@.header =~= Seq::empty());
        assert(list@.rows =~= Seq::empty());
        return list;
    }
    let mut header: Vec<String> = Vec::new();
    header.push(String::from_str("Domain Name"));
    header.push(String::from_str("DNS Provider"));
    header.push(String::from_str("Records"));
    header.push(String::from_str("Sites"));
    assert(header.deep_view() =~= header_text());
    let mut rows: Vec<DomainRow> = Vec::new();
    let mut i: usize = 0;
    while i < domains.len()
        invariant
            i <= domains.len(),
            domains.deep_view() == state@.domains,
            rows.len() == i,
            forall|k: int| 0 <= k < i ==> rows[k]@ == domain_row(state@, state@.domains[k]),
        decreases domains.len() - i,
    {
        rows.push(row_of(state, &domains[i]));
        i += 1;
    }
    assert(rows.deep_view() =~= domains_list(state@).rows);
    DomainsList {
        title: String::from_str("Domains - [c]reate [e]dit DNS [d]elete [s]ync"),
        header,
        rows,
        selected,
    }
}

} // verus!
