//! The list of nodes.

use crate::models::node::{IpAddress, Node, NodeStatus, NodeView};
use crate::state::app_state::AppState;
use crate::state::model::AppStateView;
use crate::text::{decimal, decimal_text, join3};
use crate::ui::screens::dashboard::node_icon;
use vstd::prelude::*;
use vstd::string::*;

verus! {

/// One row of the list. The address is left as a value for the terminal
/// layer to print.
#[derive(Debug, PartialEq, Eq)]
pub struct NodeRow {
    pub name: String,
    pub ip_address: IpAddress,
    pub status: String,
    pub containers: String,
    pub api_endpoint: String,
}

/// The mathematical value of a `NodeRow`.
pub ghost struct NodeRowView {
    pub name: Seq<char>,
    pub ip_address: IpAddress,
    pub status: Seq<char>,
    pub containers: Seq<char>,
    pub api_endpoint: Seq<char>,
}

impl View for NodeRow {
    type V = NodeRowView;

    open spec fn view(&self) -> NodeRowView {
        NodeRowView {
            name: self.name@,
            ip_address: self.ip_address,
            status: self.status@,
            containers: self.containers@,
            api_endpoint: self.api_endpoint@,
        }
    }
}

impl DeepView for NodeRow {
    type V = NodeRowView;

    open spec fn deep_view(&self) -> NodeRowView {
        self@
    }
}

/// The list of nodes as a table, with the row under the cursor.
#[derive(Debug, PartialEq, Eq)]
pub struct NodesList {
    pub title: String,
    pub header: Vec<String>,
    pub rows: Vec<NodeRow>,
    pub selected: usize,
}

/// The mathematical value of a `NodesList`.
pub ghost struct NodesListView {
    pub title: Seq<char>,
    pub header: Seq<Seq<char>>,
    pub rows: Seq<NodeRowView>,
    pub selected: usize,
}

impl View for NodesList {
    type V = NodesListView;

    open spec fn view(&self) -> NodesListView {
        NodesListView {
            title: self.title@,
            header: self.header.deep_view(),
            rows: self.rows.deep_view(),
            selected: self.selected,
        }
    }
}

/// The row of a node: its name, its address, its status after the sign of
/// the status, the number of its running containers or a question mark where
/// that is not known, and the address of its API.
pub open spec fn node_row(node: NodeView) -> NodeRowView {
    NodeRowView {
        name: node.name,
        ip_address: node.ip_address,
        status: node_icon(node.status) + " "@ + node.status.name(),
        containers: match node.docker_info {
            Some(info) => decimal_text(info.containers_running as nat),
            None => "?"@,
        },
        api_endpoint: node.api_endpoint,
    }
}

/// The titles of the columns.
pub open spec fn header_text() -> Seq<Seq<char>> {
    seq!["Name"@, "IP Address"@, "Status"@, "Containers"@, "API Endpoint"@]
}

/// What the list of nodes shows: without nodes, a title that says so and
/// nothing else; else one row for each node, in order.
pub open spec fn nodes_list(s: AppStateView) -> NodesListView {
    if s.nodes.len() == 0 {
        NodesListView {
            title: "Nodes - No nodes configured"@,
            header: Seq::empty(),
            rows: Seq::empty(),
            selected: s.selection_state.nodes_list_index,
        }
    } else {
        NodesListView {
            title: "Nodes - [c]reate [e]dit [d]elete [Enter]detail [h]ealth check"@,
            header: header_text(),
            rows: Seq::new(s.nodes.len(), |i: int| node_row(s.nodes[i])),
            selected: s.selection_state.nodes_list_index,
        }
    }
}

fn icon_of(status: NodeStatus) -> (icon: &'static str)
    ensures
        icon@ == node_icon(status),
{
    match status {
        NodeStatus::Online => "\u{1F7E2}",
        NodeStatus::Offline => "\u{1F534}",
        NodeStatus::Degraded => "\u{1F7E1}",
        NodeStatus::Unknown => "\u{26AA}",
    }
}

fn row_of(node: &Node) -> (row: NodeRow)
    ensures
        row@ == node_row(node@),
{
    let status = node.status.to_string();
    NodeRow {
        name: node.name.clone(),
        ip_address: node.ip_address,
        status: join3(icon_of(node.status), " ", status.as_str()),
        containers: match &node.docker_info {
            Some(info) => decimal(info.containers_running as u64),
            None => String::from_str("?"),
        },
        api_endpoint: node.api_endpoint.clone(),
    }
}

/// What the list of nodes shows.
pub fn render(state: &AppState) -> (list: NodesList)
    ensures
        list@ == nodes_list(state@),
{
    let nodes = state.nodes();
    let selected = state.selection_state().nodes_list_index;
    if nodes.len() == 0 {
        let list = NodesList {
            title: String::from_str("Nodes - No nodes configured"),
            header: Vec::new(),
            rows: Vec::new(),
            selected,
        };
        assert(list@.header =~= Seq::empty());
        assert(list@.rows =~= Seq::empty());
        return list;
    }
    let mut header: Vec<String> = Vec::new();
    header.push(String::from_str("Name"));
    header.push(String::from_str("IP Address"));
    header.push(String::from_str("Status"));
    header.push(String::from_str("Containers"));
    header.push(String::from_str("API Endpoint"));
    assert(header.deep_view() =~= header_text());
    let mut rows: Vec<NodeRow> = Vec::new();
    let mut i: usize = 0;
    while i < nodes.len()
        invariant
            i <= nodes.len(),
            nodes.deep_view() == state@.nodes,
            rows.len() == i,
            forall|k: int| 0 <= k < i ==> rows[k]@ == node_row(state@.nodes[k]),
        decreases nodes.len() - i,
    {
        rows.push(row_of(&nodes[i]));
        i += 1;
    }
    assert(rows.deep_view() =~= nodes_list(state@).rows);
    NodesList {
        title: String::from_str("Nodes - [c]reate [e]dit [d]elete [Enter]detail [h]ealth check"),
        header,
        rows,
        selected,
    }
}

} // verus!
