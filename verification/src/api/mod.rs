//! The node API: what is asked of a node and how its answers are read.

pub mod client;
pub mod error;
pub mod node_client;

pub use error::ApiError;
pub use node_client::NodeClient;
