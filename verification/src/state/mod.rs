//! The state that the console owns: the inventory, the cursors, the
//! notification queue and the registry of background operations.

pub mod app_state;
pub mod async_ops;
pub mod preservation;
pub mod model;
pub mod notifications;
pub mod selection;

pub use app_state::AppState;
pub use async_ops::{
    AsyncOperation, AsyncOperationResult, AsyncStatus, ContainerMetrics, OperationType,
};
pub use notifications::{Notification, NotificationLevel};
pub use selection::SelectionState;
