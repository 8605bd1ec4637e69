//! Codex app-server side of the bridge.
pub mod approvals;
pub mod calls;
pub mod client;
pub mod compat;
pub mod epoch_reconcile;
pub mod external;
pub mod external_calls;
pub mod external_recovery;
pub mod external_transport;
pub mod external_write;
pub mod gate_admission;
pub mod homes;
pub mod mailbox;
pub mod mutation;
pub mod notification;
pub mod operations;
pub mod owner;
pub mod process;
pub mod projection;
pub mod protocol;
pub mod reads;
pub mod reconcile;
pub mod requests;
pub mod router;
pub mod rpc;
pub mod shown;
pub mod sidecar;
pub mod subscriptions;
pub mod thread_reconcile;
pub mod types;
pub mod write_actor;
