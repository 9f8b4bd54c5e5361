//! Introspection and live monitoring of a binder-style IPC layer: who may read
//! the targeting and paging configuration, what a snapshot of it holds, how
//! completed transactions are counted, and how both are reported.
//!
//! The service is one value of [`GetIPCInfo`]. Callers that share it between
//! threads guard it with a lock of their own; every entry point here takes
//! it by reference and returns plain values.

pub mod config;
pub mod monitor;
pub mod records;
pub mod report;
pub mod service;
pub mod text;
pub mod wire;

pub use monitor::{monitor_transaction_hook, sample_ipc_stats};
pub use records::{BinderTransaction, IPCInfo, IPCPagingInfo, IPCStats, IPCTargetingInfo};
pub use report::{
    dump_ipc_info, dump_ipc_monitoring, format_monitoring_report, format_snapshot_report,
};
pub use service::{
    get_ipc_info, get_ipc_paging_info, get_ipc_targeting_info, init_ipc_info_cache, GetIPCInfo,
};
pub use wire::binder_get_ipc_info_handler;
