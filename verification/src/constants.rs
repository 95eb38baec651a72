//! The names and numbers that the upgrade is fixed to.

use vstd::prelude::*;

verus! {

/// The name of the chart that bundles the storage product with what it depends on.
pub const UMBRELLA_CHART_NAME: &'static str = "mayastor";

/// The name of the chart that holds the storage product alone.
pub const CORE_CHART_NAME: &'static str = "core";

/// The label selector of the data-plane instances.
pub const IO_ENGINE_LABEL: &'static str = "app=io-engine";

/// The label selector of the control plane's core.
pub const AGENT_CORE_LABEL: &'static str = "app=agent-core";

/// The label selector of the REST gateway.
pub const API_REST_LABEL: &'static str = "app=api-rest";

/// The label selector of the coordination store.
pub const ETCD_LABEL: &'static str = "app=etcd";

/// The label under which the upgrade drains storage nodes, and removes its cordon again.
pub const DRAIN_FOR_UPGRADE: &'static str = "mayastor-upgrade";

/// The condition type that reports whether a pod serves.
pub const READY_CONDITION: &'static str = "Ready";

/// The status of a condition that holds.
pub const CONDITION_TRUE: &'static str = "True";

/// The kind of owner that the upgrade's own pod must have.
pub const JOB_KIND: &'static str = "Job";

/// Seconds between two looks at a condition that is being waited for.
pub const POLL_INTERVAL_SECS: u64 = 10;

/// Seconds to let pass after a drain before the first look for rebuilds.
pub const REBUILD_GRACE_SECS: u64 = 60;

/// The number of volumes asked for in one page of the volume inventory.
pub const VOLUME_PAGE_SIZE: isize = 200;

/// The token that asks for the first page of the volume inventory.
pub const FIRST_PAGE_TOKEN: isize = 0;

} // verus!
