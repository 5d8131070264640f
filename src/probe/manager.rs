use vstd::prelude::*;

use super::action::Action;
use super::mode::Mode;
use super::node::NodeRun;
use super::poll::dispatch as poll_dispatch;
use super::script::dispatch as script_dispatch;
use crate::config::config::{ConfigMetrics, ConfigProbeService, ConfigProbeServiceNode};

verus! {

/// Seconds to hold before the first cycle.
pub const PROBE_RUN_HOLD_SECONDS: u64 = 2;

/// Starts the checks of one node, by its mode: replicas are polled, scripts
/// are run.
pub fn dispatch_node(
    metrics: &ConfigMetrics,
    service: &ConfigProbeService,
    node: &ConfigProbeServiceNode,
    interval: u64,
) -> (r: (NodeRun, Action))
    ensures
        r.0.wf(node),
        r.0.mode == node.mode,
        r.0.interval == interval,
        r.0.begins(r.1, metrics, node, 0),
{
    match node.mode {
        Mode::Poll => poll_dispatch(metrics, service, node, interval),
        Mode::Script => script_dispatch(metrics, service, node, interval),
    }
}

} // verus!
