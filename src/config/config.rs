use vstd::prelude::*;

use crate::probe::mode::Mode;
use crate::probe::replica::ReplicaURL;

verus! {

/// The whole configuration, loaded once and read-only afterwards.
pub struct Config {
    pub server: ConfigServer,
    pub report: ConfigReport,
    pub metrics: ConfigMetrics,
    pub probe: ConfigProbe,
}

pub struct ConfigServer {
    pub log_level: String,
}

/// Where reports go, and the token that authenticates them.
pub struct ConfigReport {
    pub endpoint: String,
    pub token: String,
}

/// Probe thresholds; durations are in seconds.
pub struct ConfigMetrics {
    pub interval: u64,
    pub poll_retry: u8,
    pub poll_delay_dead: u64,
    pub poll_delay_sick: u64,
    pub poll_http_status_healthy_above: u16,
    pub poll_http_status_healthy_below: u16,
}

pub struct ConfigProbe {
    pub service: Vec<ConfigProbeService>,
}

pub struct ConfigProbeService {
    pub id: String,
    pub node: Vec<ConfigProbeServiceNode>,
}

pub struct ConfigProbeServiceNode {
    pub id: String,
    pub mode: Mode,
    pub replicas: Option<Vec<ReplicaURL>>,
    pub scripts: Option<Vec<String>>,
}

} // verus!
