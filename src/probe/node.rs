use vstd::prelude::*;

use super::action::{Action, Event, Step};
use super::mode::Mode;
use super::poll::{probe_for, probe_step, proceed_replica, ProbePhase, ReplicaProbe};
use super::report::{
    accepted, is_report_request, status as report_status, ReportPhase, ReportReplica, ReportRun,
    RETRY_STATUS_AFTER_MILLISECONDS, RETRY_STATUS_TIMES,
};
use super::script::{decimal_text, index_text, script_status, script_status_of};
use super::status::Status;
use crate::config::config::{ConfigMetrics, ConfigProbeService, ConfigProbeServiceNode, ConfigReport};

verus! {

#[derive(Debug)]
pub enum NodeStage {
    /// The replica at the current index is being probed.
    Probing(ReplicaProbe),
    /// The script at the current index is running.
    Scripting,
    /// The status of the current target is being reported.
    Reporting(ReportRun),
    Done,
}

/// One pass over the targets of a node, in order: each replica is probed
/// (or each script run) and its status reported before the next one starts.
#[derive(Debug)]
pub struct NodeRun {
    pub mode: Mode,
    pub index: usize,
    pub interval: u64,
    pub stage: NodeStage,
}

/// How many targets the node has in that mode.
pub open spec fn target_count(mode: Mode, node: &ConfigProbeServiceNode) -> nat {
    match mode {
        Mode::Poll => match node.replicas {
            Some(v) => v@.len(),
            None => 0,
        },
        Mode::Script => match node.scripts {
            Some(v) => v@.len(),
            None => 0,
        },
    }
}

fn count_targets(mode: Mode, node: &ConfigProbeServiceNode) -> (r: usize)
    ensures
        r == target_count(mode, node),
{
    match mode {
        Mode::Poll => match &node.replicas {
            Some(v) => v.len(),
            None => 0,
        },
        Mode::Script => match &node.scripts {
            Some(v) => v.len(),
            None => 0,
        },
    }
}

/// How the target at `index` is named in its report.
pub open spec fn target_identity(mode: Mode, node: &ConfigProbeServiceNode, index: int) -> Seq<
    char,
> {
    match mode {
        Mode::Poll => node.replicas->0[index]@.raw(),
        Mode::Script => decimal_text(index as nat),
    }
}

/// Whether a report run settles on this event.
pub open spec fn report_settles(run: ReportRun, event: Event) -> bool {
    match run.phase {
        ReportPhase::Posting => (event matches Event::Responded { code, .. }
            && accepted(code)) || run.retry.attempt >= RETRY_STATUS_TIMES,
        ReportPhase::Waiting => false,
        ReportPhase::Finished(_) => true,
    }
}

impl NodeRun {
    pub open spec fn wf(&self, node: &ConfigProbeServiceNode) -> bool {
        &&& self.index <= target_count(self.mode, node)
        &&& !(self.stage is Done) ==> self.index < target_count(self.mode, node)
        &&& self.stage matches NodeStage::Probing(p) ==> p.wf() && self.mode == Mode::Poll
        &&& self.stage is Scripting ==> self.mode == Mode::Script
        &&& self.stage matches NodeStage::Reporting(run) ==> run.wf()
    }

    /// The run stands at the start of target `index` (or is done, past the
    /// last one) and `a` is its first action.
    pub open spec fn begins(
        &self,
        a: Action,
        metrics: &ConfigMetrics,
        node: &ConfigProbeServiceNode,
        index: int,
    ) -> bool {
        &&& self.index == index
        &&& if index < target_count(self.mode, node) {
            match self.mode {
                Mode::Poll => self.stage == NodeStage::Probing(probe_for(metrics, ProbePhase::Starting))
                    && a == Action::StartClock,
                Mode::Script => self.stage is Scripting && (a matches Action::RunScript { command }
                    && command@ == node.scripts->0[index]@),
            }
        } else {
            self.stage is Done && a == Action::Finish
        }
    }

    /// The run reports status `s` of target `index`; `a` posts the report.
    pub open spec fn reports(
        &self,
        a: Action,
        report: &ConfigReport,
        service: &ConfigProbeService,
        node: &ConfigProbeServiceNode,
        index: int,
        s: Status,
    ) -> bool {
        &&& self.index == index
        &&& self.stage matches NodeStage::Reporting(run)
        &&& run.phase is Posting
        &&& run.retry.attempt == 0
        &&& run.posts(a)
        &&& is_report_request(
            run.request,
            report.endpoint@,
            report.token@,
            service.id@,
            node.id@,
            target_identity(self.mode, node, index),
            s,
            self.interval,
        )
    }

    /// Starts at the first target.
    pub fn start(
        mode: Mode,
        metrics: &ConfigMetrics,
        node: &ConfigProbeServiceNode,
        interval: u64,
    ) -> (r: (NodeRun, Action))
        ensures
            r.0.wf(node),
            r.0.mode == mode,
            r.0.interval == interval,
            r.0.begins(r.1, metrics, node, 0),
    {
        let mut run = NodeRun { mode, index: 0, interval, stage: NodeStage::Done };
        let a = run.begin(metrics, node, 0);
        (run, a)
    }

    fn begin(&mut self, metrics: &ConfigMetrics, node: &ConfigProbeServiceNode, index: usize) -> (r:
        Action)
        requires
            index <= target_count(old(self).mode, node),
        ensures
            final(self).wf(node),
            final(self).mode == old(self).mode,
            final(self).interval == old(self).interval,
            final(self).begins(r, metrics, node, index as int),
    {
        self.index = index;
        match self.mode {
            Mode::Poll => match &node.replicas {
                Some(replicas) => if index < replicas.len() {
                    let (probe, a) = proceed_replica(&replicas[index], metrics);
                    self.stage = NodeStage::Probing(probe);
                    a
                } else {
                    self.stage = NodeStage::Done;
                    Action::Finish
                },
                None => {
                    self.stage = NodeStage::Done;
                    Action::Finish
                },
            },
            Mode::Script => match &node.scripts {
                Some(scripts) => if index < scripts.len() {
                    self.stage = NodeStage::Scripting;
                    Action::RunScript { command: scripts[index].clone() }
                } else {
                    self.stage = NodeStage::Done;
                    Action::Finish
                },
                None => {
                    self.stage = NodeStage::Done;
                    Action::Finish
                },
            },
        }
    }
}

impl NodeRun {
    /// Starts the report of status `s` of the current target.
    fn report_current(
        &mut self,
        report: &ConfigReport,
        service: &ConfigProbeService,
        node: &ConfigProbeServiceNode,
        s: Status,
    ) -> (r: Action)
        requires
            old(self).index < target_count(old(self).mode, node),
        ensures
            final(self).wf(node),
            final(self).mode == old(self).mode,
            final(self).interval == old(self).interval,
            final(self).reports(r, report, service, node, old(self).index as int, s),
    {
        let index = self.index;
        let (run, a) = match self.mode {
            Mode::Poll => {
                let replicas = node.replicas.as_ref().unwrap();
                report_status(
                    report,
                    service,
                    node,
                    ReportReplica::Poll(&replicas[index]),
                    &s,
                    self.interval,
                )
            },
            Mode::Script => {
                let id = index_text(index);
                report_status(
                    report,
                    service,
                    node,
                    ReportReplica::Script(id.as_str()),
                    &s,
                    self.interval,
                )
            },
        };
        self.stage = NodeStage::Reporting(run);
        a
    }

    /// Takes the outcome of the last action and gives the next one.
    ///
    /// A probe or report in progress gets the event; a settled probe, or a
    /// finished script, has its status reported; a settled report, whatever
    /// its outcome, moves the run to the next target.
    pub fn step(
        &mut self,
        report: &ConfigReport,
        metrics: &ConfigMetrics,
        service: &ConfigProbeService,
        node: &ConfigProbeServiceNode,
        event: Event,
    ) -> (r: Action)
        requires
            old(self).wf(node),
        ensures
            final(self).wf(node),
            final(self).mode == old(self).mode,
            final(self).interval == old(self).interval,
            match old(self).stage {
                NodeStage::Done => r == Action::Finish && final(self).stage is Done,
                NodeStage::Probing(p) => {
                    let (probe_after, out) = probe_step(p, node.replicas->0[old(self).index as int], event);
                    match out {
                        Step::Act(a) => r == a && final(self).index == old(self).index
                            && final(self).stage == NodeStage::Probing(probe_after),
                        Step::Settled(s) => final(self).reports(
                            r,
                            report,
                            service,
                            node,
                            old(self).index as int,
                            s,
                        ),
                    }
                },
                NodeStage::Scripting => final(self).reports(
                    r,
                    report,
                    service,
                    node,
                    old(self).index as int,
                    script_status_of(event),
                ),
                NodeStage::Reporting(run) => if report_settles(run, event) {
                    final(self).begins(r, metrics, node, old(self).index + 1)
                } else {
                    &&& final(self).index == old(self).index
                    &&& final(self).stage matches NodeStage::Reporting(run2)
                    &&& run2.request == run.request
                    &&& run.phase is Waiting ==> run.posts(r) && run2.phase is Posting
                        && run2.retry == run.retry
                    &&& run.phase is Posting ==> r == Action::Sleep {
                        millis: RETRY_STATUS_AFTER_MILLISECONDS,
                    } && run2.phase is Waiting && run2.retry.attempt == run.retry.attempt + 1
                },
            },
    {
        match &mut self.stage {
            NodeStage::Done => Action::Finish,
            NodeStage::Probing(probe) => {
                let replicas = node.replicas.as_ref().unwrap();
                match probe.step(&replicas[self.index], event) {
                    Step::Act(a) => a,
                    Step::Settled(s) => self.report_current(report, service, node, s),
                }
            },
            NodeStage::Scripting => {
                let s = script_status(&event);
                self.report_current(report, service, node, s)
            },
            NodeStage::Reporting(run) => match run.step(event) {
                Step::Act(a) => a,
                Step::Settled(_) => {
                    let count = count_targets(self.mode, node);
                    assert(self.index < count);
                    let next = self.index + 1;
                    self.begin(metrics, node, next)
                },
            },
        }
    }
}

} // verus!
