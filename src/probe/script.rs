use vstd::prelude::*;

use super::action::{Action, Event};
use super::mode::Mode;
use super::node::NodeRun;
use super::report::decimal;
use super::status::Status;
use crate::config::config::{ConfigMetrics, ConfigProbeService, ConfigProbeServiceNode};

verus! {

/// The status a script run gives: exit code 0 is healthy, 1 is sick; any
/// other code, or a run that could not start, is dead.
pub open spec fn script_status_of(event: Event) -> Status {
    match event {
        Event::Exited { exit_code } => if exit_code == 0 {
            Status::Healthy
        } else if exit_code == 1 {
            Status::Sick
        } else {
            Status::Dead
        },
        _ => Status::Dead,
    }
}

pub fn script_status(event: &Event) -> (r: Status)
    ensures
        r == script_status_of(*event),
{
    match event {
        Event::Exited { exit_code } => if *exit_code == 0 {
            Status::Healthy
        } else if *exit_code == 1 {
            Status::Sick
        } else {
            Status::Dead
        },
        _ => Status::Dead,
    }
}

/// The decimal text of a number, which identifies a script in reports.
pub open spec fn decimal_text(n: nat) -> Seq<char> {
    decimal(n).map_values(|b: u8| b as char)
}

fn digit_text(d: usize) -> (r: &'static str)
    requires
        d < 10,
    ensures
        r@ == seq![(48 + d) as char],
{
    proof {
        reveal_strlit("0");
        reveal_strlit("1");
        reveal_strlit("2");
        reveal_strlit("3");
        reveal_strlit("4");
        reveal_strlit("5");
        reveal_strlit("6");
        reveal_strlit("7");
        reveal_strlit("8");
        reveal_strlit("9");
    }
    match d {
        0 => "0",
        1 => "1",
        2 => "2",
        3 => "3",
        4 => "4",
        5 => "5",
        6 => "6",
        7 => "7",
        8 => "8",
        _ => "9",
    }
}

pub fn index_text(n: usize) -> (r: String)
    ensures
        r@ == decimal_text(n as nat),
    decreases n,
{
    let head = if n >= 10 {
        index_text(n / 10)
    } else {
        String::new()
    };
    let r = head.concat(digit_text(n % 10));
    if n >= 10 {
        assert(decimal(n as nat) == decimal((n / 10) as nat).push((48 + n % 10) as u8));
    }
    assert(r@ =~= decimal_text(n as nat));
    r
}

/// Starts the script checks of a node: the scripts run one after another,
/// once each, and each status is reported. A node without scripts has
/// nothing to do.
pub fn dispatch(
    metrics: &ConfigMetrics,
    service: &ConfigProbeService,
    node: &ConfigProbeServiceNode,
    interval: u64,
) -> (r: (NodeRun, Action))
    ensures
        r.0.wf(node),
        r.0.mode == Mode::Script,
        r.0.interval == interval,
        r.0.begins(r.1, metrics, node, 0),
        (node.scripts is None || node.scripts->0.len() == 0) ==> r.1 == Action::Finish,
{
    NodeRun::start(Mode::Script, metrics, node, interval)
}

} // verus!
