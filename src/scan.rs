//! Scan control: the backend commands that start and stop a scan, and the
//! decisions of a session's scan-control task.
use crate::types::{AbortProcess, ChannelMessage, NotificationEvent};
use vstd::prelude::*;

verus! {

/// Which advertisements a scan asks the backend for.
#[derive(PartialEq, Eq, Structural, Clone, Copy, Debug)]
pub enum ScanFilter {
    /// Every advertisement, for platforms whose service filter misbehaves.
    AcceptAll,
    /// Only peripherals advertising the wallet service.
    WalletService,
}

/// A scan call on the backend.
#[derive(PartialEq, Eq, Structural, Clone, Copy, Debug)]
pub enum ScanCommand {
    StopScan,
    StartScan(ScanFilter),
}

/// A (re)start: a defensive stop, then the start.
pub open spec fn scan_sequence(filter: ScanFilter) -> Seq<ScanCommand> {
    seq![ScanCommand::StopScan, ScanCommand::StartScan(filter)]
}

/// Whether the backend scans after the commands, starting from `scanning`.
pub open spec fn scanning_after(scanning: bool, cmds: Seq<ScanCommand>) -> bool
    decreases cmds.len(),
{
    if cmds.len() == 0 {
        scanning
    } else {
        match cmds.last() {
            ScanCommand::StopScan => false,
            ScanCommand::StartScan(_) => true,
        }
    }
}

/// The commands of a scan (re)start.
pub fn scan(filter: ScanFilter) -> (r: Vec<ScanCommand>)
    ensures
        r@ == scan_sequence(filter),
{
    vec![ScanCommand::StopScan, ScanCommand::StartScan(filter)]
}

/// What a scan-control task does with a message of its session's channel.
#[derive(Clone, Debug, PartialEq, Eq)]
pub enum ScanTaskAction {
    /// End the task.
    Terminate,
    /// Issue these backend calls, in order.
    Issue(Vec<ScanCommand>),
    /// Nothing.
    Ignore,
}

/// The scan task ends on `Abort(Scan)` or `Abort(Disconnect)`; it restarts
/// the scan when the adapter powers on and stops it when it powers off.
pub fn scan_task_step(msg: &ChannelMessage, filter: ScanFilter) -> (r: ScanTaskAction)
    ensures
        match *msg {
            ChannelMessage::Abort(k) => if k == AbortProcess::Read {
                r is Ignore
            } else {
                r is Terminate
            },
            ChannelMessage::Notification(NotificationEvent::AdapterStateChanged { powered }) => {
                r matches ScanTaskAction::Issue(cmds) && cmds@ == (if powered {
                    scan_sequence(filter)
                } else {
                    seq![ScanCommand::StopScan]
                })
            },
            _ => r is Ignore,
        },
{
    match msg {
        ChannelMessage::Abort(k) => {
            match k {
                AbortProcess::Read => ScanTaskAction::Ignore,
                _ => ScanTaskAction::Terminate,
            }
        },
        ChannelMessage::Notification(NotificationEvent::AdapterStateChanged { powered }) => {
            if *powered {
                ScanTaskAction::Issue(scan(filter))
            } else {
                ScanTaskAction::Issue(vec![ScanCommand::StopScan])
            }
        },
        _ => ScanTaskAction::Ignore,
    }
}

/// A restart on power-on stops the scan before it starts it again, and
/// leaves the backend scanning.
pub proof fn lemma_restart_stops_first(filter: ScanFilter, scanning: bool)
    ensures
        scan_sequence(filter).len() == 2,
        scan_sequence(filter)[0] == ScanCommand::StopScan,
        scan_sequence(filter)[1] == ScanCommand::StartScan(filter),
        scanning_after(scanning, scan_sequence(filter)),
{
}

/// A start followed by a stop leaves the backend not scanning, and a
/// second stop changes nothing.
pub proof fn lemma_start_stop_round_trip(filter: ScanFilter, scanning: bool)
    ensures
        !scanning_after(scanning_after(scanning, scan_sequence(filter)), seq![ScanCommand::StopScan]),
        scanning_after(
            scanning_after(scanning, seq![ScanCommand::StopScan]),
            seq![ScanCommand::StopScan],
        ) == scanning_after(scanning, seq![ScanCommand::StopScan]),
{
}

} // verus!
