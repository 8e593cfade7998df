//! The checks that keep a run of analytics on one network and on consecutive milestones.
use vstd::prelude::*;

use crate::types::{MilestoneIndex, ProtocolParameters};

verus! {

/// Why a run of the ingestion worker has to stop.
#[derive(Clone, Debug)]
pub enum InxWorkerError {
    InvalidAddress(String),
    InvalidUnspentOutputIndex { found: MilestoneIndex, expected: MilestoneIndex },
    MissingAppState,
    NetworkChanged(String, String),
    SyncMilestoneGap { start: MilestoneIndex, end: MilestoneIndex },
    SyncMilestoneIndexMismatch { node: MilestoneIndex, db: MilestoneIndex },
}

/// Checks that the milestone delivered after `previous` is the next one: a later one means
/// that milestones were skipped, an earlier one that the node is behind what was stored.
pub fn check_next_milestone(previous: MilestoneIndex, next: MilestoneIndex) -> (r: Result<(), InxWorkerError>)
    ensures
        next == previous + 1 ==> r is Ok,
        next > previous + 1 ==> (r matches Err(InxWorkerError::SyncMilestoneGap { start, end }) && start
            == previous + 1 && end == next - 1),
        next <= previous ==> (r matches Err(InxWorkerError::SyncMilestoneIndexMismatch { node, db })
            && node == next && db == previous),
{
    if next <= previous {
        Err(InxWorkerError::SyncMilestoneIndexMismatch { node: next, db: previous })
    } else if next == previous + 1 {
        Ok(())
    } else {
        Err(InxWorkerError::SyncMilestoneGap { start: previous + 1, end: next - 1 })
    }
}

/// Checks that the node has not fallen behind the milestone already stored.
pub fn check_node_index(node: MilestoneIndex, db: MilestoneIndex) -> (r: Result<(), InxWorkerError>)
    ensures
        node >= db ==> r is Ok,
        node < db ==> (r matches Err(InxWorkerError::SyncMilestoneIndexMismatch { node: n, db: d })
            && n == node && d == db),
{
    if node < db {
        Err(InxWorkerError::SyncMilestoneIndexMismatch { node, db })
    } else {
        Ok(())
    }
}

/// Checks that the unspent outputs were read at the milestone the run starts from.
pub fn check_unspent_output_index(found: MilestoneIndex, expected: MilestoneIndex) -> (r: Result<(), InxWorkerError>)
    ensures
        found == expected ==> r is Ok,
        found != expected ==> (r matches Err(InxWorkerError::InvalidUnspentOutputIndex { found: f, expected: e })
            && f == found && e == expected),
{
    if found != expected {
        Err(InxWorkerError::InvalidUnspentOutputIndex { found, expected })
    } else {
        Ok(())
    }
}

/// Checks that the network is the one that the stored state belongs to.
pub fn check_network(stored: &ProtocolParameters, current: &ProtocolParameters) -> (r: Result<(), InxWorkerError>)
    ensures
        stored.network_name@ == current.network_name@ ==> r is Ok,
        stored.network_name@ != current.network_name@ ==> (r matches Err(InxWorkerError::NetworkChanged(old, new))
            && old@ == stored.network_name@ && new@ == current.network_name@),
{
    if stored.network_name == current.network_name {
        Ok(())
    } else {
        Err(InxWorkerError::NetworkChanged(stored.network_name.clone(), current.network_name.clone()))
    }
}

} // verus!
