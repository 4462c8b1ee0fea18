use vstd::prelude::*;

use crate::identity::Identity;

verus! {

/// One funder's deposit into one project. It is addressed by the pair
/// (project, funder), so each funder holds at most one per project.
#[derive(Clone, Copy, Debug)]
pub struct ProjectContribution {
    pub project: Identity,
    pub funder: Identity,
    pub amount: u64,
    pub timestamp: i64,
}

/// Emitted when a contribution is accepted.
#[derive(Clone, Copy, Debug)]
pub struct FundingEvent {
    pub project: Identity,
    pub funder: Identity,
    pub amount: u64,
    pub timestamp: i64,
}

/// Emitted when the creator sweeps a project's balance; `amount` is what
/// moves from the project's account to `recipient`.
#[derive(Clone, Copy, Debug)]
pub struct WithdrawEvent {
    pub project: Identity,
    pub recipient: Identity,
    pub amount: u64,
    pub timestamp: i64,
}

/// Emitted when the creator closes a project.
#[derive(Clone, Copy, Debug)]
pub struct ProjectClosedEvent {
    pub project: Identity,
    pub creator: Identity,
    pub timestamp: i64,
}

impl ProjectContribution {
    pub fn record(project: Identity, funder: Identity, amount: u64, timestamp: i64) -> (r:
        ProjectContribution)
        ensures
            r == (ProjectContribution { project, funder, amount, timestamp }),
    {
        ProjectContribution { project, funder, amount, timestamp }
    }
}

} // verus!
