use vstd::prelude::*;

use crate::error::ErrorCode;
use crate::identity::Identity;

verus! {

/// The record of one research-funding campaign.
///
/// The two flags form a small state machine: active and short of its goal,
/// active and fully funded, or closed. `is_fully_funded` is a one-way latch,
/// and a closed project never becomes active again.
#[derive(Debug)]
pub struct ResearchProject {
    pub title: String,
    pub abstract_text: String,
    pub category: String,
    pub funding_goal: u64,
    pub min_contribution: u64,
    pub current_funding: u64,
    pub creator: Identity,
    pub is_active: bool,
    pub created_at: i64,
    pub is_fully_funded: bool,
}

/// The three states that the two flags of a well-formed project encode.
pub enum Phase {
    ActiveUnfunded,
    ActiveFunded,
    Closed,
}

impl ResearchProject {
    /// The invariant that every reachable project keeps: the latch is set
    /// only at or past the goal, it is set once any funding has reached the
    /// goal, and a closed project was never fully funded.
    pub open spec fn wf(&self) -> bool {
        &&& self.is_fully_funded ==> self.current_funding >= self.funding_goal
        &&& (self.current_funding >= self.funding_goal && self.current_funding > 0)
            ==> self.is_fully_funded
        &&& !self.is_active ==> !self.is_fully_funded
    }

    pub open spec fn phase(&self) -> Phase {
        if !self.is_active {
            Phase::Closed
        } else if self.is_fully_funded {
            Phase::ActiveFunded
        } else {
            Phase::ActiveUnfunded
        }
    }

    /// What funding `amount` does to the project: the error it is refused
    /// with, or the project afterwards.
    pub open spec fn fund_outcome(self, amount: u64) -> Result<ResearchProject, ErrorCode> {
        if !self.is_active {
            Err(ErrorCode::ProjectInactive)
        } else if amount < self.min_contribution {
            Err(ErrorCode::ContributionTooSmall)
        } else if self.current_funding + amount > u64::MAX {
            Err(ErrorCode::FundingOverflow)
        } else {
            let total = (self.current_funding + amount) as u64;
            Ok(
                ResearchProject {
                    current_funding: total,
                    is_fully_funded: self.is_fully_funded || total >= self.funding_goal,
                    ..self
                },
            )
        }
    }

    /// Whether `caller` may sweep the project's balance, and if not, why.
    pub open spec fn withdraw_outcome(self, caller: Identity) -> Result<(), ErrorCode> {
        if caller@ != self.creator@ {
            Err(ErrorCode::Unauthorized)
        } else if !self.is_fully_funded {
            Err(ErrorCode::ProjectNotFullyFunded)
        } else {
            Ok(())
        }
    }

    /// What closing by `caller` does to the project.
    pub open spec fn close_outcome(self, caller: Identity) -> Result<ResearchProject, ErrorCode> {
        if caller@ != self.creator@ {
            Err(ErrorCode::Unauthorized)
        } else if self.is_fully_funded {
            Err(ErrorCode::ProjectFullyFunded)
        } else {
            Ok(ResearchProject { is_active: false, ..self })
        }
    }

    /// The project as `initialize_research_project` creates it.
    pub open spec fn created(
        title: String,
        abstract_text: String,
        category: String,
        funding_goal: u64,
        min_contribution: u64,
        creator: Identity,
        now: i64,
    ) -> ResearchProject {
        ResearchProject {
            title,
            abstract_text,
            category,
            funding_goal,
            min_contribution,
            current_funding: 0,
            creator,
            is_active: true,
            created_at: now,
            is_fully_funded: false,
        }
    }
}

} // verus!
