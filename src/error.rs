use vstd::prelude::*;

verus! {

/// Why an instruction was refused. A refused instruction leaves every
/// account it was given exactly as it found them.
#[derive(Clone, Copy, Debug, PartialEq, Eq, Structural)]
pub enum ErrorCode {
    /// Funding attempted on a closed project.
    ProjectInactive,
    /// The contribution is below the project's minimum.
    ContributionTooSmall,
    /// The funding total would leave the range of `u64`.
    FundingOverflow,
    /// The signer is not the project's creator.
    Unauthorized,
    /// Withdrawal attempted before the goal was reached.
    ProjectNotFullyFunded,
    /// Closing attempted on a project that reached its goal.
    ProjectFullyFunded,
    /// The funder already holds a contribution record for this project.
    DuplicateContribution,
}

impl ErrorCode {
    /// The human-readable message of each error.
    pub fn message(&self) -> (r: &'static str) {
        match self {
            ErrorCode::ProjectInactive => "Project is not active",
            ErrorCode::ContributionTooSmall => "Contribution amount is below minimum",
            ErrorCode::FundingOverflow => "Arithmetic overflow during funding calculation",
            ErrorCode::Unauthorized => "Unauthorized operation",
            ErrorCode::ProjectNotFullyFunded => "Project is not fully funded yet",
            ErrorCode::ProjectFullyFunded => "Cannot close fully funded project",
            ErrorCode::DuplicateContribution => "Funder has already contributed to this project",
        }
    }
}

} // verus!
