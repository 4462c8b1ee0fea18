use vstd::prelude::*;

pub mod error;
pub mod identity;
pub mod instructions;
pub mod laws;
pub mod project;
pub mod records;

pub use error::ErrorCode;
pub use identity::Identity;
pub use instructions::{
    close_project, fund_project, initialize_research_project, project_account_space,
    withdraw_project_funds, CloseProject, FundProject, InitializeProject, WithdrawFunds,
    CONTRIBUTION_ACCOUNT_SPACE,
};
pub use project::ResearchProject;
pub use records::{FundingEvent, ProjectClosedEvent, ProjectContribution, WithdrawEvent};

verus! {

} // verus!
