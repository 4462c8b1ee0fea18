use vstd::prelude::*;

use crate::error::ErrorCode;
use crate::identity::Identity;
use crate::project::ResearchProject;
use crate::records::{FundingEvent, ProjectClosedEvent, ProjectContribution, WithdrawEvent};

verus! {

/// The accounts that creating a project reads: the signer who pays for and
/// owns it.
pub struct InitializeProject {
    pub creator: Identity,
}

/// The accounts of a funding instruction: the project, the contribution slot
/// addressed by (project, funder), which is `None` while no record exists,
/// and the signing funder.
pub struct FundProject {
    pub project_key: Identity,
    pub project: ResearchProject,
    pub contribution: Option<ProjectContribution>,
    pub funder: Identity,
}

/// The accounts of a withdrawal: the project, the balance its account holds,
/// and the signer.
pub struct WithdrawFunds {
    pub project_key: Identity,
    pub project: ResearchProject,
    pub project_balance: u64,
    pub creator: Identity,
}

/// The accounts of a closing instruction: the project and the signer.
pub struct CloseProject {
    pub project_key: Identity,
    pub project: ResearchProject,
    pub creator: Identity,
}

/// Bytes a contribution account occupies: an 8-byte discriminator, two
/// 32-byte addresses, the amount and the timestamp.
pub const CONTRIBUTION_ACCOUNT_SPACE: usize = 8 + 32 + 32 + 8 + 8;

/// Bytes a project account occupies, given the byte lengths of its three
/// strings: an 8-byte discriminator, each string as a 4-byte length and its
/// UTF-8 bytes, three `u64` amounts, the creator's address, two flags and
/// the timestamp.
pub open spec fn project_space(title_len: nat, abstract_len: nat, category_len: nat) -> nat {
    8 + 4 + title_len + 4 + abstract_len + 4 + category_len + 8 + 8 + 8 + 32 + 1 + 8 + 1
}

/// The size to allocate for a new project account whose strings have these
/// byte lengths, or `None` when it does not fit in `usize`.
pub fn project_account_space(title_len: usize, abstract_len: usize, category_len: usize) -> (r:
    Option<usize>)
    ensures
        r == (if project_space(
            title_len as nat,
            abstract_len as nat,
            category_len as nat,
        ) <= usize::MAX {
            Some(project_space(title_len as nat, abstract_len as nat, category_len as nat) as usize)
        } else {
            None::<usize>
        }),
{
    let fixed: usize = 8 + 4 + 4 + 4 + 8 + 8 + 8 + 32 + 1 + 8 + 1;
    let with_title = match fixed.checked_add(title_len) {
        Some(n) => n,
        None => return None,
    };
    let with_abstract = match with_title.checked_add(abstract_len) {
        Some(n) => n,
        None => return None,
    };
    with_abstract.checked_add(category_len)
}

/// Creates a project owned by the signer, active, with nothing raised.
pub fn initialize_research_project(
    ctx: &InitializeProject,
    title: String,
    abstract_text: String,
    category: String,
    funding_goal: u64,
    min_contribution: u64,
    now: i64,
) -> (r: ResearchProject)
    ensures
        r == ResearchProject::created(
            title,
            abstract_text,
            category,
            funding_goal,
            min_contribution,
            ctx.creator,
            now,
        ),
        r.current_funding == 0,
        r.is_active,
        !r.is_fully_funded,
        r.wf(),
{
    ResearchProject {
        title,
        abstract_text,
        category,
        funding_goal,
        min_contribution,
        current_funding: 0,
        creator: ctx.creator,
        is_active: true,
        created_at: now,
        is_fully_funded: false,
    }
}

/// Accepts `amount` from the signing funder: the funding total grows by it,
/// the latch is set once the total reaches the goal, and a contribution
/// record is written. The returned event tells the host how much to move from
/// the funder's account to the project's in the same transaction.
///
/// Refused, in this order, when the project is closed, when `amount` is
/// below the minimum, when the total would overflow, and when the funder
/// already holds a record for this project.
pub fn fund_project(ctx: &mut FundProject, amount: u64, now: i64) -> (r: Result<
    FundingEvent,
    ErrorCode,
>)
    ensures
        !old(ctx).project.is_active ==> r == Err::<FundingEvent, ErrorCode>(
            ErrorCode::ProjectInactive,
        ),
        old(ctx).project.is_active && amount < old(ctx).project.min_contribution ==> r == Err::<
            FundingEvent,
            ErrorCode,
        >(ErrorCode::ContributionTooSmall),
        match old(ctx).project.fund_outcome(amount) {
            Err(e) => r == Err::<FundingEvent, ErrorCode>(e),
            Ok(p) => if old(ctx).contribution.is_some() {
                r == Err::<FundingEvent, ErrorCode>(ErrorCode::DuplicateContribution)
            } else {
                &&& r == Ok::<FundingEvent, ErrorCode>(
                    FundingEvent {
                        project: old(ctx).project_key,
                        funder: old(ctx).funder,
                        amount,
                        timestamp: now,
                    },
                )
                &&& final(ctx).project == p
                &&& final(ctx).contribution == Some(
                    ProjectContribution {
                        project: old(ctx).project_key,
                        funder: old(ctx).funder,
                        amount,
                        timestamp: now,
                    },
                )
                &&& final(ctx).project_key == old(ctx).project_key
                &&& final(ctx).funder == old(ctx).funder
            },
        },
        r is Err ==> *final(ctx) == *old(ctx),
        r is Ok ==> final(ctx).project.current_funding == old(ctx).project.current_funding
            + amount,
        old(ctx).project.wf() ==> final(ctx).project.wf(),
{
    if !ctx.project.is_active {
        return Err(ErrorCode::ProjectInactive);
    }
    if amount < ctx.project.min_contribution {
        return Err(ErrorCode::ContributionTooSmall);
    }
    let total = match ctx.project.current_funding.checked_add(amount) {
        Some(t) => t,
        None => return Err(ErrorCode::FundingOverflow),
    };
    if ctx.contribution.is_some() {
        return Err(ErrorCode::DuplicateContribution);
    }
    ctx.project.current_funding = total;
    if total >= ctx.project.funding_goal {
        ctx.project.is_fully_funded = true;
    }
    ctx.contribution = Some(
        ProjectContribution::record(ctx.project_key, ctx.funder, amount, now),
    );
    Ok(FundingEvent { project: ctx.project_key, funder: ctx.funder, amount, timestamp: now })
}

/// Sweeps the project's whole balance to its creator. On success the event
/// carries the amount swept, which is the balance the account held, and the
/// project's balance is zero afterwards; a second withdrawal sweeps nothing.
///
/// Refused when the signer is not the creator, then when the project has not
/// reached its goal.
pub fn withdraw_project_funds(ctx: &mut WithdrawFunds, now: i64) -> (r: Result<
    WithdrawEvent,
    ErrorCode,
>)
    ensures
        old(ctx).creator@ != old(ctx).project.creator@ ==> r == Err::<WithdrawEvent, ErrorCode>(
            ErrorCode::Unauthorized,
        ),
        match old(ctx).project.withdraw_outcome(old(ctx).creator) {
            Err(e) => r == Err::<WithdrawEvent, ErrorCode>(e) && *final(ctx) == *old(ctx),
            Ok(_) => {
                &&& r == Ok::<WithdrawEvent, ErrorCode>(
                    WithdrawEvent {
                        project: old(ctx).project_key,
                        recipient: old(ctx).creator,
                        amount: old(ctx).project_balance,
                        timestamp: now,
                    },
                )
                &&& final(ctx).project_balance == 0
                &&& final(ctx).project == old(ctx).project
                &&& final(ctx).project_key == old(ctx).project_key
                &&& final(ctx).creator == old(ctx).creator
            },
        },
{
    if !ctx.creator.same_as(&ctx.project.creator) {
        return Err(ErrorCode::Unauthorized);
    }
    if !ctx.project.is_fully_funded {
        return Err(ErrorCode::ProjectNotFullyFunded);
    }
    let amount = ctx.project_balance;
    ctx.project_balance = 0;
    Ok(WithdrawEvent { project: ctx.project_key, recipient: ctx.creator, amount, timestamp: now })
}

/// Closes a project that has not reached its goal. The balance it holds is
/// left where it is.
///
/// Refused when the signer is not the creator, then when the project is
/// fully funded.
pub fn close_project(ctx: &mut CloseProject, now: i64) -> (r: Result<
    ProjectClosedEvent,
    ErrorCode,
>)
    ensures
        old(ctx).creator@ != old(ctx).project.creator@ ==> r == Err::<
            ProjectClosedEvent,
            ErrorCode,
        >(ErrorCode::Unauthorized),
        match old(ctx).project.close_outcome(old(ctx).creator) {
            Err(e) => r == Err::<ProjectClosedEvent, ErrorCode>(e) && *final(ctx) == *old(ctx),
            Ok(p) => {
                &&& r == Ok::<ProjectClosedEvent, ErrorCode>(
                    ProjectClosedEvent {
                        project: old(ctx).project_key,
                        creator: old(ctx).creator,
                        timestamp: now,
                    },
                )
                &&& final(ctx).project == p
                &&& !final(ctx).project.is_active
                &&& final(ctx).project_key == old(ctx).project_key
                &&& final(ctx).creator == old(ctx).creator
            },
        },
        old(ctx).project.wf() ==> final(ctx).project.wf(),
{
    if !ctx.creator.same_as(&ctx.project.creator) {
        return Err(ErrorCode::Unauthorized);
    }
    if ctx.project.is_fully_funded {
        return Err(ErrorCode::ProjectFullyFunded);
    }
    ctx.project.is_active = false;
    Ok(ProjectClosedEvent { project: ctx.project_key, creator: ctx.creator, timestamp: now })
}

} // verus!
