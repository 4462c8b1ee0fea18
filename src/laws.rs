use vstd::prelude::*;

use crate::error::ErrorCode;
use crate::identity::Identity;
use crate::project::{Phase, ResearchProject};

verus! {

/// An instruction applied to a project, as far as the project record sees it.
pub enum Operation {
    Fund { amount: u64 },
    Withdraw { caller: Identity },
    Close { caller: Identity },
}

/// The project after one instruction; a refused instruction changes nothing,
/// and a withdrawal moves value but leaves the record as it is.
pub open spec fn step(p: ResearchProject, op: Operation) -> ResearchProject {
    match op {
        Operation::Fund { amount } => match p.fund_outcome(amount) {
            Ok(q) => q,
            Err(_) => p,
        },
        Operation::Withdraw { caller } => p,
        Operation::Close { caller } => match p.close_outcome(caller) {
            Ok(q) => q,
            Err(_) => p,
        },
    }
}

/// The project after a sequence of instructions, first to last.
pub open spec fn run(p: ResearchProject, ops: Seq<Operation>) -> ResearchProject
    decreases ops.len(),
{
    if ops.len() == 0 {
        p
    } else {
        run(step(p, ops[0]), ops.drop_first())
    }
}

/// The project after funding each amount in turn, or the first refusal.
pub open spec fn fund_all(p: ResearchProject, amounts: Seq<u64>) -> Result<
    ResearchProject,
    ErrorCode,
>
    decreases amounts.len(),
{
    if amounts.len() == 0 {
        Ok(p)
    } else {
        match p.fund_outcome(amounts[0]) {
            Ok(q) => fund_all(q, amounts.drop_first()),
            Err(e) => Err(e),
        }
    }
}

/// The sum of a sequence of amounts.
pub open spec fn total(amounts: Seq<u64>) -> int
    decreases amounts.len(),
{
    if amounts.len() == 0 {
        0
    } else {
        amounts[0] + total(amounts.drop_first())
    }
}

/// Every instruction keeps a well-formed project well-formed, and no
/// instruction lowers the funding total.
pub proof fn lemma_step_preserves(p: ResearchProject, op: Operation)
    requires
        p.wf(),
    ensures
        step(p, op).wf(),
        step(p, op).current_funding >= p.current_funding,
        step(p, op).funding_goal == p.funding_goal,
        step(p, op).creator == p.creator,
{
}

/// Any sequence of instructions keeps a well-formed project well-formed.
pub proof fn lemma_run_preserves_wf(p: ResearchProject, ops: Seq<Operation>)
    requires
        p.wf(),
    ensures
        run(p, ops).wf(),
    decreases ops.len(),
{
    if ops.len() > 0 {
        lemma_step_preserves(p, ops[0]);
        lemma_run_preserves_wf(step(p, ops[0]), ops.drop_first());
    }
}

/// When every contribution in a sequence is accepted, the funding total
/// grows by exactly their sum, and never falls along the way.
pub proof fn lemma_funding_is_sum(p: ResearchProject, amounts: Seq<u64>)
    ensures
        fund_all(p, amounts) is Ok ==> fund_all(p, amounts)->Ok_0.current_funding
            == p.current_funding + total(amounts),
        fund_all(p, amounts) is Ok ==> fund_all(p, amounts)->Ok_0.current_funding
            >= p.current_funding,
    decreases amounts.len(),
{
    if amounts.len() > 0 {
        if let Ok(q) = p.fund_outcome(amounts[0]) {
            lemma_funding_is_sum(q, amounts.drop_first());
        }
    }
}

/// The funding total never decreases, whatever instructions follow.
pub proof fn lemma_funding_never_decreases(p: ResearchProject, ops: Seq<Operation>)
    ensures
        run(p, ops).current_funding >= p.current_funding,
    decreases ops.len(),
{
    if ops.len() > 0 {
        lemma_funding_never_decreases(step(p, ops[0]), ops.drop_first());
    }
}

/// Once funding has reached the goal, the project is fully funded and stays
/// so under every sequence of instructions. A project created with a goal of
/// zero has reached it with nothing raised and is not yet fully funded; it is
/// left out.
pub proof fn lemma_fully_funded_is_sticky(p: ResearchProject, ops: Seq<Operation>)
    requires
        p.wf(),
        p.current_funding >= p.funding_goal,
        p.is_fully_funded || p.current_funding > 0,
    ensures
        p.is_fully_funded,
        run(p, ops).is_fully_funded,
        run(p, ops).phase() == Phase::ActiveFunded,
    decreases ops.len(),
{
    if ops.len() > 0 {
        lemma_step_preserves(p, ops[0]);
        lemma_fully_funded_is_sticky(step(p, ops[0]), ops.drop_first());
    }
}

/// A closed project stays closed under every sequence of instructions, and
/// every funding attempt on it is refused as inactive.
pub proof fn lemma_closed_stays_closed(p: ResearchProject, ops: Seq<Operation>)
    requires
        !p.is_active,
    ensures
        !run(p, ops).is_active,
        run(p, ops) == p,
        forall|amount: u64|
            #[trigger] run(p, ops).fund_outcome(amount) == Err::<ResearchProject, ErrorCode>(
                ErrorCode::ProjectInactive,
            ),
    decreases ops.len(),
{
    if ops.len() > 0 {
        lemma_closed_stays_closed(step(p, ops[0]), ops.drop_first());
    }
}

/// No sequence of instructions takes a project that has left the
/// active-and-unfunded state back into it.
pub proof fn lemma_no_return_to_unfunded(p: ResearchProject, ops: Seq<Operation>)
    requires
        p.wf(),
        p.phase() != Phase::ActiveUnfunded,
    ensures
        run(p, ops).phase() != Phase::ActiveUnfunded,
    decreases ops.len(),
{
    if ops.len() > 0 {
        lemma_step_preserves(p, ops[0]);
        lemma_no_return_to_unfunded(step(p, ops[0]), ops.drop_first());
    }
}

} // verus!
