use research_funding::{
    close_project, fund_project, initialize_research_project, project_account_space,
    withdraw_project_funds, CloseProject, ErrorCode, FundProject, Identity, InitializeProject,
    ProjectContribution, ResearchProject, WithdrawFunds, CONTRIBUTION_ACCOUNT_SPACE,
};

fn key(b: u8) -> Identity {
    Identity::new([b; 32])
}

fn creator() -> Identity {
    key(1)
}

fn project_key() -> Identity {
    key(9)
}

fn create(goal: u64, min: u64) -> ResearchProject {
    let ctx = InitializeProject { creator: creator() };
    initialize_research_project(
        &ctx,
        "Soil microbes".to_string(),
        "Mapping soil microbiomes".to_string(),
        "biology".to_string(),
        goal,
        min,
        1_700_000_000,
    )
}

fn fund_ctx(project: ResearchProject, funder: u8) -> FundProject {
    FundProject { project_key: project_key(), project, contribution: None, funder: key(funder) }
}

fn withdraw_ctx(project: ResearchProject, balance: u64, signer: Identity) -> WithdrawFunds {
    WithdrawFunds { project_key: project_key(), project, project_balance: balance, creator: signer }
}

fn close_ctx(project: ResearchProject, signer: Identity) -> CloseProject {
    CloseProject { project_key: project_key(), project, creator: signer }
}

/// Funds `project` once from a fresh funder; returns the project afterwards.
fn fund_once(project: ResearchProject, funder: u8, amount: u64) -> (ResearchProject, Result<u64, ErrorCode>) {
    let mut ctx = fund_ctx(project, funder);
    let r = fund_project(&mut ctx, amount, 1_700_000_100).map(|e| e.amount);
    (ctx.project, r)
}

#[test]
fn create_starts_active_unfunded() {
    let p = create(1000, 100);
    assert_eq!(p.current_funding, 0);
    assert!(p.is_active);
    assert!(!p.is_fully_funded);
    assert_eq!(p.funding_goal, 1000);
    assert_eq!(p.min_contribution, 100);
    assert_eq!(p.creator, creator());
    assert_eq!(p.created_at, 1_700_000_000);
    assert_eq!(p.title, "Soil microbes");
    assert_eq!(p.abstract_text, "Mapping soil microbiomes");
    assert_eq!(p.category, "biology");
}

#[test]
fn create_with_zero_goal_is_not_yet_funded() {
    let p = create(0, 0);
    assert_eq!(p.current_funding, 0);
    assert!(p.is_active);
    assert!(!p.is_fully_funded);
}

#[test]
fn scenario_fund_to_goal_then_withdraw_twice() {
    let p = create(1000, 100);
    let (p, r) = fund_once(p, 2, 500);
    assert_eq!(r, Ok(500));
    assert_eq!(p.current_funding, 500);
    assert!(!p.is_fully_funded);
    let (p, r) = fund_once(p, 3, 500);
    assert_eq!(r, Ok(500));
    assert_eq!(p.current_funding, 1000);
    assert!(p.is_fully_funded);

    let mut w = withdraw_ctx(p, 1000, creator());
    let ev = withdraw_project_funds(&mut w, 1_700_000_200).unwrap();
    assert_eq!(ev.amount, 1000);
    assert_eq!(ev.recipient, creator());
    assert_eq!(ev.project, project_key());
    assert_eq!(ev.timestamp, 1_700_000_200);
    assert_eq!(w.project_balance, 0);

    let ev = withdraw_project_funds(&mut w, 1_700_000_300).unwrap();
    assert_eq!(ev.amount, 0);
    assert_eq!(w.project_balance, 0);
}

#[test]
fn scenario_small_contribution_refused() {
    let p = create(1000, 100);
    let (p, r) = fund_once(p, 2, 50);
    assert_eq!(r, Err(ErrorCode::ContributionTooSmall));
    assert_eq!(p.current_funding, 0);
}

#[test]
fn scenario_close_then_fund_is_inactive() {
    let p = create(1000, 100);
    let mut c = close_ctx(p, creator());
    let ev = close_project(&mut c, 1_700_000_050).unwrap();
    assert_eq!(ev.creator, creator());
    assert_eq!(ev.project, project_key());
    assert_eq!(ev.timestamp, 1_700_000_050);
    assert!(!c.project.is_active);
    let (p, r) = fund_once(c.project, 2, 500);
    assert_eq!(r, Err(ErrorCode::ProjectInactive));
    assert_eq!(p.current_funding, 0);
    assert!(!p.is_active);
}

#[test]
fn scenario_close_fully_funded_refused() {
    let p = create(1000, 100);
    let (p, r) = fund_once(p, 2, 1000);
    assert_eq!(r, Ok(1000));
    assert!(p.is_fully_funded);
    let mut c = close_ctx(p, creator());
    assert_eq!(close_project(&mut c, 1_700_000_050).unwrap_err(), ErrorCode::ProjectFullyFunded);
    assert!(c.project.is_active);
}

#[test]
fn fund_sums_and_records_contribution() {
    let p = create(1000, 10);
    let mut ctx = fund_ctx(p, 4);
    let ev = fund_project(&mut ctx, 250, 42).unwrap();
    assert_eq!(ev.amount, 250);
    assert_eq!(ev.funder, key(4));
    assert_eq!(ev.project, project_key());
    assert_eq!(ev.timestamp, 42);
    let rec: ProjectContribution = ctx.contribution.unwrap();
    assert_eq!(rec.project, project_key());
    assert_eq!(rec.funder, key(4));
    assert_eq!(rec.amount, 250);
    assert_eq!(rec.timestamp, 42);

    let (p, _) = fund_once(ctx.project, 5, 100);
    let (p, _) = fund_once(p, 6, 30);
    assert_eq!(p.current_funding, 380);
    assert!(!p.is_fully_funded);
}

#[test]
fn fund_past_goal_keeps_latch() {
    let p = create(100, 1);
    let (p, _) = fund_once(p, 2, 150);
    assert!(p.is_fully_funded);
    assert_eq!(p.current_funding, 150);
    let (p, r) = fund_once(p, 3, 7);
    assert_eq!(r, Ok(7));
    assert!(p.is_fully_funded);
    let mut c = close_ctx(p, creator());
    assert!(close_project(&mut c, 1).is_err());
    assert!(c.project.is_fully_funded);
    assert!(c.project.is_active);
}

#[test]
fn fund_zero_goal_latches_on_first_contribution() {
    let p = create(0, 0);
    let (p, r) = fund_once(p, 2, 0);
    assert_eq!(r, Ok(0));
    assert!(p.is_fully_funded);
}

#[test]
fn fund_exact_minimum_accepted() {
    let p = create(1000, 100);
    let (p, r) = fund_once(p, 2, 100);
    assert_eq!(r, Ok(100));
    assert_eq!(p.current_funding, 100);
}

#[test]
fn fund_overflow_refused() {
    let p = create(u64::MAX, 1);
    let (p, r) = fund_once(p, 2, u64::MAX - 5);
    assert_eq!(r, Ok(u64::MAX - 5));
    assert!(!p.is_fully_funded);
    let (p, r) = fund_once(p, 3, 6);
    assert_eq!(r, Err(ErrorCode::FundingOverflow));
    assert_eq!(p.current_funding, u64::MAX - 5);
    let (p, r) = fund_once(p, 3, 5);
    assert_eq!(r, Ok(5));
    assert_eq!(p.current_funding, u64::MAX);
    assert!(p.is_fully_funded);
}

#[test]
fn fund_duplicate_contribution_refused() {
    let p = create(1000, 100);
    let mut ctx = fund_ctx(p, 2);
    fund_project(&mut ctx, 200, 10).unwrap();
    let before = ctx.contribution;
    assert_eq!(fund_project(&mut ctx, 300, 11).unwrap_err(), ErrorCode::DuplicateContribution);
    assert_eq!(ctx.project.current_funding, 200);
    assert_eq!(ctx.contribution.unwrap().amount, before.unwrap().amount);
    assert_eq!(ctx.contribution.unwrap().timestamp, 10);
}

#[test]
fn fund_small_on_closed_project_is_inactive() {
    let p = create(1000, 100);
    let mut c = close_ctx(p, creator());
    close_project(&mut c, 1).unwrap();
    let (_, r) = fund_once(c.project, 2, 1);
    assert_eq!(r, Err(ErrorCode::ProjectInactive));
}

#[test]
fn withdraw_before_goal_refused() {
    let p = create(1000, 100);
    let (p, _) = fund_once(p, 2, 400);
    let mut w = withdraw_ctx(p, 400, creator());
    assert_eq!(withdraw_project_funds(&mut w, 1).unwrap_err(), ErrorCode::ProjectNotFullyFunded);
    assert_eq!(w.project_balance, 400);
}

#[test]
fn withdraw_by_stranger_refused_in_any_state() {
    let p = create(1000, 100);
    let mut w = withdraw_ctx(p, 0, key(7));
    assert_eq!(withdraw_project_funds(&mut w, 1).unwrap_err(), ErrorCode::Unauthorized);

    let (p, _) = fund_once(w.project, 2, 1000);
    let mut w = withdraw_ctx(p, 1000, key(7));
    assert_eq!(withdraw_project_funds(&mut w, 1).unwrap_err(), ErrorCode::Unauthorized);
    assert_eq!(w.project_balance, 1000);
}

#[test]
fn withdraw_sweeps_excess_over_goal() {
    let p = create(1000, 100);
    let (p, _) = fund_once(p, 2, 1500);
    let mut w = withdraw_ctx(p, 1_502_000, creator());
    let ev = withdraw_project_funds(&mut w, 3).unwrap();
    assert_eq!(ev.amount, 1_502_000);
    assert_eq!(w.project_balance, 0);
    assert_eq!(w.project.current_funding, 1500);
}

#[test]
fn close_by_stranger_refused() {
    let p = create(1000, 100);
    let mut c = close_ctx(p, key(8));
    assert_eq!(close_project(&mut c, 1).unwrap_err(), ErrorCode::Unauthorized);
    assert!(c.project.is_active);
}

#[test]
fn close_partially_funded_succeeds() {
    let p = create(1000, 100);
    let (p, _) = fund_once(p, 2, 300);
    let mut c = close_ctx(p, creator());
    assert!(close_project(&mut c, 1).is_ok());
    assert!(!c.project.is_active);
    assert_eq!(c.project.current_funding, 300);
}

#[test]
fn identities_compare_by_every_byte() {
    let mut bytes = [3u8; 32];
    let a = Identity::new(bytes);
    bytes[31] = 4;
    let b = Identity::new(bytes);
    assert!(!a.same_as(&b));
    assert!(a.same_as(&Identity::new([3u8; 32])));
    assert_ne!(a, b);
}

#[test]
fn account_space_formula() {
    assert_eq!(project_account_space(0, 0, 0), Some(86));
    assert_eq!(project_account_space(13, 24, 7), Some(130));
    assert_eq!(project_account_space(usize::MAX - 86, 0, 0), Some(usize::MAX));
    assert_eq!(project_account_space(usize::MAX - 85, 0, 0), None);
    assert_eq!(project_account_space(1, usize::MAX, 1), None);
    assert_eq!(CONTRIBUTION_ACCOUNT_SPACE, 88);
}

#[test]
fn error_messages() {
    assert_eq!(ErrorCode::ProjectInactive.message(), "Project is not active");
    assert_eq!(ErrorCode::FundingOverflow.message(), "Arithmetic overflow during funding calculation");
    assert_eq!(ErrorCode::ProjectFullyFunded.message(), "Cannot close fully funded project");
}
