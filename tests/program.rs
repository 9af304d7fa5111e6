use veridicus::program::{
    accept_authority, burn_amount, cancel_authority_transfer, discount_tier, execute_quantum_job,
    get_fee_discount, initialize, pause, stake_VERIDICUS, transfer_authority, unpause,
    unstake_VERIDICUS, AcceptAuthority, AuthorityTransferCancelled, AuthorityTransferInitiated,
    AuthorityTransferred, CancelAuthorityTransfer, ExecuteJob, GetFeeDiscount, Initialize,
    JobExecuted, Pause, ProgramPaused, ProgramUnpaused, StakeVERIDICUS, TransferAuthority,
    Unpause, UnstakeVERIDICUS, VERIDICUSStaked, VERIDICUSUnstaked, TOKEN_UNIT,
};
use veridicus::state::{Identity, Staking, VERIDICUSError, VERIDICUSState, TOTAL_SUPPLY};

const WEEK: i64 = 604800;

fn id(tag: u8) -> Identity {
    Identity { bytes: [tag; 32] }
}

fn initialized(authority: Identity) -> VERIDICUSState {
    let mut ctx = Initialize {
        state: VERIDICUSState {
            authority: Identity::null(),
            pending_authority: None,
            authority_transfer_timestamp: None,
            total_supply: 0,
            total_burned: 0,
            total_jobs: 0,
            paused: false,
        },
        authority,
    };
    assert_eq!(initialize(&mut ctx), Ok(()));
    ctx.state
}

fn staking(amount: u64) -> Staking {
    Staking { user: id(5), amount, timestamp: 0 }
}

fn proposed(new_authority: Identity, at: i64) -> VERIDICUSState {
    let mut ctx = TransferAuthority { state: initialized(id(1)), authority: id(1) };
    transfer_authority(&mut ctx, new_authority, at).unwrap();
    ctx.state
}

#[test]
fn initialize_sets_up_the_ledger() {
    let s = initialized(id(1));
    assert_eq!(
        s,
        VERIDICUSState {
            authority: id(1),
            pending_authority: None,
            authority_transfer_timestamp: None,
            total_supply: TOTAL_SUPPLY,
            total_burned: 0,
            total_jobs: 0,
            paused: false,
        }
    );
    assert_eq!(TOTAL_SUPPLY, 1_000_000 * TOKEN_UNIT);
    assert_eq!(VERIDICUSState::AUTHORITY_TRANSFER_DELAY, 7 * 24 * 60 * 60);
}

#[test]
fn discount_boundaries() {
    let units = |n: u64| n * TOKEN_UNIT;
    assert_eq!(discount_tier(units(1000)), 20);
    assert_eq!(discount_tier(units(999)), 0);
    assert_eq!(discount_tier(units(1000) - 1), 0);
    assert_eq!(discount_tier(units(5000) - 1), 20);
    assert_eq!(discount_tier(units(5000)), 40);
    assert_eq!(discount_tier(units(20_000) - 1), 40);
    assert_eq!(discount_tier(units(20_000)), 60);
    assert_eq!(discount_tier(0), 0);
    assert_eq!(discount_tier(u64::MAX), 60);
}

#[test]
fn fee_discount_of_a_position() {
    let ctx = GetFeeDiscount { staking: staking(1000 * TOKEN_UNIT), user: id(5) };
    assert_eq!(get_fee_discount(&ctx), Ok(20));
    let ctx = GetFeeDiscount { staking: staking(999 * TOKEN_UNIT), user: id(5) };
    assert_eq!(get_fee_discount(&ctx), Ok(0));
    let ctx = GetFeeDiscount { staking: staking(20_000 * TOKEN_UNIT), user: id(5) };
    assert_eq!(get_fee_discount(&ctx), Ok(60));
}

#[test]
fn accept_one_second_early_fails_on_time_succeeds() {
    let t = 1_700_000_000;
    let state = proposed(id(2), t);
    let mut early = AcceptAuthority { state, new_authority: id(2) };
    assert_eq!(
        accept_authority(&mut early, t + WEEK - 1),
        Err(VERIDICUSError::AuthorityTransferTimelockNotExpired)
    );
    assert_eq!(early.state, state);
    let mut on_time = AcceptAuthority { state, new_authority: id(2) };
    let ev = accept_authority(&mut on_time, t + WEEK).unwrap();
    assert_eq!(ev, AuthorityTransferred { old_authority: id(1), new_authority: id(2), timestamp: t + WEEK });
    assert_eq!(on_time.state.authority, id(2));
    assert_eq!(on_time.state.pending_authority, None);
    assert_eq!(on_time.state.authority_transfer_timestamp, None);
}

#[test]
fn accept_by_someone_else_is_unauthorized() {
    let state = proposed(id(2), 0);
    let mut ctx = AcceptAuthority { state, new_authority: id(3) };
    assert_eq!(accept_authority(&mut ctx, 10 * WEEK), Err(VERIDICUSError::Unauthorized));
}

#[test]
fn accept_without_pending_transfer() {
    let mut ctx = AcceptAuthority { state: initialized(id(1)), new_authority: id(2) };
    assert_eq!(accept_authority(&mut ctx, WEEK), Err(VERIDICUSError::NoAuthorityTransferPending));
}

#[test]
fn accept_after_a_very_early_proposal() {
    let state = proposed(id(2), i64::MIN);
    let mut ctx = AcceptAuthority { state, new_authority: id(2) };
    assert!(accept_authority(&mut ctx, 0).is_ok());
    let state = proposed(id(2), i64::MIN);
    let mut ctx = AcceptAuthority { state, new_authority: id(2) };
    assert!(accept_authority(&mut ctx, i64::MAX).is_ok());
    assert_eq!(ctx.state.authority, id(2));
}

#[test]
fn accept_before_the_proposal_time_fails() {
    let state = proposed(id(2), 1000);
    let mut ctx = AcceptAuthority { state, new_authority: id(2) };
    assert_eq!(
        accept_authority(&mut ctx, 999),
        Err(VERIDICUSError::AuthorityTransferTimelockNotExpired)
    );
}

#[test]
fn transfer_proposal_records_pending_authority() {
    let mut ctx = TransferAuthority { state: initialized(id(1)), authority: id(1) };
    let ev = transfer_authority(&mut ctx, id(2), 42).unwrap();
    assert_eq!(
        ev,
        AuthorityTransferInitiated { current_authority: id(1), new_authority: id(2), timestamp: 42 }
    );
    assert_eq!(ctx.state.pending_authority, Some(id(2)));
    assert_eq!(ctx.state.authority_transfer_timestamp, Some(42));
    assert_eq!(ctx.state.authority, id(1));
}

#[test]
fn transfer_refusals() {
    let mut ctx = TransferAuthority { state: initialized(id(1)), authority: id(9) };
    assert_eq!(transfer_authority(&mut ctx, id(2), 0), Err(VERIDICUSError::Unauthorized));
    let mut ctx = TransferAuthority { state: initialized(id(1)), authority: id(1) };
    assert_eq!(transfer_authority(&mut ctx, id(1), 0), Err(VERIDICUSError::InvalidNewAuthority));
    assert_eq!(
        transfer_authority(&mut ctx, Identity::null(), 0),
        Err(VERIDICUSError::InvalidNewAuthority)
    );
    let mut ctx = TransferAuthority { state: proposed(id(2), 5), authority: id(1) };
    let before = ctx;
    assert_eq!(transfer_authority(&mut ctx, id(3), 6), Err(VERIDICUSError::AuthorityTransferPending));
    assert_eq!(ctx, before);
}

#[test]
fn cancel_clears_the_proposal() {
    let mut ctx = CancelAuthorityTransfer { state: proposed(id(2), 5), authority: id(1) };
    let ev = cancel_authority_transfer(&mut ctx, 7).unwrap();
    assert_eq!(ev, AuthorityTransferCancelled { cancelled_authority: id(2), timestamp: 7 });
    assert_eq!(ctx.state, initialized(id(1)));
    assert_eq!(
        cancel_authority_transfer(&mut ctx, 8),
        Err(VERIDICUSError::NoAuthorityTransferPending)
    );
    let mut other = CancelAuthorityTransfer { state: proposed(id(2), 5), authority: id(2) };
    assert_eq!(cancel_authority_transfer(&mut other, 8), Err(VERIDICUSError::Unauthorized));
}

#[test]
fn pause_blocks_jobs_and_unpause_restores_them() {
    let mut p = Pause { state: initialized(id(1)), authority: id(1) };
    assert_eq!(pause(&mut p, 3), Ok(ProgramPaused { timestamp: 3, paused_by: id(1) }));
    assert!(p.state.paused);
    let mut job = ExecuteJob { state: p.state, user: id(4) };
    assert_eq!(execute_quantum_job(&mut job, 5, 1, 4), Err(VERIDICUSError::ProgramPaused));
    assert_eq!(job.state.total_burned, 0);
    assert_eq!(job.state.total_jobs, 0);
    let mut u = Unpause { state: job.state, authority: id(1) };
    assert_eq!(unpause(&mut u, 5), Ok(ProgramUnpaused { timestamp: 5, unpaused_by: id(1) }));
    assert!(!u.state.paused);
    let mut job = ExecuteJob { state: u.state, user: id(4) };
    let ev = execute_quantum_job(&mut job, 5, 1, 6).unwrap();
    assert_eq!(ev.burn_amount, 4 * TOKEN_UNIT);
    assert_eq!(job.state.total_burned, 4 * TOKEN_UNIT);
    assert_eq!(job.state.total_jobs, 1);
}

#[test]
fn pause_by_non_authority_is_unauthorized() {
    let mut p = Pause { state: initialized(id(1)), authority: id(2) };
    assert_eq!(pause(&mut p, 0), Err(VERIDICUSError::Unauthorized));
    assert!(!p.state.paused);
    let mut u = Unpause { state: VERIDICUSState { paused: true, ..initialized(id(1)) }, authority: id(2) };
    assert_eq!(unpause(&mut u, 0), Err(VERIDICUSError::Unauthorized));
    assert!(u.state.paused);
}

#[test]
fn burn_table() {
    assert_eq!(burn_amount(0, 0), TOKEN_UNIT);
    assert_eq!(burn_amount(5, 0), 2 * TOKEN_UNIT);
    assert_eq!(burn_amount(10, 1), 6 * TOKEN_UNIT);
    assert_eq!(burn_amount(20, 2), 18 * TOKEN_UNIT);
    assert_eq!(burn_amount(20, 3), 30 * TOKEN_UNIT);
    assert_eq!(burn_amount(7, 9), TOKEN_UNIT);
}

#[test]
fn job_event_and_counters() {
    let mut job = ExecuteJob { state: initialized(id(1)), user: id(4) };
    let ev = execute_quantum_job(&mut job, 10, 3, 99).unwrap();
    assert_eq!(
        ev,
        JobExecuted { user: id(4), burn_amount: 15 * TOKEN_UNIT, qubits: 10, job_type: 3, timestamp: 99 }
    );
    execute_quantum_job(&mut job, 0, 0, 100).unwrap();
    assert_eq!(job.state.total_burned, 16 * TOKEN_UNIT);
    assert_eq!(job.state.total_jobs, 2);
}

#[test]
fn job_counter_overflow_is_refused() {
    let s = initialized(id(1));
    let mut job = ExecuteJob { state: VERIDICUSState { total_burned: u64::MAX - 1, ..s }, user: id(4) };
    assert_eq!(execute_quantum_job(&mut job, 0, 0, 0), Err(VERIDICUSError::ArithmeticOverflow));
    assert_eq!(job.state.total_jobs, 0);
    let mut job = ExecuteJob { state: VERIDICUSState { total_jobs: u64::MAX, ..s }, user: id(4) };
    assert_eq!(execute_quantum_job(&mut job, 0, 0, 0), Err(VERIDICUSError::ArithmeticOverflow));
    assert_eq!(job.state.total_burned, 0);
}

#[test]
fn stake_and_unstake() {
    let mut ctx = StakeVERIDICUS { staking: Staking { user: Identity::null(), amount: 0, timestamp: 0 }, user: id(5) };
    let ev = stake_VERIDICUS(&mut ctx, 700, 11).unwrap();
    assert_eq!(ev, VERIDICUSStaked { user: id(5), amount: 700, total_staked: 700 });
    stake_VERIDICUS(&mut ctx, 300, 12).unwrap();
    assert_eq!(ctx.staking, Staking { user: id(5), amount: 1000, timestamp: 12 });
    let mut un = UnstakeVERIDICUS { staking: ctx.staking, user: id(5) };
    assert_eq!(unstake_VERIDICUS(&mut un, 1001, 13), Err(VERIDICUSError::InsufficientStake));
    assert_eq!(un.staking.timestamp, 12);
    let ev = unstake_VERIDICUS(&mut un, 400, 14).unwrap();
    assert_eq!(ev, VERIDICUSUnstaked { user: id(5), amount: 400, remaining_staked: 600 });
    assert_eq!(un.staking, Staking { user: id(5), amount: 600, timestamp: 14 });
    let ev = unstake_VERIDICUS(&mut un, 600, 15).unwrap();
    assert_eq!(ev.remaining_staked, 0);
}

#[test]
fn stake_overflow_is_refused() {
    let mut ctx = StakeVERIDICUS { staking: staking(u64::MAX), user: id(5) };
    assert_eq!(stake_VERIDICUS(&mut ctx, 1, 0), Err(VERIDICUSError::ArithmeticOverflow));
    assert_eq!(ctx.staking, staking(u64::MAX));
}
