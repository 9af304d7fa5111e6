//! The ledger's instructions: initialization, the timelocked authority
//! transfer, the pause switch, metered job burns, and staking.
use vstd::prelude::*;

use crate::state::{Identity, Staking, VERIDICUSError, VERIDICUSState, TOTAL_SUPPLY};

verus! {

/// One whole token, in base units (nine decimals).
pub const TOKEN_UNIT: u64 = 1_000_000_000;

/// The burn every job pays before its surcharge.
pub const BASE_BURN: u64 = 1_000_000_000;

/// Stake from which the 20% discount applies (1,000 tokens).
pub const STAKE_TIER_LOW: u64 = 1_000_000_000_000;

/// Stake from which the 40% discount applies (5,000 tokens).
pub const STAKE_TIER_MID: u64 = 5_000_000_000_000;

/// Stake from which the 60% discount applies (20,000 tokens).
pub const STAKE_TIER_HIGH: u64 = 20_000_000_000_000;

/// The records initialization writes, and the first authority.
#[derive(Clone, Copy, Debug, PartialEq, Eq)]
pub struct Initialize {
    pub state: VERIDICUSState,
    pub authority: Identity,
}

/// The global record, and the signer who asks to pause.
#[derive(Clone, Copy, Debug, PartialEq, Eq)]
pub struct Pause {
    pub state: VERIDICUSState,
    pub authority: Identity,
}

/// The global record, and the signer who asks to unpause.
#[derive(Clone, Copy, Debug, PartialEq, Eq)]
pub struct Unpause {
    pub state: VERIDICUSState,
    pub authority: Identity,
}

/// The global record, and the user who runs a job.
#[derive(Clone, Copy, Debug, PartialEq, Eq)]
pub struct ExecuteJob {
    pub state: VERIDICUSState,
    pub user: Identity,
}

/// The user's staking position, and the user.
#[derive(Clone, Copy, Debug, PartialEq, Eq)]
pub struct StakeVERIDICUS {
    pub staking: Staking,
    pub user: Identity,
}

/// The user's staking position, and the user.
#[derive(Clone, Copy, Debug, PartialEq, Eq)]
pub struct UnstakeVERIDICUS {
    pub staking: Staking,
    pub user: Identity,
}

/// The staking position looked up, and whose it is.
#[derive(Clone, Copy, Debug, PartialEq, Eq)]
pub struct GetFeeDiscount {
    pub staking: Staking,
    pub user: Identity,
}

/// The global record, and the signer who proposes a new authority.
#[derive(Clone, Copy, Debug, PartialEq, Eq)]
pub struct TransferAuthority {
    pub state: VERIDICUSState,
    pub authority: Identity,
}

/// The global record, and the signer who accepts the authority.
#[derive(Clone, Copy, Debug, PartialEq, Eq)]
pub struct AcceptAuthority {
    pub state: VERIDICUSState,
    pub new_authority: Identity,
}

/// The global record, and the signer who cancels a pending transfer.
#[derive(Clone, Copy, Debug, PartialEq, Eq)]
pub struct CancelAuthorityTransfer {
    pub state: VERIDICUSState,
    pub authority: Identity,
}

/// A job ran; `burn_amount` is to be burned from the user's balance.
#[derive(Clone, Copy, Debug, PartialEq, Eq)]
pub struct JobExecuted {
    pub user: Identity,
    pub burn_amount: u64,
    pub qubits: u8,
    pub job_type: u8,
    pub timestamp: i64,
}

/// `amount` was staked; it is to move from the user to the staking reserve.
#[derive(Clone, Copy, Debug, PartialEq, Eq)]
pub struct VERIDICUSStaked {
    pub user: Identity,
    pub amount: u64,
    pub total_staked: u64,
}

/// `amount` was unstaked; it is to move from the staking reserve to the user.
#[derive(Clone, Copy, Debug, PartialEq, Eq)]
pub struct VERIDICUSUnstaked {
    pub user: Identity,
    pub amount: u64,
    pub remaining_staked: u64,
}

#[derive(Clone, Copy, Debug, PartialEq, Eq)]
pub struct ProgramPaused {
    pub timestamp: i64,
    pub paused_by: Identity,
}

#[derive(Clone, Copy, Debug, PartialEq, Eq)]
pub struct ProgramUnpaused {
    pub timestamp: i64,
    pub unpaused_by: Identity,
}

#[derive(Clone, Copy, Debug, PartialEq, Eq)]
pub struct AuthorityTransferInitiated {
    pub current_authority: Identity,
    pub new_authority: Identity,
    pub timestamp: i64,
}

#[derive(Clone, Copy, Debug, PartialEq, Eq)]
pub struct AuthorityTransferred {
    pub old_authority: Identity,
    pub new_authority: Identity,
    pub timestamp: i64,
}

#[derive(Clone, Copy, Debug, PartialEq, Eq)]
pub struct AuthorityTransferCancelled {
    pub cancelled_authority: Identity,
    pub timestamp: i64,
}

/// The global record as initialization leaves it.
pub open spec fn initial_state(authority: Identity) -> VERIDICUSState {
    VERIDICUSState {
        authority,
        pending_authority: None,
        authority_transfer_timestamp: None,
        total_supply: TOTAL_SUPPLY,
        total_burned: 0,
        total_jobs: 0,
        paused: false,
    }
}

/// Creates the global record with `ctx.authority` in charge, nothing
/// burned, no jobs run and the program unpaused.
pub fn initialize(ctx: &mut Initialize) -> (r: Result<(), VERIDICUSError>)
    ensures
        r is Ok,
        *final(ctx) == (Initialize { state: initial_state(old(ctx).authority), ..*old(ctx) }),
        final(ctx).state.wf(),
{
    ctx.state = VERIDICUSState {
        authority: ctx.authority,
        pending_authority: None,
        authority_transfer_timestamp: None,
        total_supply: TOTAL_SUPPLY,
        total_burned: 0,
        total_jobs: 0,
        paused: false,
    };
    Ok(())
}

/// `Unauthorized` unless `signer` is the current authority.
pub open spec fn authority_error(state: VERIDICUSState, signer: Identity) -> Option<VERIDICUSError> {
    if signer@ != state.authority@ {
        Some(VERIDICUSError::Unauthorized)
    } else {
        None
    }
}

/// Why a proposal of `new_authority` is refused, if it is.
pub open spec fn transfer_error(ctx: TransferAuthority, new_authority: Identity) -> Option<
    VERIDICUSError,
> {
    if authority_error(ctx.state, ctx.authority) is Some {
        authority_error(ctx.state, ctx.authority)
    } else if ctx.state.pending_authority is Some {
        Some(VERIDICUSError::AuthorityTransferPending)
    } else if new_authority@ == ctx.state.authority@ || new_authority.is_null() {
        Some(VERIDICUSError::InvalidNewAuthority)
    } else {
        None
    }
}

/// Proposes `new_authority` as the next authority, starting the timelock at
/// `now`.
pub fn transfer_authority(ctx: &mut TransferAuthority, new_authority: Identity, now: i64) -> (r:
    Result<AuthorityTransferInitiated, VERIDICUSError>)
    ensures
        match r {
            Ok(ev) => {
                &&& transfer_error(*old(ctx), new_authority) is None
                &&& *final(ctx) == (TransferAuthority {
                    state: VERIDICUSState {
                        pending_authority: Some(new_authority),
                        authority_transfer_timestamp: Some(now),
                        ..old(ctx).state
                    },
                    ..*old(ctx)
                })
                &&& ev == (AuthorityTransferInitiated {
                    current_authority: old(ctx).state.authority,
                    new_authority,
                    timestamp: now,
                })
                &&& final(ctx).state.wf()
            },
            Err(e) => {
                &&& transfer_error(*old(ctx), new_authority) == Some(e)
                &&& *final(ctx) == *old(ctx)
            },
        },
{
    if !(ctx.authority == ctx.state.authority) {
        return Err(VERIDICUSError::Unauthorized);
    }
    if ctx.state.pending_authority.is_some() {
        return Err(VERIDICUSError::AuthorityTransferPending);
    }
    if new_authority == ctx.state.authority {
        return Err(VERIDICUSError::InvalidNewAuthority);
    }
    if new_authority.is_default() {
        return Err(VERIDICUSError::InvalidNewAuthority);
    }
    ctx.state.pending_authority = Some(new_authority);
    ctx.state.authority_transfer_timestamp = Some(now);
    Ok(AuthorityTransferInitiated { current_authority: ctx.state.authority, new_authority, timestamp: now })
}

/// Why accepting the authority at `now` is refused, if it is.
pub open spec fn accept_error(ctx: AcceptAuthority, now: i64) -> Option<VERIDICUSError> {
    if ctx.state.pending_authority is None || ctx.state.authority_transfer_timestamp is None {
        Some(VERIDICUSError::NoAuthorityTransferPending)
    } else if ctx.new_authority@ != ctx.state.pending_authority->Some_0@ {
        Some(VERIDICUSError::Unauthorized)
    } else if now - ctx.state.authority_transfer_timestamp->Some_0
        < VERIDICUSState::AUTHORITY_TRANSFER_DELAY {
        Some(VERIDICUSError::AuthorityTransferTimelockNotExpired)
    } else {
        None
    }
}

/// Completes a pending transfer: the proposed authority, signing at least
/// the timelock's delay after the proposal, takes over.
pub fn accept_authority(ctx: &mut AcceptAuthority, now: i64) -> (r: Result<
    AuthorityTransferred,
    VERIDICUSError,
>)
    ensures
        match r {
            Ok(ev) => {
                &&& accept_error(*old(ctx), now) is None
                &&& *final(ctx) == (AcceptAuthority {
                    state: VERIDICUSState {
                        authority: old(ctx).state.pending_authority->Some_0,
                        pending_authority: None,
                        authority_transfer_timestamp: None,
                        ..old(ctx).state
                    },
                    ..*old(ctx)
                })
                &&& ev == (AuthorityTransferred {
                    old_authority: old(ctx).state.authority,
                    new_authority: old(ctx).state.pending_authority->Some_0,
                    timestamp: now,
                })
                &&& final(ctx).state.wf()
            },
            Err(e) => {
                &&& accept_error(*old(ctx), now) == Some(e)
                &&& *final(ctx) == *old(ctx)
            },
        },
{
    let pending: Identity = match ctx.state.pending_authority {
        Some(p) => p,
        None => {
            return Err(VERIDICUSError::NoAuthorityTransferPending);
        },
    };
    let proposed_at: i64 = match ctx.state.authority_transfer_timestamp {
        Some(t) => t,
        None => {
            return Err(VERIDICUSError::NoAuthorityTransferPending);
        },
    };
    if !(ctx.new_authority == pending) {
        return Err(VERIDICUSError::Unauthorized);
    }
    let elapsed: i128 = now as i128 - proposed_at as i128;
    if elapsed < VERIDICUSState::AUTHORITY_TRANSFER_DELAY as i128 {
        return Err(VERIDICUSError::AuthorityTransferTimelockNotExpired);
    }
    let old_authority: Identity = ctx.state.authority;
    ctx.state.authority = pending;
    ctx.state.pending_authority = None;
    ctx.state.authority_transfer_timestamp = None;
    Ok(AuthorityTransferred { old_authority, new_authority: pending, timestamp: now })
}

/// Why cancelling is refused, if it is.
pub open spec fn cancel_error(ctx: CancelAuthorityTransfer) -> Option<VERIDICUSError> {
    if authority_error(ctx.state, ctx.authority) is Some {
        authority_error(ctx.state, ctx.authority)
    } else if ctx.state.pending_authority is None {
        Some(VERIDICUSError::NoAuthorityTransferPending)
    } else {
        None
    }
}

/// Withdraws a pending proposal; the current authority stays.
pub fn cancel_authority_transfer(ctx: &mut CancelAuthorityTransfer, now: i64) -> (r: Result<
    AuthorityTransferCancelled,
    VERIDICUSError,
>)
    ensures
        match r {
            Ok(ev) => {
                &&& cancel_error(*old(ctx)) is None
                &&& *final(ctx) == (CancelAuthorityTransfer {
                    state: VERIDICUSState {
                        pending_authority: None,
                        authority_transfer_timestamp: None,
                        ..old(ctx).state
                    },
                    ..*old(ctx)
                })
                &&& ev == (AuthorityTransferCancelled {
                    cancelled_authority: old(ctx).state.pending_authority->Some_0,
                    timestamp: now,
                })
                &&& final(ctx).state.wf()
            },
            Err(e) => {
                &&& cancel_error(*old(ctx)) == Some(e)
                &&& *final(ctx) == *old(ctx)
            },
        },
{
    if !(ctx.authority == ctx.state.authority) {
        return Err(VERIDICUSError::Unauthorized);
    }
    let cancelled: Identity = match ctx.state.pending_authority {
        Some(p) => p,
        None => {
            return Err(VERIDICUSError::NoAuthorityTransferPending);
        },
    };
    ctx.state.pending_authority = None;
    ctx.state.authority_transfer_timestamp = None;
    Ok(AuthorityTransferCancelled { cancelled_authority: cancelled, timestamp: now })
}

/// Stops job execution. Only the authority may pause.
pub fn pause(ctx: &mut Pause, now: i64) -> (r: Result<ProgramPaused, VERIDICUSError>)
    ensures
        match r {
            Ok(ev) => {
                &&& authority_error(old(ctx).state, old(ctx).authority) is None
                &&& *final(ctx) == (Pause {
                    state: VERIDICUSState { paused: true, ..old(ctx).state },
                    ..*old(ctx)
                })
                &&& ev == (ProgramPaused { timestamp: now, paused_by: old(ctx).authority })
            },
            Err(e) => {
                &&& authority_error(old(ctx).state, old(ctx).authority) == Some(e)
                &&& *final(ctx) == *old(ctx)
            },
        },
{
    if !(ctx.authority == ctx.state.authority) {
        return Err(VERIDICUSError::Unauthorized);
    }
    ctx.state.paused = true;
    Ok(ProgramPaused { timestamp: now, paused_by: ctx.authority })
}

/// Lets jobs run again. Only the authority may unpause.
pub fn unpause(ctx: &mut Unpause, now: i64) -> (r: Result<ProgramUnpaused, VERIDICUSError>)
    ensures
        match r {
            Ok(ev) => {
                &&& authority_error(old(ctx).state, old(ctx).authority) is None
                &&& *final(ctx) == (Unpause {
                    state: VERIDICUSState { paused: false, ..old(ctx).state },
                    ..*old(ctx)
                })
                &&& ev == (ProgramUnpaused { timestamp: now, unpaused_by: old(ctx).authority })
            },
            Err(e) => {
                &&& authority_error(old(ctx).state, old(ctx).authority) == Some(e)
                &&& *final(ctx) == *old(ctx)
            },
        },
{
    if !(ctx.authority == ctx.state.authority) {
        return Err(VERIDICUSError::Unauthorized);
    }
    ctx.state.paused = false;
    Ok(ProgramUnpaused { timestamp: now, unpaused_by: ctx.authority })
}

/// Extra burn for a qubit tier; an unknown tier adds nothing.
pub open spec fn qubit_surcharge(qubits: u8) -> u64 {
    if qubits == 5 {
        1_000_000_000
    } else if qubits == 10 {
        2_000_000_000
    } else if qubits == 20 {
        5_000_000_000
    } else {
        0
    }
}

/// Multiplier for a job type; an unknown type counts once.
pub open spec fn complexity_multiplier(job_type: u8) -> u64 {
    if job_type == 0 {
        1
    } else if job_type == 1 {
        2
    } else if job_type == 2 {
        3
    } else if job_type == 3 {
        5
    } else {
        1
    }
}

/// What a job burns.
pub open spec fn job_burn(qubits: u8, job_type: u8) -> int {
    (BASE_BURN + qubit_surcharge(qubits)) * complexity_multiplier(job_type)
}

/// The burn for a job of `job_type` on `qubits` qubits: the base fee plus
/// the tier's surcharge, times the type's multiplier.
pub fn burn_amount(qubits: u8, job_type: u8) -> (r: u64)
    ensures
        r == job_burn(qubits, job_type),
{
    let qubit_burn: u64 = match qubits {
        5 => 1_000_000_000,
        10 => 2_000_000_000,
        20 => 5_000_000_000,
        _ => 0,
    };
    let multiplier: u64 = match job_type {
        0 => 1,
        1 => 2,
        2 => 3,
        3 => 5,
        _ => 1,
    };
    (BASE_BURN + qubit_burn) * multiplier
}

/// Why a job with burn `burn` is refused, if it is.
pub open spec fn job_error(state: VERIDICUSState, burn: int) -> Option<VERIDICUSError> {
    if state.paused {
        Some(VERIDICUSError::ProgramPaused)
    } else if state.total_burned + burn > u64::MAX || state.total_jobs + 1 > u64::MAX {
        Some(VERIDICUSError::ArithmeticOverflow)
    } else {
        None
    }
}

/// The global record after a job with burn `burn`.
pub open spec fn job_post(state: VERIDICUSState, burn: int) -> VERIDICUSState {
    VERIDICUSState {
        total_burned: (state.total_burned + burn) as u64,
        total_jobs: (state.total_jobs + 1) as u64,
        ..state
    }
}

/// Meters a job: unless the program is paused, adds its burn to the total
/// burned and counts it, refusing rather than wrapping a counter.
pub fn execute_quantum_job(ctx: &mut ExecuteJob, qubits: u8, job_type: u8, now: i64) -> (r: Result<
    JobExecuted,
    VERIDICUSError,
>)
    ensures
        match r {
            Ok(ev) => {
                &&& job_error(old(ctx).state, job_burn(qubits, job_type)) is None
                &&& *final(ctx) == (ExecuteJob {
                    state: job_post(old(ctx).state, job_burn(qubits, job_type)),
                    ..*old(ctx)
                })
                &&& ev == (JobExecuted {
                    user: old(ctx).user,
                    burn_amount: job_burn(qubits, job_type) as u64,
                    qubits,
                    job_type,
                    timestamp: now,
                })
            },
            Err(e) => {
                &&& job_error(old(ctx).state, job_burn(qubits, job_type)) == Some(e)
                &&& *final(ctx) == *old(ctx)
            },
        },
{
    if ctx.state.paused {
        return Err(VERIDICUSError::ProgramPaused);
    }
    let total_burn: u64 = burn_amount(qubits, job_type);
    let burned: u64 = match ctx.state.total_burned.checked_add(total_burn) {
        Some(b) => b,
        None => {
            return Err(VERIDICUSError::ArithmeticOverflow);
        },
    };
    let jobs: u64 = match ctx.state.total_jobs.checked_add(1) {
        Some(j) => j,
        None => {
            return Err(VERIDICUSError::ArithmeticOverflow);
        },
    };
    ctx.state.total_burned = burned;
    ctx.state.total_jobs = jobs;
    Ok(JobExecuted { user: ctx.user, burn_amount: total_burn, qubits, job_type, timestamp: now })
}

/// Adds `amount` to the user's stake, stamped `now`.
#[allow(non_snake_case)]
pub fn stake_VERIDICUS(ctx: &mut StakeVERIDICUS, amount: u64, now: i64) -> (r: Result<
    VERIDICUSStaked,
    VERIDICUSError,
>)
    ensures
        match r {
            Ok(ev) => {
                &&& old(ctx).staking.amount + amount <= u64::MAX
                &&& *final(ctx) == (StakeVERIDICUS {
                    staking: Staking {
                        user: old(ctx).user,
                        amount: (old(ctx).staking.amount + amount) as u64,
                        timestamp: now,
                    },
                    ..*old(ctx)
                })
                &&& ev == (VERIDICUSStaked {
                    user: old(ctx).user,
                    amount,
                    total_staked: (old(ctx).staking.amount + amount) as u64,
                })
            },
            Err(e) => {
                &&& old(ctx).staking.amount + amount > u64::MAX
                &&& e == VERIDICUSError::ArithmeticOverflow
                &&& *final(ctx) == *old(ctx)
            },
        },
{
    let total: u64 = match ctx.staking.amount.checked_add(amount) {
        Some(t) => t,
        None => {
            return Err(VERIDICUSError::ArithmeticOverflow);
        },
    };
    ctx.staking = Staking { user: ctx.user, amount: total, timestamp: now };
    Ok(VERIDICUSStaked { user: ctx.user, amount, total_staked: total })
}

/// Takes `amount` off the user's stake, refusing to go below zero, and
/// stamps the position with `now`.
#[allow(non_snake_case)]
pub fn unstake_VERIDICUS(ctx: &mut UnstakeVERIDICUS, amount: u64, now: i64) -> (r: Result<
    VERIDICUSUnstaked,
    VERIDICUSError,
>)
    ensures
        match r {
            Ok(ev) => {
                &&& amount <= old(ctx).staking.amount
                &&& *final(ctx) == (UnstakeVERIDICUS {
                    staking: Staking {
                        amount: (old(ctx).staking.amount - amount) as u64,
                        timestamp: now,
                        ..old(ctx).staking
                    },
                    ..*old(ctx)
                })
                &&& ev == (VERIDICUSUnstaked {
                    user: old(ctx).user,
                    amount,
                    remaining_staked: (old(ctx).staking.amount - amount) as u64,
                })
            },
            Err(e) => {
                &&& amount > old(ctx).staking.amount
                &&& e == VERIDICUSError::InsufficientStake
                &&& *final(ctx) == *old(ctx)
            },
        },
{
    if ctx.staking.amount < amount {
        return Err(VERIDICUSError::InsufficientStake);
    }
    ctx.staking.amount = ctx.staking.amount - amount;
    ctx.staking.timestamp = now;
    Ok(VERIDICUSUnstaked { user: ctx.user, amount, remaining_staked: ctx.staking.amount })
}

/// The fee discount, in percent, that a stake of `amount` earns.
pub open spec fn discount_for(amount: u64) -> u8 {
    if amount >= STAKE_TIER_HIGH {
        60
    } else if amount >= STAKE_TIER_MID {
        40
    } else if amount >= STAKE_TIER_LOW {
        20
    } else {
        0
    }
}

/// The discount tier of a stake: 60% from 20,000 tokens, 40% from 5,000,
/// 20% from 1,000, none below.
pub fn discount_tier(amount: u64) -> (r: u8)
    ensures
        r == discount_for(amount),
{
    if amount >= STAKE_TIER_HIGH {
        60
    } else if amount >= STAKE_TIER_MID {
        40
    } else if amount >= STAKE_TIER_LOW {
        20
    } else {
        0
    }
}

/// The fee discount, in percent, of the looked-up position.
pub fn get_fee_discount(ctx: &GetFeeDiscount) -> (r: Result<u8, VERIDICUSError>)
    ensures
        r == Ok::<u8, VERIDICUSError>(discount_for(ctx.staking.amount)),
{
    Ok(discount_tier(ctx.staking.amount))
}

/// The timelock ends exactly a week after the proposal: the proposed
/// authority is refused one second before, with
/// `AuthorityTransferTimelockNotExpired`, and accepted at that instant.
pub proof fn lemma_timelock_boundary(ctx: AcceptAuthority, proposed_at: i64)
    requires
        ctx.state.pending_authority == Some(ctx.new_authority),
        ctx.state.authority_transfer_timestamp == Some(proposed_at),
        proposed_at + VERIDICUSState::AUTHORITY_TRANSFER_DELAY <= i64::MAX,
    ensures
        accept_error(ctx, (proposed_at + 604799) as i64) == Some(
            VERIDICUSError::AuthorityTransferTimelockNotExpired,
        ),
        accept_error(ctx, (proposed_at + 604800) as i64) is None,
{
}

/// The pause switch gates jobs and nothing else: once the authority pauses,
/// every job is refused with `ProgramPaused` and leaves the counters as they
/// were; once it unpauses, jobs meet the very record they met before the
/// pause, and one whose counters do not overflow succeeds, adding its burn
/// and one job.
pub proof fn lemma_pause_gates_jobs(state: VERIDICUSState, authority: Identity, burn: int)
    requires
        authority_error(state, authority) is None,
        !state.paused,
    ensures
        ({
            let paused = VERIDICUSState { paused: true, ..state };
            let resumed = VERIDICUSState { paused: false, ..paused };
            &&& authority_error(paused, authority) is None
            &&& job_error(paused, burn) == Some(VERIDICUSError::ProgramPaused)
            &&& paused.total_burned == state.total_burned
            &&& paused.total_jobs == state.total_jobs
            &&& resumed == state
            &&& job_error(resumed, burn) == job_error(state, burn)
            &&& (0 <= burn && state.total_burned + burn <= u64::MAX && state.total_jobs + 1
                <= u64::MAX) ==> {
                &&& job_error(resumed, burn) is None
                &&& job_post(resumed, burn).total_burned == state.total_burned + burn
                &&& job_post(resumed, burn).total_jobs == state.total_jobs + 1
            }
        }),
{
}

} // verus!
