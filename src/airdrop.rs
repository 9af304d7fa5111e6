//! Airdrop claims gated by a Merkle proof, and milestone-driven vesting.
use vstd::prelude::*;

use crate::merkle::{merkle_verifies, proof_views, verify_merkle_proof};
use crate::state::{Identity, VERIDICUSError, VERIDICUSState};

verus! {

/// Length of a vesting schedule, in seconds (six 30-day months); informational.
pub const VESTING_PERIOD: i64 = 15_552_000;

/// The airdrop's configuration: the root of the tree of entitlements.
#[derive(Clone, Copy, Debug, PartialEq, Eq)]
pub struct AirdropState {
    pub merkle_root: [u8; 32],
}

/// The record of one leaf's claim; a fresh record is unclaimed.
#[derive(Clone, Copy, Debug, PartialEq, Eq)]
pub struct ClaimRecord {
    pub claimed: bool,
    pub leaf: [u8; 32],
    pub claimed_at: i64,
}

/// One user's vesting schedule.
#[derive(Clone, Copy, Debug, PartialEq, Eq)]
pub struct Vesting {
    pub user: Identity,
    pub total_amount: u64,
    pub unlocked: u64,
    pub vesting_period: i64,
    pub start_timestamp: i64,
}

impl Vesting {
    /// No more is unlocked than the schedule holds.
    pub open spec fn wf(&self) -> bool {
        self.unlocked <= self.total_amount
    }
}

/// The records a claim reads and writes, and the claimant.
#[derive(Clone, Copy, Debug, PartialEq, Eq)]
pub struct ClaimAirdrop {
    pub airdrop: AirdropState,
    pub claim_record: ClaimRecord,
    pub vesting: Vesting,
    pub user: Identity,
}

/// The records an unlock reads and writes, and the user.
#[derive(Clone, Copy, Debug, PartialEq, Eq)]
pub struct UnlockVested {
    pub vesting: Vesting,
    pub state: VERIDICUSState,
    pub user: Identity,
}

/// A successful claim: `immediate` is to be paid out now from the airdrop
/// reserve, `vested` now stands in the user's vesting schedule.
#[derive(Clone, Copy, Debug, PartialEq, Eq)]
pub struct AirdropClaimed {
    pub user: Identity,
    pub immediate: u64,
    pub vested: u64,
}

/// A successful unlock: `amount` is to be paid out from the vesting reserve.
#[derive(Clone, Copy, Debug, PartialEq, Eq)]
pub struct VestedUnlocked {
    pub user: Identity,
    pub milestone: u8,
    pub amount: u64,
}

/// Why a claim is refused, if it is.
pub open spec fn claim_error(ctx: ClaimAirdrop, proof: Seq<Seq<u8>>, leaf: Seq<u8>) -> Option<
    VERIDICUSError,
> {
    if !merkle_verifies(proof, leaf, ctx.airdrop.merkle_root@) {
        Some(VERIDICUSError::InvalidProof)
    } else if ctx.claim_record.claimed {
        Some(VERIDICUSError::AlreadyClaimed)
    } else {
        None
    }
}

/// The records after a successful claim.
pub open spec fn claim_post(ctx: ClaimAirdrop, amount: u64, leaf: [u8; 32], now: i64) -> ClaimAirdrop {
    ClaimAirdrop {
        claim_record: ClaimRecord { claimed: true, leaf, claimed_at: now },
        vesting: Vesting {
            user: ctx.user,
            total_amount: (amount - amount / 2) as u64,
            unlocked: 0,
            vesting_period: VESTING_PERIOD,
            start_timestamp: now,
        },
        ..ctx
    }
}

/// Claims the entitlement `amount` committed to by `leaf`: half (rounded
/// down) is paid now, the rest goes into the user's vesting schedule, and the
/// leaf's record is marked claimed.
pub fn claim_airdrop(
    ctx: &mut ClaimAirdrop,
    proof: &[[u8; 32]],
    amount: u64,
    leaf: [u8; 32],
    now: i64,
) -> (r: Result<AirdropClaimed, VERIDICUSError>)
    ensures
        match r {
            Ok(ev) => {
                &&& claim_error(*old(ctx), proof_views(proof@), leaf@) is None
                &&& *final(ctx) == claim_post(*old(ctx), amount, leaf, now)
                &&& ev == (AirdropClaimed {
                    user: old(ctx).user,
                    immediate: amount / 2,
                    vested: (amount - amount / 2) as u64,
                })
                &&& ev.immediate + ev.vested == amount
                &&& final(ctx).vesting.wf()
            },
            Err(e) => {
                &&& claim_error(*old(ctx), proof_views(proof@), leaf@) == Some(e)
                &&& *final(ctx) == *old(ctx)
            },
        },
{
    if !verify_merkle_proof(proof, &leaf, &ctx.airdrop.merkle_root) {
        return Err(VERIDICUSError::InvalidProof);
    }
    if ctx.claim_record.claimed {
        return Err(VERIDICUSError::AlreadyClaimed);
    }
    let immediate: u64 = amount / 2;
    let vested: u64 = amount - immediate;
    ctx.vesting = Vesting {
        user: ctx.user,
        total_amount: vested,
        unlocked: 0,
        vesting_period: VESTING_PERIOD,
        start_timestamp: now,
    };
    ctx.claim_record = ClaimRecord { claimed: true, leaf, claimed_at: now };
    Ok(AirdropClaimed { user: ctx.user, immediate, vested })
}

/// Jobs that must have run before a milestone can be unlocked; `None` for a
/// milestone that does not exist.
pub open spec fn required_jobs(milestone: u8) -> Option<u64> {
    if milestone == 0 {
        Some(1_000u64)
    } else if milestone == 1 {
        Some(5_000u64)
    } else if milestone == 2 {
        Some(10_000u64)
    } else if milestone == 3 {
        Some(20_000u64)
    } else {
        None
    }
}

/// Percentage of the schedule that a milestone unlocks.
pub open spec fn unlock_percentage(milestone: u8) -> u64 {
    if milestone == 0 {
        10
    } else if milestone == 1 {
        20
    } else if milestone == 2 {
        30
    } else if milestone == 3 {
        40
    } else {
        0
    }
}

/// The amount unlocked once `milestone` is reached: the percentage of the
/// schedule's total, rounded down.
pub open spec fn unlock_target(total_amount: u64, milestone: u8) -> int {
    (total_amount * unlock_percentage(milestone)) as int / 100
}

/// Why an unlock is refused, if it is.
pub open spec fn unlock_error(ctx: UnlockVested, milestone: u8) -> Option<VERIDICUSError> {
    if required_jobs(milestone) is None {
        Some(VERIDICUSError::InvalidMilestone)
    } else if ctx.state.total_jobs < required_jobs(milestone)->Some_0 {
        Some(VERIDICUSError::MilestoneNotReached)
    } else if ctx.vesting.unlocked >= unlock_target(ctx.vesting.total_amount, milestone) {
        Some(VERIDICUSError::AlreadyUnlocked)
    } else {
        None
    }
}

/// Unlocks the vested share of `milestone` once enough jobs have run. The
/// schedule's `unlocked` is raised to the milestone's target, and the event
/// carries that whole target as the amount to pay out (not its increase over
/// what was unlocked before).
pub fn unlock_vested(ctx: &mut UnlockVested, milestone: u8) -> (r: Result<
    VestedUnlocked,
    VERIDICUSError,
>)
    ensures
        match r {
            Ok(ev) => {
                &&& unlock_error(*old(ctx), milestone) is None
                &&& *final(ctx) == (UnlockVested {
                    vesting: Vesting {
                        unlocked: unlock_target(old(ctx).vesting.total_amount, milestone) as u64,
                        ..old(ctx).vesting
                    },
                    ..*old(ctx)
                })
                &&& ev == (VestedUnlocked {
                    user: old(ctx).user,
                    milestone,
                    amount: unlock_target(old(ctx).vesting.total_amount, milestone) as u64,
                })
                &&& final(ctx).vesting.unlocked > old(ctx).vesting.unlocked
                &&& final(ctx).vesting.wf()
            },
            Err(e) => {
                &&& unlock_error(*old(ctx), milestone) == Some(e)
                &&& *final(ctx) == *old(ctx)
            },
        },
{
    let required: u64 = match milestone {
        0 => 1_000,
        1 => 5_000,
        2 => 10_000,
        3 => 20_000,
        _ => {
            return Err(VERIDICUSError::InvalidMilestone);
        },
    };
    if ctx.state.total_jobs < required {
        return Err(VERIDICUSError::MilestoneNotReached);
    }
    let percentage: u64 = match milestone {
        0 => 10,
        1 => 20,
        2 => 30,
        3 => 40,
        _ => 0,
    };
    let total: u64 = ctx.vesting.total_amount;
    let (hundreds, rest): (u64, u64) = (total / 100, total % 100);
    assert(hundreds * percentage <= total) by (nonlinear_arith)
        requires
            hundreds == total / 100,
            percentage <= 40,
    ;
    let whole: u64 = hundreds * percentage;
    let part: u64 = rest * percentage / 100;
    assert(whole + part == (total * percentage) as int / 100 && whole + part <= total)
        by (nonlinear_arith)
        requires
            hundreds == total / 100,
            rest == total % 100,
            whole == hundreds * percentage,
            part == rest * percentage / 100,
            percentage <= 40,
    ;
    let target: u64 = whole + part;
    if ctx.vesting.unlocked >= target {
        return Err(VERIDICUSError::AlreadyUnlocked);
    }
    ctx.vesting.unlocked = target;
    Ok(VestedUnlocked { user: ctx.user, milestone, amount: target })
}

/// A leaf pays out once: after a successful claim, a claim that meets the
/// record it left behind is refused, with `AlreadyClaimed` when its proof is
/// valid, so nothing is paid twice.
pub proof fn lemma_claim_only_once(
    ctx: ClaimAirdrop,
    proof: Seq<Seq<u8>>,
    amount: u64,
    leaf: [u8; 32],
    now: i64,
    again: ClaimAirdrop,
    other_proof: Seq<Seq<u8>>,
)
    requires
        claim_error(ctx, proof, leaf@) is None,
        again.claim_record == claim_post(ctx, amount, leaf, now).claim_record,
    ensures
        claim_error(again, other_proof, leaf@) is Some,
        again.airdrop == ctx.airdrop ==> claim_error(again, proof, leaf@) == Some(
            VERIDICUSError::AlreadyClaimed,
        ),
{
}

/// Unlocking is a ratchet: after a successful unlock at `milestone`, a
/// second unlock at the same or a lower milestone is refused with
/// `AlreadyUnlocked`.
pub proof fn lemma_unlock_ratchet(ctx: UnlockVested, milestone: u8, again: u8)
    requires
        unlock_error(ctx, milestone) is None,
        again <= milestone,
    ensures
        unlock_error(
            UnlockVested {
                vesting: Vesting {
                    unlocked: unlock_target(ctx.vesting.total_amount, milestone) as u64,
                    ..ctx.vesting
                },
                ..ctx
            },
            again,
        ) == Some(VERIDICUSError::AlreadyUnlocked),
{
    let t = ctx.vesting.total_amount;
    let (p, q) = (unlock_percentage(again), unlock_percentage(milestone));
    assert(p <= q);
    assert(t * p <= t * q) by (nonlinear_arith)
        requires
            p <= q,
    ;
    assert((t * p) as int / 100 <= (t * q) as int / 100) by (nonlinear_arith)
        requires
            t * p <= t * q,
    ;
    assert((t * q) as int / 100 <= t) by (nonlinear_arith)
        requires
            q <= 40,
    ;
}

} // verus!
