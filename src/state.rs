//! Records shared by the instructions, and the error kinds they report.
use vstd::prelude::*;

verus! {

/// Byte-wise equality of two 32-byte values.
pub fn bytes32_eq(a: &[u8; 32], b: &[u8; 32]) -> (r: bool)
    ensures
        r == (a@ == b@),
{
    let mut i: usize = 0;
    while i < 32
        invariant
            0 <= i <= 32,
            forall|j: int| 0 <= j < i ==> a@[j] == b@[j],
        decreases 32 - i,
    {
        if a[i] != b[i] {
            return false;
        }
        i = i + 1;
    }
    assert(a@ =~= b@);
    true
}

/// A 32-byte account identity (public key).
#[derive(Clone, Copy, Debug, Eq)]
pub struct Identity {
    pub bytes: [u8; 32],
}

impl View for Identity {
    type V = Seq<u8>;

    open spec fn view(&self) -> Seq<u8> {
        self.bytes@
    }
}

impl PartialEq for Identity {
    fn eq(&self, other: &Identity) -> (r: bool) {
        bytes32_eq(&self.bytes, &other.bytes)
    }
}

impl vstd::std_specs::cmp::PartialEqSpecImpl for Identity {
    open spec fn obeys_eq_spec() -> bool {
        true
    }

    open spec fn eq_spec(&self, other: &Identity) -> bool {
        self@ == other@
    }
}

impl Identity {
    /// The null identity: all bytes zero.
    pub fn null() -> (r: Identity)
        ensures
            r.is_null(),
    {
        Identity { bytes: [0u8; 32] }
    }

    pub open spec fn is_null(&self) -> bool {
        forall|i: int| 0 <= i < 32 ==> self@[i] == 0u8
    }

    /// Whether this is the null identity.
    pub fn is_default(&self) -> (r: bool)
        ensures
            r == self.is_null(),
    {
        let zero = Identity::null();
        assert(self.is_null() ==> self@ =~= zero@);
        *self == zero
    }
}

/// Total token supply, in base units (nine decimals), fixed at initialization.
pub const TOTAL_SUPPLY: u64 = 1_000_000_000_000_000;

/// The global ledger record, created once at initialization.
#[derive(Clone, Copy, Debug, PartialEq, Eq)]
pub struct VERIDICUSState {
    pub authority: Identity,
    pub pending_authority: Option<Identity>,
    pub authority_transfer_timestamp: Option<i64>,
    pub total_supply: u64,
    pub total_burned: u64,
    pub total_jobs: u64,
    pub paused: bool,
}

impl VERIDICUSState {
    /// Seconds that must pass between proposing and accepting a new authority.
    pub const AUTHORITY_TRANSFER_DELAY: i64 = 604800;

    /// A transfer in flight has both its proposed authority and the time it
    /// was proposed; a stable state has neither.
    pub open spec fn wf(&self) -> bool {
        self.pending_authority.is_some() == self.authority_transfer_timestamp.is_some()
    }
}

/// One user's staking position.
#[derive(Clone, Copy, Debug, PartialEq, Eq)]
pub struct Staking {
    pub user: Identity,
    pub amount: u64,
    pub timestamp: i64,
}

/// Why an instruction was refused. A refused instruction changes nothing.
#[derive(Clone, Copy, Debug, PartialEq, Eq, Structural)]
pub enum VERIDICUSError {
    InsufficientStake,
    InvalidProof,
    AlreadyClaimed,
    MilestoneNotReached,
    InvalidMilestone,
    AlreadyUnlocked,
    ProposalNotActive,
    NoVotes,
    InvalidProposalType,
    InvalidUnlockTime,
    LockPeriodTooShort,
    LiquidityStillLocked,
    LiquidityNotLocked,
    ProgramPaused,
    RateLimitExceeded,
    Unauthorized,
    AuthorityTransferPending,
    NoAuthorityTransferPending,
    AuthorityTransferTimelockNotExpired,
    InvalidNewAuthority,
    ArithmeticOverflow,
}

} // verus!
