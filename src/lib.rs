//! Verified state-transition logic of the VERIDICUS token ledger: Merkle-gated
//! airdrop claims with milestone vesting, usage-metered burns, stake-weighted
//! fee discounts, and a timelocked two-phase authority transfer with a pause
//! switch.
//!
//! Each instruction is a function from the records it reads (gathered in a
//! context struct, as the hosting runtime hands them over) and plain inputs
//! (the clock reading, instruction arguments) to the new records and the event
//! that describes what happened. Moving tokens, storing accounts and emitting
//! events are left to the host.
pub mod airdrop;
pub mod merkle;
pub mod program;
pub mod state;

