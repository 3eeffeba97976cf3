//! Coin-unit arithmetic: the chain counts balances in base units
//! (lamports), a fixed number of which make one whole coin.

use vstd::prelude::*;

verus! {

/// Base units per whole coin, fixed by the chain.
pub const LAMPORTS_PER_SOL: u64 = 1_000_000_000;

/// Largest airdrop the gateway will request, in whole coins.
pub const MAX_AIRDROP_SOL: u64 = 2;

/// Seconds the flow waits after submission before re-reading the balance.
pub const SETTLEMENT_DELAY_SECS: u64 = 10;

/// Whether a requested whole-coin amount is within the airdrop ceiling.
pub open spec fn amount_within_limit(sol: u64) -> bool {
    sol <= MAX_AIRDROP_SOL
}

/// Splits a base-unit balance into whole coins and the base-unit
/// remainder, exactly: `lamports == whole * LAMPORTS_PER_SOL + rest`.
pub fn lamports_to_sol_parts(lamports: u64) -> (r: (u64, u64))
    ensures
        r.0 == lamports / LAMPORTS_PER_SOL,
        r.1 == lamports % LAMPORTS_PER_SOL,
        lamports == r.0 * LAMPORTS_PER_SOL + r.1,
        r.1 < LAMPORTS_PER_SOL,
{
    let whole: u64 = lamports / LAMPORTS_PER_SOL;
    let rest: u64 = lamports % LAMPORTS_PER_SOL;
    (whole, rest)
}

} // verus!
