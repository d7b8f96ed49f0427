//! Setting up the oracle.

use crate::state::{CardLibrary, ErrorCode, OracleState};
use vstd::prelude::*;

verus! {

/// Lowest fee that the oracle may be set up with, in lamports.
pub const MIN_FEE: u64 = 1_000_000;

/// Highest fee that the oracle may be set up with, in lamports.
pub const MAX_FEE: u64 = 100_000_000;

/// Design version that a new library starts with.
pub const INITIAL_VERSION: u8 = 1;

/// The fee is one that the oracle may be set up with.
pub open spec fn fee_in_range(fee: u64) -> bool {
    1_000_000 <= fee <= 100_000_000
}

/// What setting up does: with a fee in the accepted range both records are
/// filled in, the counter at 0 and the library without slots; any other fee
/// is refused and nothing is changed.
pub open spec fn initialized(
    oracle_before: OracleState,
    library_before: CardLibrary,
    authority: [u8; 32],
    treasury: [u8; 32],
    fee: u64,
    current_time: i64,
    oracle_state_bump: u8,
    card_library_bump: u8,
    oracle_after: OracleState,
    library_after: CardLibrary,
    result: Result<(), ErrorCode>,
) -> bool {
    if fee_in_range(fee) {
        &&& result == Ok::<(), ErrorCode>(())
        &&& oracle_after == (OracleState {
            authority,
            treasury,
            fee,
            fortune_counter: 0,
            card_library_initialized: false,
            bump: oracle_state_bump,
        })
        &&& library_after.cards@.len() == 0
        &&& library_after.version == 1
        &&& library_after.last_updated == current_time
        &&& library_after.bump == card_library_bump
    } else {
        &&& result == Err::<(), ErrorCode>(ErrorCode::InsufficientFunds)
        &&& oracle_after == oracle_before
        &&& library_after == library_before
    }
}

/// Sets up the oracle's state and an empty card library.
pub fn handler(
    oracle_state: &mut OracleState,
    card_library: &mut CardLibrary,
    authority: [u8; 32],
    treasury: [u8; 32],
    fee: u64,
    current_time: i64,
    oracle_state_bump: u8,
    card_library_bump: u8,
) -> (result: Result<(), ErrorCode>)
    ensures
        initialized(
            *old(oracle_state),
            *old(card_library),
            authority,
            treasury,
            fee,
            current_time,
            oracle_state_bump,
            card_library_bump,
            *final(oracle_state),
            *final(card_library),
            result,
        ),
{
    if fee < MIN_FEE || fee > MAX_FEE {
        return Err(ErrorCode::InsufficientFunds);
    }
    oracle_state.authority = authority;
    oracle_state.treasury = treasury;
    oracle_state.fee = fee;
    oracle_state.fortune_counter = 0;
    oracle_state.card_library_initialized = false;
    oracle_state.bump = oracle_state_bump;

    card_library.cards = Vec::new();
    card_library.version = INITIAL_VERSION;
    card_library.last_updated = current_time;
    card_library.bump = card_library_bump;
    Ok(())
}

} // verus!
