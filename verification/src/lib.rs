//! A tarot oracle: seeded three-card draws from a 78-card deck, their rarity,
//! and the per-user cooldown that paces them.

pub mod cards;
pub mod encoding;
pub mod instructions;
pub mod names;
pub mod state;
pub mod utils;

use crate::instructions::divine_fortune::{counters_have_room, divined};
use crate::instructions::initialize::initialized;
use crate::instructions::upload_cards::uploaded;
use crate::state::{keys_equal, texts_of, CardLibrary, ErrorCode, Fortune, OracleState, UserRecord};
use vstd::prelude::*;

verus! {

/// Sets up the oracle with its administrator, its treasury and its fee.
pub fn initialize(
    oracle_state: &mut OracleState,
    card_library: &mut CardLibrary,
    authority: [u8; 32],
    treasury: [u8; 32],
    fee: u64,
    current_time: i64,
    oracle_state_bump: u8,
    card_library_bump: u8,
) -> (result: Result<(), ErrorCode>)
    ensures
        initialized(
            *old(oracle_state),
            *old(card_library),
            authority,
            treasury,
            fee,
            current_time,
            oracle_state_bump,
            card_library_bump,
            *final(oracle_state),
            *final(card_library),
            result,
        ),
{
    crate::instructions::initialize::handler(
        oracle_state,
        card_library,
        authority,
        treasury,
        fee,
        current_time,
        oracle_state_bump,
        card_library_bump,
    )
}

/// Uploads a batch of card images. Only the oracle's administrator may: for
/// anyone else the upload is refused and nothing is changed.
pub fn upload_cards(
    oracle_state: &mut OracleState,
    card_library: &mut CardLibrary,
    authority: &[u8; 32],
    start_index: u8,
    card_svgs: Vec<String>,
    current_time: i64,
) -> (result: Result<(), ErrorCode>)
    requires
        old(card_library).well_formed(),
    ensures
        authority@ != old(oracle_state).authority@ ==> {
            &&& result == Err::<(), ErrorCode>(ErrorCode::InvalidAuthority)
            &&& *final(oracle_state) == *old(oracle_state)
            &&& *final(card_library) == *old(card_library)
        },
        authority@ == old(oracle_state).authority@ ==> uploaded(
            *old(oracle_state),
            *old(card_library),
            start_index,
            texts_of(card_svgs@),
            current_time,
            *final(oracle_state),
            *final(card_library),
            result,
        ),
{
    if !keys_equal(authority, &oracle_state.authority) {
        return Err(ErrorCode::InvalidAuthority);
    }
    crate::instructions::upload_cards::handler(
        oracle_state,
        card_library,
        start_index,
        card_svgs,
        current_time,
    )
}

/// Tells `user` a fortune. The fee goes to the oracle's treasury: with any
/// other wallet named as the treasury the request is refused and nothing is
/// changed.
pub fn divine_fortune(
    oracle_state: &mut OracleState,
    user_record: &mut UserRecord,
    user: [u8; 32],
    treasury: &[u8; 32],
    current_time: i64,
    slot: u64,
    user_record_bump: u8,
    fortune_bump: u8,
) -> (result: Result<Fortune, ErrorCode>)
    requires
        treasury@ == old(oracle_state).treasury@ ==> counters_have_room(
            *old(oracle_state),
            *old(user_record),
            user,
            user_record_bump,
            current_time,
        ),
    ensures
        treasury@ != old(oracle_state).treasury@ ==> {
            &&& result == Err::<Fortune, ErrorCode>(ErrorCode::InvalidAuthority)
            &&& *final(oracle_state) == *old(oracle_state)
            &&& *final(user_record) == *old(user_record)
        },
        treasury@ == old(oracle_state).treasury@ ==> divined(
            *old(oracle_state),
            *old(user_record),
            user,
            current_time,
            slot,
            user_record_bump,
            fortune_bump,
            *final(oracle_state),
            *final(user_record),
            result,
        ),
{
    if !keys_equal(treasury, &oracle_state.treasury) {
        return Err(ErrorCode::InvalidAuthority);
    }
    crate::instructions::divine_fortune::handler(
        oracle_state,
        user_record,
        user,
        current_time,
        slot,
        user_record_bump,
        fortune_bump,
    )
}

/// The image of card `card_id`, if the library has a slot for it.
pub fn get_card_svg(card_library: &CardLibrary, card_id: u8) -> (result: Result<String, ErrorCode>)
    ensures
        card_id < card_library.cards@.len() ==> (result matches Ok(svg) && svg@
            == card_library.images()[card_id as int]),
        card_id >= card_library.cards@.len() ==> result == Err::<String, ErrorCode>(
            ErrorCode::InvalidCardId,
        ),
{
    if (card_id as usize) < card_library.cards.len() {
        Ok(card_library.cards[card_id as usize].clone())
    } else {
        Err(ErrorCode::InvalidCardId)
    }
}

} // verus!
