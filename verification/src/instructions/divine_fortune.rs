//! Telling a fortune.

use crate::state::{ErrorCode, Fortune, OracleState, UserRecord, is_default_key};
use crate::utils::{entropy_seed, generate_entropy_seed, is_valid_draw};
use vstd::prelude::*;

verus! {

/// The user's record as the request finds it: claimed if it was not yet, and
/// after the day's reset.
pub open spec fn record_at_request(
    record: UserRecord,
    user: [u8; 32],
    bump: u8,
    current_time: i64,
) -> UserRecord {
    record.claimed_by(user, bump).after_reset(current_time)
}

/// The counters have room for the fortune, if the request is for one that
/// will be told.
pub open spec fn counters_have_room(
    oracle_state: OracleState,
    record: UserRecord,
    user: [u8; 32],
    bump: u8,
    current_time: i64,
) -> bool {
    oracle_state.card_library_initialized && record_at_request(
        record,
        user,
        bump,
        current_time,
    ).accepts(current_time) ==> {
        &&& oracle_state.fortune_counter < u64::MAX
        &&& record_at_request(record, user, bump, current_time).has_room(current_time)
    }
}

/// What a request for a fortune does.
///
/// Without a complete card library nothing happens. Else the user's record is
/// claimed if need be and the day's reset is applied, also when the cooldown
/// then refuses the request. A fortune that is told takes the oracle's
/// counter as its id, draws its cards from the seed derived from the user,
/// the time, the slot and the counter, and is counted in both records.
pub open spec fn divined(
    oracle_before: OracleState,
    record_before: UserRecord,
    user: [u8; 32],
    current_time: i64,
    slot: u64,
    user_record_bump: u8,
    fortune_bump: u8,
    oracle_after: OracleState,
    record_after: UserRecord,
    result: Result<Fortune, ErrorCode>,
) -> bool {
    let record = record_at_request(record_before, user, user_record_bump, current_time);
    if !oracle_before.card_library_initialized {
        &&& result == Err::<Fortune, ErrorCode>(ErrorCode::CardLibraryNotInitialized)
        &&& oracle_after == oracle_before
        &&& record_after == record_before
    } else if !record.accepts(current_time) {
        &&& result == Err::<Fortune, ErrorCode>(
            ErrorCode::CooldownActive {
                seconds_remaining: record.seconds_remaining(current_time) as u64,
            },
        )
        &&& 0 < record.seconds_remaining(current_time) <= u64::MAX
        &&& record_after == record
        &&& oracle_after == oracle_before
    } else {
        &&& result matches Ok(fortune)
        &&& fortune.records(
            oracle_before.fortune_counter,
            user@,
            entropy_seed(user@, current_time, slot, oracle_before.fortune_counter),
            current_time,
            slot,
            fortune_bump,
        )
        &&& is_valid_draw(fortune.cards@)
        &&& record_after == record.after_fortune(current_time)
        &&& oracle_after == (OracleState {
            fortune_counter: (oracle_before.fortune_counter + 1) as u64,
            ..oracle_before
        })
    }
}

/// Tells `user` a fortune at `current_time`, in slot `slot`, if the library
/// is complete and the user's cooldown has run out.
pub fn handler(
    oracle_state: &mut OracleState,
    user_record: &mut UserRecord,
    user: [u8; 32],
    current_time: i64,
    slot: u64,
    user_record_bump: u8,
    fortune_bump: u8,
) -> (result: Result<Fortune, ErrorCode>)
    requires
        counters_have_room(
            *old(oracle_state),
            *old(user_record),
            user,
            user_record_bump,
            current_time,
        ),
    ensures
        divined(
            *old(oracle_state),
            *old(user_record),
            user,
            current_time,
            slot,
            user_record_bump,
            fortune_bump,
            *final(oracle_state),
            *final(user_record),
            result,
        ),
{
    if !oracle_state.card_library_initialized {
        return Err(ErrorCode::CardLibraryNotInitialized);
    }
    if is_default_key(&user_record.user) {
        *user_record = UserRecord::new(user, user_record_bump);
    }
    user_record.reset_daily_if_needed(current_time);
    match user_record.can_create_fortune(current_time) {
        Err(refusal) => {
            return Err(refusal);
        },
        Ok(_) => {},
    }
    let seed = generate_entropy_seed(&user, current_time, slot, oracle_state.fortune_counter);
    let fortune = Fortune::from_seed(
        oracle_state.fortune_counter,
        user,
        seed,
        current_time,
        slot,
        fortune_bump,
    );
    oracle_state.fortune_counter += 1;
    user_record.update_after_fortune(current_time);
    Ok(fortune)
}

} // verus!
