use cyberdamus::instructions::divine_fortune;
use cyberdamus::instructions::initialize;
use cyberdamus::instructions::upload_cards;
use cyberdamus::state::{CardLibrary, ErrorCode, Fortune, OracleState, RarityTier, UserRecord};
use cyberdamus::utils::{calculate_rarity, fisher_yates_draw_three, generate_entropy_seed};

const AUTHORITY: [u8; 32] = [11u8; 32];
const TREASURY: [u8; 32] = [12u8; 32];
const USER: [u8; 32] = [7u8; 32];

fn blank_state() -> OracleState {
    OracleState {
        authority: [0u8; 32],
        treasury: [0u8; 32],
        fee: 0,
        fortune_counter: 0,
        card_library_initialized: false,
        bump: 0,
    }
}

fn blank_library() -> CardLibrary {
    CardLibrary { cards: Vec::new(), version: 0, last_updated: 0, bump: 0 }
}

fn blank_record() -> UserRecord {
    UserRecord {
        user: [0u8; 32],
        last_fortune_timestamp: 0,
        daily_count: 0,
        last_reset_day: 0,
        cooldown_until: 0,
        total_fortunes: 0,
        bump: 0,
    }
}

fn ready_oracle() -> (OracleState, CardLibrary) {
    let mut state = blank_state();
    let mut library = blank_library();
    cyberdamus::initialize(&mut state, &mut library, AUTHORITY, TREASURY, 10_000_000, 50, 3, 4)
        .unwrap();
    let mut start = 0u8;
    while start < 78 {
        let n = if start + 10 <= 78 { 10 } else { 78 - start };
        let batch: Vec<String> = (0..n).map(|i| format!("<svg>{}</svg>", start + i)).collect();
        cyberdamus::upload_cards(&mut state, &mut library, &AUTHORITY, start, batch, 60 + start as i64)
            .unwrap();
        start += n;
    }
    (state, library)
}

#[test]
fn initialize_fills_in_both_records() {
    let mut state = blank_state();
    let mut library = blank_library();
    library.cards.push("left over".to_string());
    let result = initialize::handler(&mut state, &mut library, AUTHORITY, TREASURY, 10_000_000, 1234, 7, 9);
    assert_eq!(result, Ok(()));
    assert_eq!(
        state,
        OracleState {
            authority: AUTHORITY,
            treasury: TREASURY,
            fee: 10_000_000,
            fortune_counter: 0,
            card_library_initialized: false,
            bump: 7,
        }
    );
    assert_eq!(library, CardLibrary { cards: Vec::new(), version: 1, last_updated: 1234, bump: 9 });
}

#[test]
fn initialize_checks_the_fee() {
    for fee in [0u64, 999_999, 100_000_001, u64::MAX] {
        let mut state = blank_state();
        let mut library = blank_library();
        let result = cyberdamus::initialize(&mut state, &mut library, AUTHORITY, TREASURY, fee, 1, 1, 1);
        assert_eq!(result, Err(ErrorCode::InsufficientFunds));
        assert_eq!(state, blank_state());
        assert_eq!(library, blank_library());
    }
    for fee in [1_000_000u64, 100_000_000] {
        let mut state = blank_state();
        let mut library = blank_library();
        let result = cyberdamus::initialize(&mut state, &mut library, AUTHORITY, TREASURY, fee, 1, 1, 1);
        assert_eq!(result, Ok(()));
        assert_eq!(state.fee, fee);
    }
}

#[test]
fn first_upload_makes_the_slots() {
    let mut state = blank_state();
    let mut library = blank_library();
    initialize::handler(&mut state, &mut library, AUTHORITY, TREASURY, 1_000_000, 1, 1, 1).unwrap();
    let batch = vec!["a".to_string(), "b".to_string()];
    let result = upload_cards::handler(&mut state, &mut library, 5, batch, 99);
    assert_eq!(result, Ok(()));
    assert_eq!(library.cards.len(), 78);
    for (i, card) in library.cards.iter().enumerate() {
        match i {
            5 => assert_eq!(card, "a"),
            6 => assert_eq!(card, "b"),
            _ => assert_eq!(card, ""),
        }
    }
    assert_eq!(library.last_updated, 99);
    assert_eq!(library.version, 1);
    assert_eq!(library.uploaded_count(), 2);
    assert!(!library.is_complete());
    assert!(!state.card_library_initialized);
}

#[test]
fn later_uploads_keep_and_replace() {
    let mut state = blank_state();
    let mut library = blank_library();
    upload_cards::handler(&mut state, &mut library, 0, vec!["a".to_string(), "b".to_string()], 1).unwrap();
    upload_cards::handler(&mut state, &mut library, 1, vec!["c".to_string(), String::new(), "d".to_string()], 2)
        .unwrap();
    assert_eq!(library.cards[0], "a");
    assert_eq!(library.cards[1], "c");
    assert_eq!(library.cards[2], "");
    assert_eq!(library.cards[3], "d");
    assert_eq!(library.uploaded_count(), 3);
    assert_eq!(library.last_updated, 2);
    // an empty batch at the end of the deck is accepted
    assert_eq!(upload_cards::handler(&mut state, &mut library, 78, Vec::new(), 3), Ok(()));
    assert_eq!(library.last_updated, 3);
    assert_eq!(library.uploaded_count(), 3);
}

#[test]
fn refused_uploads_change_nothing() {
    let mut state = blank_state();
    let mut library = blank_library();
    upload_cards::handler(&mut state, &mut library, 0, vec!["a".to_string()], 1).unwrap();
    let state_before = state;
    let library_before = library.clone();

    let eleven: Vec<String> = (0..11).map(|_| "x".to_string()).collect();
    assert_eq!(
        upload_cards::handler(&mut state, &mut library, 0, eleven.clone(), 2),
        Err(ErrorCode::CardBatchTooLarge)
    );
    // too many comes before a start beyond the deck
    assert_eq!(
        upload_cards::handler(&mut state, &mut library, 200, eleven, 2),
        Err(ErrorCode::CardBatchTooLarge)
    );
    assert_eq!(
        upload_cards::handler(&mut state, &mut library, 79, Vec::new(), 2),
        Err(ErrorCode::InvalidCardId)
    );
    assert_eq!(
        upload_cards::handler(&mut state, &mut library, 78, vec!["x".to_string()], 2),
        Err(ErrorCode::CardBatchTooLarge)
    );
    assert_eq!(
        upload_cards::handler(&mut state, &mut library, 70, (0..9).map(|_| "x".to_string()).collect(), 2),
        Err(ErrorCode::CardBatchTooLarge)
    );
    let large = "x".repeat(2049);
    assert_eq!(
        upload_cards::handler(&mut state, &mut library, 3, vec!["ok".to_string(), large], 2),
        Err(ErrorCode::CardBatchTooLarge)
    );
    // the limit is in bytes, not in characters
    let wide = "é".repeat(1025);
    assert_eq!(
        upload_cards::handler(&mut state, &mut library, 3, vec![wide], 2),
        Err(ErrorCode::CardBatchTooLarge)
    );
    assert_eq!(state, state_before);
    assert_eq!(library, library_before);

    let fits = "é".repeat(1024);
    assert_eq!(upload_cards::handler(&mut state, &mut library, 3, vec![fits.clone()], 2), Ok(()));
    assert_eq!(library.cards[3], fits);
}

#[test]
fn only_the_authority_uploads() {
    let mut state = blank_state();
    let mut library = blank_library();
    cyberdamus::initialize(&mut state, &mut library, AUTHORITY, TREASURY, 1_000_000, 1, 1, 1).unwrap();
    let result = cyberdamus::upload_cards(&mut state, &mut library, &TREASURY, 0, vec!["a".to_string()], 2);
    assert_eq!(result, Err(ErrorCode::InvalidAuthority));
    assert!(library.cards.is_empty());
    let result = cyberdamus::upload_cards(&mut state, &mut library, &AUTHORITY, 0, vec!["a".to_string()], 2);
    assert_eq!(result, Ok(()));
    assert_eq!(library.cards[0], "a");
}

#[test]
fn the_oracle_is_ready_when_no_slot_is_empty() {
    let mut state = blank_state();
    let mut library = blank_library();
    cyberdamus::initialize(&mut state, &mut library, AUTHORITY, TREASURY, 1_000_000, 1, 1, 1).unwrap();
    let mut start = 0u8;
    while start < 70 {
        let batch: Vec<String> = (0..10).map(|i| format!("card {}", start + i)).collect();
        upload_cards::handler(&mut state, &mut library, start, batch, 5).unwrap();
        assert!(!state.card_library_initialized);
        start += 10;
    }
    let last: Vec<String> = (70..78).map(|i| format!("card {}", i)).collect();
    upload_cards::handler(&mut state, &mut library, 70, last, 6).unwrap();
    assert!(state.card_library_initialized);
    assert!(library.is_complete());
    assert_eq!(library.uploaded_count(), 78);
    // emptying a slot later does not take the mark back
    upload_cards::handler(&mut state, &mut library, 4, vec![String::new()], 7).unwrap();
    assert!(state.card_library_initialized);
    assert_eq!(library.uploaded_count(), 77);
    assert!(!library.is_complete());
}

#[test]
fn card_images_are_read_by_id() {
    let (_, library) = ready_oracle();
    assert_eq!(cyberdamus::get_card_svg(&library, 0), Ok("<svg>0</svg>".to_string()));
    assert_eq!(cyberdamus::get_card_svg(&library, 77), Ok("<svg>77</svg>".to_string()));
    assert_eq!(cyberdamus::get_card_svg(&library, 78), Err(ErrorCode::InvalidCardId));
    assert_eq!(cyberdamus::get_card_svg(&library, 255), Err(ErrorCode::InvalidCardId));
    assert_eq!(cyberdamus::get_card_svg(&blank_library(), 0), Err(ErrorCode::InvalidCardId));
}

#[test]
fn no_fortune_without_the_cards() {
    let mut state = blank_state();
    let mut library = blank_library();
    cyberdamus::initialize(&mut state, &mut library, AUTHORITY, TREASURY, 1_000_000, 1, 1, 1).unwrap();
    let mut record = blank_record();
    let result = divine_fortune::handler(&mut state, &mut record, USER, 1000, 5, 1, 2);
    assert_eq!(result, Err(ErrorCode::CardLibraryNotInitialized));
    assert_eq!(record, blank_record());
    assert_eq!(state.fortune_counter, 0);
}

#[test]
fn the_fee_goes_to_the_treasury_only() {
    let (mut state, _) = ready_oracle();
    let mut record = blank_record();
    let result = cyberdamus::divine_fortune(&mut state, &mut record, USER, &AUTHORITY, 1000, 5, 1, 2);
    assert_eq!(result, Err(ErrorCode::InvalidAuthority));
    assert_eq!(record, blank_record());
    assert_eq!(state.fortune_counter, 0);
    let result = cyberdamus::divine_fortune(&mut state, &mut record, USER, &TREASURY, 1000, 5, 1, 2);
    assert!(result.is_ok());
    assert_eq!(state.fortune_counter, 1);
}

#[test]
fn a_fortune_is_drawn_from_its_seed() {
    let (mut state, _) = ready_oracle();
    state.fortune_counter = 1;
    let mut record = blank_record();
    let fortune = divine_fortune::handler(&mut state, &mut record, USER, 1000, 5, 8, 9).unwrap();
    assert_eq!(
        fortune,
        Fortune {
            fortune_id: 1,
            owner: USER,
            cards: [31, 46, 42],
            timestamp: 1000,
            block_height: 5,
            rarity: RarityTier::Common,
            entropy_seed: [
                109, 57, 92, 162, 232, 245, 39, 250, 207, 6, 194, 239, 229, 8, 192, 20, 119, 102,
                180, 29, 214, 194, 165, 151, 24, 200, 55, 84, 158, 11, 195, 91
            ],
            bump: 9,
        }
    );
    assert_eq!(state.fortune_counter, 2);
    assert_eq!(
        record,
        UserRecord {
            user: USER,
            last_fortune_timestamp: 1000,
            daily_count: 1,
            last_reset_day: 0,
            cooldown_until: 1000,
            total_fortunes: 1,
            bump: 8,
        }
    );

    // the next request differs in the counter alone
    let second = divine_fortune::handler(&mut state, &mut record, USER, 1000, 5, 8, 9).unwrap();
    assert_eq!(second.fortune_id, 2);
    assert_ne!(second.entropy_seed, fortune.entropy_seed);
    assert_eq!(second.entropy_seed, generate_entropy_seed(&USER, 1000, 5, 2));
    assert_eq!(second.cards, [77, 60, 21]);
    assert_eq!(second.cards, fisher_yates_draw_three(second.entropy_seed));
    assert_eq!(second.rarity, calculate_rarity(second.cards));
    assert_eq!(record.daily_count, 2);
    assert_eq!(record.cooldown_until, 2800);
    assert_eq!(record.bump, 8);
}

#[test]
fn the_cooldown_turns_requests_down() {
    let (mut state, _) = ready_oracle();
    let mut record = blank_record();
    divine_fortune::handler(&mut state, &mut record, USER, 1000, 5, 1, 2).unwrap();
    divine_fortune::handler(&mut state, &mut record, USER, 1000, 6, 1, 2).unwrap();
    let state_before = state;
    let record_before = record;
    let result = divine_fortune::handler(&mut state, &mut record, USER, 2000, 7, 1, 2);
    assert_eq!(result, Err(ErrorCode::CooldownActive { seconds_remaining: 800 }));
    assert_eq!(state, state_before);
    assert_eq!(record, record_before);

    // a refusal on a later day still resets the count
    let mut late = record;
    late.cooldown_until = 86_400 + 500;
    let result = divine_fortune::handler(&mut state, &mut late, USER, 86_400, 7, 1, 2);
    assert_eq!(result, Err(ErrorCode::CooldownActive { seconds_remaining: 500 }));
    assert_eq!(late.daily_count, 0);
    assert_eq!(late.last_reset_day, 1);
    assert_eq!(late.total_fortunes, 2);
    assert_eq!(state, state_before);
}

#[test]
fn a_first_request_is_accepted_at_any_time() {
    for now in [i64::MIN, -5, 0, 1_700_000_000] {
        let (mut state, _) = ready_oracle();
        let mut record = blank_record();
        let fortune = divine_fortune::handler(&mut state, &mut record, USER, now, 1, 1, 2).unwrap();
        assert_eq!(fortune.timestamp, now);
        assert_eq!(record.user, USER);
        assert_eq!(record.daily_count, 1);
        assert_eq!(record.cooldown_until, now);
    }
}
