use cyberdamus::state::{ErrorCode, RarityTier};
use cyberdamus::utils::{format_fortune_reading, get_card_name};

#[test]
fn major_cards_have_their_names() {
    assert_eq!(get_card_name(0), "The Fool");
    assert_eq!(get_card_name(1), "The Magician");
    assert_eq!(get_card_name(8), "Strength");
    assert_eq!(get_card_name(10), "Wheel of Fortune");
    assert_eq!(get_card_name(13), "Death");
    assert_eq!(get_card_name(20), "Judgement");
    assert_eq!(get_card_name(21), "The World");
}

#[test]
fn minor_cards_are_named_by_rank_and_suit() {
    assert_eq!(get_card_name(22), "Ace of Wands");
    assert_eq!(get_card_name(23), "2 of Wands");
    assert_eq!(get_card_name(31), "10 of Wands");
    assert_eq!(get_card_name(32), "Page of Wands");
    assert_eq!(get_card_name(35), "King of Wands");
    assert_eq!(get_card_name(36), "Ace of Cups");
    assert_eq!(get_card_name(44), "9 of Cups");
    assert_eq!(get_card_name(47), "Knight of Cups");
    assert_eq!(get_card_name(50), "Ace of Swords");
    assert_eq!(get_card_name(62), "Queen of Swords");
    assert_eq!(get_card_name(63), "King of Swords");
    assert_eq!(get_card_name(64), "Ace of Pentacles");
    assert_eq!(get_card_name(70), "7 of Pentacles");
    assert_eq!(get_card_name(77), "King of Pentacles");
}

#[test]
fn every_card_has_a_name_of_its_own() {
    let suits = ["Wands", "Cups", "Swords", "Pentacles"];
    let mut seen: Vec<&str> = Vec::new();
    for id in 0..78u8 {
        let name = get_card_name(id);
        assert!(!name.is_empty());
        assert!(!seen.contains(&name));
        seen.push(name);
        if id >= 22 {
            let rank = (id - 22) % 14 + 1;
            let rank_name = match rank {
                1 => "Ace".to_string(),
                11 => "Page".to_string(),
                12 => "Knight".to_string(),
                13 => "Queen".to_string(),
                14 => "King".to_string(),
                n => format!("{}", n),
            };
            let suit = suits[((id - 22) / 14) as usize];
            assert_eq!(name, format!("{} of {}", rank_name, suit));
        }
    }
}

#[test]
fn reading_has_four_lines() {
    let reading = format_fortune_reading([0, 10, 21], RarityTier::Legendary);
    assert_eq!(
        reading,
        "🔮 Fortune Reading [Legendary ⭐]\n📍 Past: The Fool (0)\n⚡ Present: Wheel of Fortune (10)\n🌟 Future: The World (21)"
    );
    assert_eq!(reading.lines().count(), 4);
}

#[test]
fn reading_shows_each_tier_and_id() {
    assert_eq!(
        format_fortune_reading([22, 31, 77], RarityTier::Common),
        "🔮 Fortune Reading [Common]\n📍 Past: Ace of Wands (22)\n⚡ Present: 10 of Wands (31)\n🌟 Future: King of Pentacles (77)"
    );
    assert_eq!(
        format_fortune_reading([5, 6, 7], RarityTier::Epic),
        "🔮 Fortune Reading [Epic]\n📍 Past: The Hierophant (5)\n⚡ Present: The Lovers (6)\n🌟 Future: The Chariot (7)"
    );
    assert!(format_fortune_reading([9, 50, 64], RarityTier::Uncommon)
        .starts_with("🔮 Fortune Reading [Uncommon]\n"));
    assert!(format_fortune_reading([22, 24, 26], RarityTier::Rare)
        .starts_with("🔮 Fortune Reading [Rare]\n"));
}

#[test]
fn reading_is_repeatable() {
    let first = format_fortune_reading([31, 46, 42], RarityTier::Common);
    let second = format_fortune_reading([31, 46, 42], RarityTier::Common);
    assert_eq!(first.as_bytes(), second.as_bytes());
}

#[test]
fn errors_have_their_messages() {
    assert_eq!(
        ErrorCode::CooldownActive { seconds_remaining: 5 }.message(),
        "Fortune creation is on cooldown"
    );
    assert_eq!(ErrorCode::DailyLimitExceeded.message(), "Daily fortune limit exceeded");
    assert_eq!(ErrorCode::CardLibraryNotInitialized.message(), "Card library not initialized");
    assert_eq!(ErrorCode::InvalidCardId.message(), "Invalid card ID");
    assert_eq!(ErrorCode::CardBatchTooLarge.message(), "Card batch too large");
    assert_eq!(ErrorCode::InsufficientFunds.message(), "Insufficient funds for fortune fee");
    assert_eq!(ErrorCode::InvalidAuthority.message(), "Invalid authority");
}
