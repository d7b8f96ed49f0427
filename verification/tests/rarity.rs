use cyberdamus::state::RarityTier;
use cyberdamus::utils::{calculate_rarity, is_sequential, same_suit_minor_arcana};

#[test]
fn test_rarity_calculation() {
    // Test Legendary (all Major Arcana)
    assert_eq!(calculate_rarity([0, 10, 21]), RarityTier::Legendary);

    // Test Uncommon (two Major Arcana)
    assert_eq!(calculate_rarity([0, 10, 50]), RarityTier::Uncommon);

    // Three Major Arcana stay Legendary when they are sequential too
    assert_eq!(calculate_rarity([5, 6, 7]), RarityTier::Legendary);

    // Test Common
    assert_eq!(calculate_rarity([25, 40, 65]), RarityTier::Common);
}

#[test]
fn same_suit_minors_are_rare() {
    assert_eq!(calculate_rarity([22, 24, 26]), RarityTier::Rare);
    assert_eq!(calculate_rarity([64, 77, 70]), RarityTier::Rare);
    // one major beside two minors of one suit
    assert_eq!(calculate_rarity([3, 22, 30]), RarityTier::Rare);
    assert_eq!(calculate_rarity([36, 0, 49]), RarityTier::Rare);
}

#[test]
fn earlier_rule_wins() {
    // three consecutive majors: legendary, not epic
    assert_eq!(calculate_rarity([0, 1, 2]), RarityTier::Legendary);
    // a run of minors of one suit: epic, not rare
    assert_eq!(calculate_rarity([22, 23, 24]), RarityTier::Epic);
    // a run in any order
    assert_eq!(calculate_rarity([7, 22, 21]), RarityTier::Uncommon);
    assert_eq!(calculate_rarity([23, 21, 22]), RarityTier::Epic);
    assert_eq!(calculate_rarity([35, 37, 36]), RarityTier::Epic);
    // two majors and a run: epic, not uncommon
    assert_eq!(calculate_rarity([20, 21, 22]), RarityTier::Epic);
}

#[test]
fn mixed_draws_are_common_or_uncommon() {
    assert_eq!(calculate_rarity([3, 22, 36]), RarityTier::Common);
    assert_eq!(calculate_rarity([35, 36, 50]), RarityTier::Common);
    assert_eq!(calculate_rarity([0, 21, 77]), RarityTier::Uncommon);
    assert_eq!(calculate_rarity([77, 5, 9]), RarityTier::Uncommon);
}

#[test]
fn classification_ignores_the_order_of_the_slots() {
    let draws = [[0u8, 10, 50], [22, 24, 26], [5, 6, 7], [25, 40, 65], [3, 22, 30]];
    for d in draws {
        let tier = calculate_rarity(d);
        assert_eq!(calculate_rarity([d[1], d[0], d[2]]), tier);
        assert_eq!(calculate_rarity([d[2], d[1], d[0]]), tier);
        assert_eq!(calculate_rarity([d[1], d[2], d[0]]), tier);
    }
}

#[test]
fn classification_is_repeatable() {
    for a in 0..78u8 {
        let cards = [a, (a + 1) % 78, (a + 40) % 78];
        assert_eq!(calculate_rarity(cards), calculate_rarity(cards));
    }
}

#[test]
fn sequential_looks_at_the_sorted_ids() {
    assert!(is_sequential([5, 6, 7]));
    assert!(is_sequential([7, 5, 6]));
    assert!(is_sequential([6, 7, 5]));
    assert!(is_sequential([253, 254, 255]));
    assert!(!is_sequential([5, 6, 8]));
    assert!(!is_sequential([5, 5, 6]));
    assert!(!is_sequential([255, 255, 255]));
    assert!(!is_sequential([254, 255, 0]));
}

#[test]
fn same_suit_needs_two_minors() {
    assert!(same_suit_minor_arcana([22, 35, 30]));
    assert!(same_suit_minor_arcana([0, 50, 63]));
    assert!(!same_suit_minor_arcana([35, 36, 40]));
    assert!(!same_suit_minor_arcana([0, 1, 22]));
    assert!(!same_suit_minor_arcana([0, 1, 2]));
    assert!(!same_suit_minor_arcana([22, 36, 50]));
}

#[test]
fn default_tier_is_common() {
    assert_eq!(RarityTier::default(), RarityTier::Common);
}
