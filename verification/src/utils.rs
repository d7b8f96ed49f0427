//! Seed derivation, the seeded shuffle, rarity classification and the
//! rendering of a reading.

use crate::encoding::{
    decimal_text, le_bytes, le_value, lemma_le_bytes_injective_signed,
    lemma_le_bytes_injective_unsigned, lemma_le_bytes_len, push_decimal, push_le_bytes,
    twos_complement,
};
use crate::names::{card_name, minor_card_name};
use crate::state::RarityTier;
use sha2::{Digest, Sha256};
use vstd::prelude::*;
use vstd::string::StringExecFns;

verus! {

/// The message that is hashed into a seed: the 32 bytes of the user's key,
/// then the timestamp, the slot and the fortune counter, eight little-endian
/// bytes each.
pub open spec fn seed_message(user: Seq<u8>, timestamp: i64, slot: u64, fortune_counter: u64) -> Seq<
    u8,
> {
    user + le_bytes(timestamp as int) + le_bytes(slot as int) + le_bytes(fortune_counter as int)
}

/// SHA-256 of `message`, as the `sha2` crate computes it.
pub uninterp spec fn sha256_digest(message: Seq<u8>) -> Seq<u8>;

/// The seed of a draw: the SHA-256 digest of the seed message.
pub open spec fn entropy_seed(user: Seq<u8>, timestamp: i64, slot: u64, fortune_counter: u64) -> Seq<
    u8,
> {
    sha256_digest(seed_message(user, timestamp, slot, fortune_counter))
}

/// Calls `sha2::Sha256::digest`, the one-shot SHA-256 of the `sha2` crate.
/// Nothing is proved of it: the contract only names the 32 bytes that come
/// back, as a function of the message.
#[verifier::external_body]
fn sha256(message: &Vec<u8>) -> (digest: [u8; 32])
    ensures
        digest@ == sha256_digest(message@),
{
    Sha256::digest(message).into()
}

/// Builds the message that is hashed into a seed.
pub fn build_seed_message(user: &[u8; 32], timestamp: i64, slot: u64, fortune_counter: u64) -> (message:
    Vec<u8>)
    ensures
        message@ == seed_message(user@, timestamp, slot, fortune_counter),
        message@.len() == 56,
{
    proof {
        lemma_le_bytes_len(timestamp as int);
        lemma_le_bytes_len(slot as int);
        lemma_le_bytes_len(fortune_counter as int);
    }
    let mut message: Vec<u8> = Vec::new();
    let mut k: usize = 0;
    while k < 32
        invariant
            k <= 32,
            message@.len() == k,
            forall|i: int| 0 <= i < k ==> message@[i] == user@[i],
        decreases 32 - k,
    {
        message.push(user[k]);
        k += 1;
    }
    assert(message@ =~= user@);
    push_le_bytes(&mut message, twos_complement(timestamp));
    push_le_bytes(&mut message, slot);
    push_le_bytes(&mut message, fortune_counter);
    message
}

/// Derives the 32-byte seed of a draw from the user's key, the time of the
/// request, the slot and the fortune counter.
pub fn generate_entropy_seed(user: &[u8; 32], timestamp: i64, slot: u64, fortune_counter: u64) -> (seed:
    [u8; 32])
    ensures
        seed@ == entropy_seed(user@, timestamp, slot, fortune_counter),
{
    let message = build_seed_message(user, timestamp, slot, fortune_counter);
    sha256(&message)
}

/// The four parts of a message can be read back from it.
proof fn lemma_message_parts(user: Seq<u8>, first: Seq<u8>, second: Seq<u8>, third: Seq<u8>)
    requires
        user.len() == 32,
        first.len() == 8,
        second.len() == 8,
        third.len() == 8,
    ensures
        (user + first + second + third).subrange(0, 32) == user,
        (user + first + second + third).subrange(32, 40) == first,
        (user + first + second + third).subrange(40, 48) == second,
        (user + first + second + third).subrange(48, 56) == third,
{
    let message = user + first + second + third;
    assert(message.subrange(0, 32) =~= user);
    assert(message.subrange(32, 40) =~= first);
    assert(message.subrange(40, 48) =~= second);
    assert(message.subrange(48, 56) =~= third);
}

/// Distinct inputs are hashed as distinct messages: the seed message
/// determines the user's key, the timestamp, the slot and the counter.
pub proof fn lemma_seed_message_injective(
    user_a: Seq<u8>,
    timestamp_a: i64,
    slot_a: u64,
    counter_a: u64,
    user_b: Seq<u8>,
    timestamp_b: i64,
    slot_b: u64,
    counter_b: u64,
)
    requires
        user_a.len() == 32,
        user_b.len() == 32,
        seed_message(user_a, timestamp_a, slot_a, counter_a) == seed_message(
            user_b,
            timestamp_b,
            slot_b,
            counter_b,
        ),
    ensures
        user_a == user_b,
        timestamp_a == timestamp_b,
        slot_a == slot_b,
        counter_a == counter_b,
{
    lemma_le_bytes_len(timestamp_a as int);
    lemma_le_bytes_len(slot_a as int);
    lemma_le_bytes_len(counter_a as int);
    lemma_le_bytes_len(timestamp_b as int);
    lemma_le_bytes_len(slot_b as int);
    lemma_le_bytes_len(counter_b as int);
    lemma_message_parts(
        user_a,
        le_bytes(timestamp_a as int),
        le_bytes(slot_a as int),
        le_bytes(counter_a as int),
    );
    lemma_message_parts(
        user_b,
        le_bytes(timestamp_b as int),
        le_bytes(slot_b as int),
        le_bytes(counter_b as int),
    );
    lemma_le_bytes_injective_signed(timestamp_a, timestamp_b);
    lemma_le_bytes_injective_unsigned(slot_a, slot_b);
    lemma_le_bytes_injective_unsigned(counter_a, counter_b);
}

/// Number of cards in the deck.
pub const DECK_SIZE: usize = 78;

/// Multiplier of the linear congruential generator that drives the shuffle.
pub const LCG_MULTIPLIER: u64 = 1103515245;

/// Increment of the linear congruential generator that drives the shuffle.
pub const LCG_INCREMENT: u64 = 12345;

/// One step of the generator: `state * 1103515245 + 12345` modulo `2^64`.
pub open spec fn lcg_next(state: u64) -> u64 {
    ((state as int * 1103515245 + 12345) % 0x1_0000_0000_0000_0000) as u64
}

/// The generator's initial state: the first eight seed bytes, little-endian.
pub open spec fn seed_state(seed: Seq<u8>) -> u64 {
    le_value(seed) as u64
}

/// The unshuffled deck: slot `i` holds card `i`.
pub open spec fn fresh_deck() -> Seq<u8> {
    Seq::new(78, |i: int| i as u8)
}

/// `deck` with the cards in slots `i` and `j` exchanged.
pub open spec fn swap_slots(deck: Seq<u8>, i: int, j: int) -> Seq<u8> {
    deck.update(i, deck[j]).update(j, deck[i])
}

/// The deck after the Fisher-Yates descent from slot `position` down to slot 0.
/// Each slot takes one generator step, reduces it modulo `position + 1` and
/// exchanges the slot with the one so chosen.
pub open spec fn shuffle_down(deck: Seq<u8>, state: u64, position: nat) -> Seq<u8>
    decreases position,
{
    let next = lcg_next(state);
    let swapped = swap_slots(deck, position as int, next as int % (position as int + 1));
    if position == 0 {
        swapped
    } else {
        shuffle_down(swapped, next, (position - 1) as nat)
    }
}

/// The whole deck as `seed` shuffles it: 78 generator steps, slots 77 down to 0.
pub open spec fn shuffled_deck(seed: Seq<u8>) -> Seq<u8> {
    shuffle_down(fresh_deck(), seed_state(seed), 77)
}

/// The three cards that `seed` draws: slots 0, 1 and 2 of the shuffled deck.
pub open spec fn drawn_cards(seed: Seq<u8>) -> Seq<u8> {
    shuffled_deck(seed).subrange(0, 3)
}

/// Every slot of `deck` holds a card of the 78-card deck, and no card twice.
pub open spec fn is_deck_permutation(deck: Seq<u8>) -> bool {
    &&& deck.len() == 78
    &&& forall|i: int| 0 <= i < 78 ==> #[trigger] deck[i] < 78
    &&& forall|i: int, j: int| 0 <= i < j < 78 ==> #[trigger] deck[i] != #[trigger] deck[j]
}

/// Three card ids, each below 78.
pub open spec fn cards_in_range(cards: Seq<u8>) -> bool {
    &&& cards.len() == 3
    &&& cards[0] < 78
    &&& cards[1] < 78
    &&& cards[2] < 78
}

/// Three pairwise distinct card ids, each below 78.
pub open spec fn is_valid_draw(cards: Seq<u8>) -> bool {
    &&& cards_in_range(cards)
    &&& cards[0] != cards[1]
    &&& cards[1] != cards[2]
    &&& cards[0] != cards[2]
}

/// The descent keeps the deck a permutation of the 78 cards.
pub proof fn lemma_shuffle_down_permutes(deck: Seq<u8>, state: u64, position: nat)
    requires
        is_deck_permutation(deck),
        position < 78,
    ensures
        is_deck_permutation(shuffle_down(deck, state, position)),
    decreases position,
{
    let next = lcg_next(state);
    let j = next as int % (position as int + 1);
    let swapped = swap_slots(deck, position as int, j);
    assert(0 <= j <= position);
    assert(is_deck_permutation(swapped));
    if position > 0 {
        lemma_shuffle_down_permutes(swapped, next, (position - 1) as nat);
    }
}

/// Whatever the seed, the draw is three pairwise distinct cards of the deck.
pub proof fn lemma_draw_is_valid(seed: Seq<u8>)
    ensures
        is_valid_draw(drawn_cards(seed)),
{
    assert(is_deck_permutation(fresh_deck()));
    lemma_shuffle_down_permutes(fresh_deck(), seed_state(seed), 77);
    let deck = shuffled_deck(seed);
    assert(deck[0] != deck[1]);
    assert(deck[1] != deck[2]);
    assert(deck[0] != deck[2]);
}

/// The draw is a function of the seed, and of its first eight bytes alone:
/// seeds that agree there draw the same cards. So the same seed always draws
/// the same cards.
pub proof fn lemma_draw_depends_on_first_eight_bytes(a: Seq<u8>, b: Seq<u8>)
    requires
        forall|i: int| 0 <= i < 8 ==> a[i] == b[i],
    ensures
        seed_state(a) == seed_state(b),
        shuffled_deck(a) == shuffled_deck(b),
        drawn_cards(a) == drawn_cards(b),
{
}

/// The generator step as the machine takes it: a wrapping multiplication, then
/// a wrapping addition.
pub fn lcg_step(state: u64) -> (next: u64)
    ensures
        next == lcg_next(state),
{
    let product = state.wrapping_mul(LCG_MULTIPLIER);
    let next = product.wrapping_add(LCG_INCREMENT);
    proof {
        let m = 0x1_0000_0000_0000_0000int;
        let full = state as int * 1103515245;
        assert(product as int == full % m);
        assert((full % m + 12345) % m == (full + 12345) % m) by {
            vstd::arithmetic::div_mod::lemma_add_mod_noop(full, 12345, m);
            vstd::arithmetic::div_mod::lemma_small_mod(12345, m as nat);
        }
        if product as int + 12345 >= m {
            vstd::arithmetic::div_mod::lemma_mod_sub_multiples_vanish(product as int + 12345, m);
            vstd::arithmetic::div_mod::lemma_small_mod((product as int + 12345 - m) as nat, m as nat);
        } else {
            vstd::arithmetic::div_mod::lemma_small_mod((product as int + 12345) as nat, m as nat);
        }
    }
    next
}

/// Reads the generator's initial state from the seed.
pub fn initial_state(seed: &[u8; 32]) -> (state: u64)
    ensures
        state == seed_state(seed@),
{
    seed[0] as u64
        + seed[1] as u64 * 0x100
        + seed[2] as u64 * 0x1_0000
        + seed[3] as u64 * 0x100_0000
        + seed[4] as u64 * 0x1_0000_0000
        + seed[5] as u64 * 0x100_0000_0000
        + seed[6] as u64 * 0x1_0000_0000_0000
        + seed[7] as u64 * 0x100_0000_0000_0000
}

/// Draws three cards from the 78-card deck, as the seed decides.
///
/// The deck starts in order and is shuffled by a Fisher-Yates descent over
/// all 78 slots; the cards left in slots 0, 1 and 2 are the draw.
pub fn fisher_yates_draw_three(seed: [u8; 32]) -> (cards: [u8; 3])
    ensures
        cards@ == drawn_cards(seed@),
        is_valid_draw(cards@),
{
    let mut deck: [u8; 78] = [0u8; 78];
    let mut k: usize = 0;
    while k < DECK_SIZE
        invariant
            k <= 78,
            forall|i: int| 0 <= i < k ==> deck@[i] == i as u8,
        decreases 78 - k,
    {
        deck[k] = k as u8;
        k += 1;
    }
    assert(deck@ =~= fresh_deck());

    let mut rng_state = initial_state(&seed);
    let mut position: usize = DECK_SIZE;
    while position > 0
        invariant
            position <= 78,
            deck@.len() == 78,
            position > 0 ==> shuffle_down(deck@, rng_state, (position - 1) as nat)
                == shuffled_deck(seed@),
            position == 0 ==> deck@ == shuffled_deck(seed@),
        decreases position,
    {
        position -= 1;
        rng_state = lcg_step(rng_state);
        let j = (rng_state % (position as u64 + 1)) as usize;
        let ghost before = deck@;
        let held = deck[position];
        deck[position] = deck[j];
        deck[j] = held;
        assert(deck@ =~= swap_slots(before, position as int, j as int));
    }
    let cards = [deck[0], deck[1], deck[2]];
    proof {
        lemma_draw_is_valid(seed@);
        assert(cards@ =~= drawn_cards(seed@));
    }
    cards
}

/// Major arcana are the cards 0 to 21.
pub open spec fn is_major(card: u8) -> bool {
    card < 22
}

/// Suit of a minor card: 0 wands, 1 cups, 2 swords, 3 pentacles.
pub open spec fn suit_of(card: u8) -> int
    recommends
        22 <= card < 78,
{
    (card - 22) / 14
}

/// How many of the three cards are major arcana.
pub open spec fn major_count(cards: Seq<u8>) -> nat {
    (if is_major(cards[0]) { 1nat } else { 0nat })
        + (if is_major(cards[1]) { 1nat } else { 0nat })
        + (if is_major(cards[2]) { 1nat } else { 0nat })
}

/// The smallest of the three ids.
pub open spec fn lowest(cards: Seq<u8>) -> int {
    if cards[0] <= cards[1] && cards[0] <= cards[2] {
        cards[0] as int
    } else if cards[1] <= cards[2] {
        cards[1] as int
    } else {
        cards[2] as int
    }
}

/// The largest of the three ids.
pub open spec fn highest(cards: Seq<u8>) -> int {
    if cards[0] >= cards[1] && cards[0] >= cards[2] {
        cards[0] as int
    } else if cards[1] >= cards[2] {
        cards[1] as int
    } else {
        cards[2] as int
    }
}

/// The id that stands between the smallest and the largest.
pub open spec fn middle(cards: Seq<u8>) -> int {
    cards[0] + cards[1] + cards[2] - lowest(cards) - highest(cards)
}

/// The ids, put in ascending order, are three consecutive integers.
pub open spec fn is_run(cards: Seq<u8>) -> bool {
    middle(cards) == lowest(cards) + 1 && highest(cards) == middle(cards) + 1
}

/// Two cards do not differ in suit: one of them is major, or both are minor
/// cards of one suit.
pub open spec fn suits_agree(a: u8, b: u8) -> bool {
    is_major(a) || is_major(b) || suit_of(a) == suit_of(b)
}

/// At least two of the cards are minor, and all the minor ones are of one suit.
pub open spec fn share_minor_suit(cards: Seq<u8>) -> bool {
    &&& major_count(cards) <= 1
    &&& suits_agree(cards[0], cards[1])
    &&& suits_agree(cards[1], cards[2])
    &&& suits_agree(cards[0], cards[2])
}

/// The tier of a draw. The rules are tried in this order and the first that
/// holds decides: three majors, a run, a shared minor suit, two majors.
pub open spec fn rarity_of(cards: Seq<u8>) -> RarityTier {
    if major_count(cards) == 3 {
        RarityTier::Legendary
    } else if is_run(cards) {
        RarityTier::Epic
    } else if share_minor_suit(cards) {
        RarityTier::Rare
    } else if major_count(cards) == 2 {
        RarityTier::Uncommon
    } else {
        RarityTier::Common
    }
}

/// Whether the three ids form a run of consecutive integers in some order.
pub fn is_sequential(cards: [u8; 3]) -> (sequential: bool)
    ensures
        sequential == is_run(cards@),
{
    let mut low = cards[0];
    let mut mid = cards[1];
    let mut high = cards[2];
    if low > mid {
        let held = low;
        low = mid;
        mid = held;
    }
    if mid > high {
        let held = mid;
        mid = high;
        high = held;
    }
    if low > mid {
        let held = low;
        low = mid;
        mid = held;
    }
    assert(low == lowest(cards@) && mid == middle(cards@) && high == highest(cards@));
    mid as u16 == low as u16 + 1 && high as u16 == mid as u16 + 1
}

/// Whether at least two of the cards are minor arcana and every minor card
/// among the three belongs to the same suit.
pub fn same_suit_minor_arcana(cards: [u8; 3]) -> (same: bool)
    ensures
        same == share_minor_suit(cards@),
{
    let mut minors: usize = 0;
    let mut first_suit: u8 = 0;
    let mut same = true;
    let mut k: usize = 0;
    while k < 3
        invariant
            k <= 3,
            minors <= k,
            minors as int == k - (if k > 0 && is_major(cards@[0]) { 1int } else { 0int })
                - (if k > 1 && is_major(cards@[1]) { 1int } else { 0int })
                - (if k > 2 && is_major(cards@[2]) { 1int } else { 0int }),
            minors > 0 ==> exists|f: int|
                0 <= f < k && !is_major(cards@[f]) && first_suit as int == suit_of(cards@[f]),
            same == (forall|i: int|
                0 <= i < k && !is_major(#[trigger] cards@[i]) ==> suit_of(cards@[i])
                    == first_suit as int),
        decreases 3 - k,
    {
        let card = cards[k];
        if card >= 22 {
            let suit = (card - 22) / 14;
            if minors == 0 {
                first_suit = suit;
            } else if suit != first_suit {
                same = false;
            }
            minors += 1;
        }
        k += 1;
    }
    minors >= 2 && same
}

/// Classifies a draw of three cards.
pub fn calculate_rarity(cards: [u8; 3]) -> (tier: RarityTier)
    requires
        cards_in_range(cards@),
    ensures
        tier == rarity_of(cards@),
{
    let mut majors: usize = 0;
    if cards[0] < 22 {
        majors += 1;
    }
    if cards[1] < 22 {
        majors += 1;
    }
    if cards[2] < 22 {
        majors += 1;
    }
    if majors == 3 {
        return RarityTier::Legendary;
    }
    if is_sequential(cards) {
        return RarityTier::Epic;
    }
    if same_suit_minor_arcana(cards) {
        return RarityTier::Rare;
    }
    if majors == 2 {
        return RarityTier::Uncommon;
    }
    RarityTier::Common
}

/// Exchanging two of three cards changes nothing that the tier looks at.
proof fn lemma_rarity_of_exchanged(a: u8, b: u8, c: u8)
    ensures
        rarity_of(seq![b, a, c]) == rarity_of(seq![a, b, c]),
        rarity_of(seq![a, c, b]) == rarity_of(seq![a, b, c]),
        rarity_of(seq![c, b, a]) == rarity_of(seq![a, b, c]),
{
    let here = seq![a, b, c];
    assert(here[0] == a && here[1] == b && here[2] == c);
    let first = seq![b, a, c];
    assert(first[0] == b && first[1] == a && first[2] == c);
    assert(major_count(first) == major_count(here));
    assert(lowest(first) == lowest(here) && highest(first) == highest(here));
    assert(share_minor_suit(first) == share_minor_suit(here));
    let second = seq![a, c, b];
    assert(second[0] == a && second[1] == c && second[2] == b);
    assert(major_count(second) == major_count(here));
    assert(lowest(second) == lowest(here) && highest(second) == highest(here));
    assert(share_minor_suit(second) == share_minor_suit(here));
    let third = seq![c, b, a];
    assert(third[0] == c && third[1] == b && third[2] == a);
    assert(major_count(third) == major_count(here));
    assert(lowest(third) == lowest(here) && highest(third) == highest(here));
    assert(share_minor_suit(third) == share_minor_suit(here));
}

/// The tier of a draw does not depend on which card lies in which slot.
pub proof fn lemma_rarity_ignores_slot_order(cards: Seq<u8>, i: int, j: int)
    requires
        cards.len() == 3,
        0 <= i < 3,
        0 <= j < 3,
    ensures
        rarity_of(swap_slots(cards, i, j)) == rarity_of(cards),
{
    let (a, b, c) = (cards[0], cards[1], cards[2]);
    lemma_rarity_of_exchanged(a, b, c);
    assert(cards =~= seq![a, b, c]);
    let swapped = swap_slots(cards, i, j);
    if i == j {
        assert(swapped =~= cards);
    } else if i + j == 1 {
        assert(swapped =~= seq![b, a, c]);
    } else if i + j == 3 {
        assert(swapped =~= seq![a, c, b]);
    } else {
        assert(swapped =~= seq![c, b, a]);
    }
}

/// Display name of a card of the deck.
pub fn get_card_name(card_id: u8) -> (name: &'static str)
    requires
        card_id < 78,
    ensures
        name@ == card_name(card_id),
{
    match card_id {
        0 => "The Fool",
        1 => "The Magician",
        2 => "The High Priestess",
        3 => "The Empress",
        4 => "The Emperor",
        5 => "The Hierophant",
        6 => "The Lovers",
        7 => "The Chariot",
        8 => "Strength",
        9 => "The Hermit",
        10 => "Wheel of Fortune",
        11 => "Justice",
        12 => "The Hanged Man",
        13 => "Death",
        14 => "Temperance",
        15 => "The Devil",
        16 => "The Tower",
        17 => "The Star",
        18 => "The Moon",
        19 => "The Sun",
        20 => "Judgement",
        21 => "The World",
        _ => minor_card_name(card_id),
    }
}

/// Label of a tier as a reading shows it.
pub open spec fn rarity_label(rarity: RarityTier) -> Seq<char> {
    match rarity {
        RarityTier::Common => "Common"@,
        RarityTier::Uncommon => "Uncommon"@,
        RarityTier::Rare => "Rare"@,
        RarityTier::Epic => "Epic"@,
        RarityTier::Legendary => "Legendary ⭐"@,
    }
}

/// One card of a reading: its name, then its id in parentheses.
pub open spec fn card_text(card: u8) -> Seq<char> {
    card_name(card) + " ("@ + decimal_text(card as nat) + ")"@
}

/// The four lines of a reading: the tier, then the cards of the past, the
/// present and the future.
pub open spec fn reading_text(cards: Seq<u8>, rarity: RarityTier) -> Seq<char> {
    "🔮 Fortune Reading ["@ + rarity_label(rarity) + "]\n📍 Past: "@ + card_text(cards[0])
        + "\n⚡ Present: "@ + card_text(cards[1]) + "\n🌟 Future: "@ + card_text(cards[2])
}

/// Appends the name and id of a card to `out`.
fn push_card(out: &mut String, card: u8)
    requires
        card < 78,
    ensures
        final(out)@ == old(out)@ + card_text(card),
{
    out.append(get_card_name(card));
    out.append(" (");
    push_decimal(out, card);
    out.append(")");
    assert(out@ =~= old(out)@ + card_text(card));
}

/// Renders a draw and its tier as a reading of four lines.
pub fn format_fortune_reading(cards: [u8; 3], rarity: RarityTier) -> (reading: String)
    requires
        cards_in_range(cards@),
    ensures
        reading@ == reading_text(cards@, rarity),
{
    let rarity_str = match rarity {
        RarityTier::Common => "Common",
        RarityTier::Uncommon => "Uncommon",
        RarityTier::Rare => "Rare",
        RarityTier::Epic => "Epic",
        RarityTier::Legendary => "Legendary ⭐",
    };
    let mut reading = String::from_str("🔮 Fortune Reading [");
    reading.append(rarity_str);
    reading.append("]\n📍 Past: ");
    push_card(&mut reading, cards[0]);
    reading.append("\n⚡ Present: ");
    push_card(&mut reading, cards[1]);
    reading.append("\n🌟 Future: ");
    push_card(&mut reading, cards[2]);
    assert(reading@ =~= reading_text(cards@, rarity));
    reading
}

/// Tier and reading are functions of the three ids (and the reading of the
/// tier shown): draws that agree in each slot are classified alike and read
/// alike, character by character.
pub proof fn lemma_same_cards_same_reading(a: Seq<u8>, b: Seq<u8>, rarity: RarityTier)
    requires
        a[0] == b[0],
        a[1] == b[1],
        a[2] == b[2],
    ensures
        rarity_of(a) == rarity_of(b),
        reading_text(a, rarity) == reading_text(b, rarity),
{
}

} // verus!
