//! The display names of the cards.

use crate::encoding::decimal_text;
use crate::utils::{is_major, suit_of};
use vstd::prelude::*;

verus! {

/// Display name of a major arcana card.
pub open spec fn major_name(card: u8) -> Seq<char>
    recommends
        card < 22,
{
    if card == 0 {
        "The Fool"@
    } else if card == 1 {
        "The Magician"@
    } else if card == 2 {
        "The High Priestess"@
    } else if card == 3 {
        "The Empress"@
    } else if card == 4 {
        "The Emperor"@
    } else if card == 5 {
        "The Hierophant"@
    } else if card == 6 {
        "The Lovers"@
    } else if card == 7 {
        "The Chariot"@
    } else if card == 8 {
        "Strength"@
    } else if card == 9 {
        "The Hermit"@
    } else if card == 10 {
        "Wheel of Fortune"@
    } else if card == 11 {
        "Justice"@
    } else if card == 12 {
        "The Hanged Man"@
    } else if card == 13 {
        "Death"@
    } else if card == 14 {
        "Temperance"@
    } else if card == 15 {
        "The Devil"@
    } else if card == 16 {
        "The Tower"@
    } else if card == 17 {
        "The Star"@
    } else if card == 18 {
        "The Moon"@
    } else if card == 19 {
        "The Sun"@
    } else if card == 20 {
        "Judgement"@
    } else {
        "The World"@
    }
}

/// Display name of a rank: 1 is the ace, 11 to 14 the court cards, the others
/// their numeral.
pub open spec fn rank_name(rank: int) -> Seq<char>
    recommends
        1 <= rank <= 14,
{
    if rank == 1 {
        "Ace"@
    } else if rank == 11 {
        "Page"@
    } else if rank == 12 {
        "Knight"@
    } else if rank == 13 {
        "Queen"@
    } else if rank == 14 {
        "King"@
    } else {
        decimal_text(rank as nat)
    }
}

/// Display name of a suit.
pub open spec fn suit_name(suit: int) -> Seq<char>
    recommends
        0 <= suit < 4,
{
    if suit == 0 {
        "Wands"@
    } else if suit == 1 {
        "Cups"@
    } else if suit == 2 {
        "Swords"@
    } else {
        "Pentacles"@
    }
}

/// Rank of a minor card within its suit, from 1 to 14.
pub open spec fn rank_of(card: u8) -> int
    recommends
        22 <= card < 78,
{
    (card - 22) % 14 + 1
}

/// Display name of a card: the fixed name of a major card, and
/// "<rank> of <suit>" for a minor one.
pub open spec fn card_name(card: u8) -> Seq<char>
    recommends
        card < 78,
{
    if is_major(card) {
        major_name(card)
    } else {
        rank_name(rank_of(card)) + " of "@ + suit_name(suit_of(card))
    }
}

/// Display name of a minor card.
pub fn minor_card_name(card_id: u8) -> (name: &'static str)
    requires
        22 <= card_id < 78,
    ensures
        name@ == card_name(card_id),
{
    match card_id {
        22..=35 => wands_name(card_id - 21),
        36..=49 => cups_name(card_id - 35),
        50..=63 => swords_name(card_id - 49),
        _ => pentacles_name(card_id - 63),
    }
}

/// Display name of the card of rank `rank` in the suit of wands.
fn wands_name(rank: u8) -> (name: &'static str)
    requires
        1 <= rank <= 14,
    ensures
        name@ == rank_name(rank as int) + " of "@ + "Wands"@,
{
    proof {
        reveal_with_fuel(decimal_text, 2);
        reveal_strlit(" of ");
        reveal_strlit("Wands");
        reveal_strlit("Ace");
        reveal_strlit("Page");
        reveal_strlit("Knight");
        reveal_strlit("Queen");
        reveal_strlit("King");
        reveal_strlit("Ace of Wands");
        reveal_strlit("2 of Wands");
        reveal_strlit("3 of Wands");
        reveal_strlit("4 of Wands");
        reveal_strlit("5 of Wands");
        reveal_strlit("6 of Wands");
        reveal_strlit("7 of Wands");
        reveal_strlit("8 of Wands");
        reveal_strlit("9 of Wands");
        reveal_strlit("10 of Wands");
        reveal_strlit("Page of Wands");
        reveal_strlit("Knight of Wands");
        reveal_strlit("Queen of Wands");
        reveal_strlit("King of Wands");
    }
    let name = match rank {
        1 => "Ace of Wands",
        2 => "2 of Wands",
        3 => "3 of Wands",
        4 => "4 of Wands",
        5 => "5 of Wands",
        6 => "6 of Wands",
        7 => "7 of Wands",
        8 => "8 of Wands",
        9 => "9 of Wands",
        10 => "10 of Wands",
        11 => "Page of Wands",
        12 => "Knight of Wands",
        13 => "Queen of Wands",
        _ => "King of Wands",
    };
    assert(name@ =~= rank_name(rank as int) + " of "@ + "Wands"@);
    name
}

/// Display name of the card of rank `rank` in the suit of cups.
fn cups_name(rank: u8) -> (name: &'static str)
    requires
        1 <= rank <= 14,
    ensures
        name@ == rank_name(rank as int) + " of "@ + "Cups"@,
{
    proof {
        reveal_with_fuel(decimal_text, 2);
        reveal_strlit(" of ");
        reveal_strlit("Cups");
        reveal_strlit("Ace");
        reveal_strlit("Page");
        reveal_strlit("Knight");
        reveal_strlit("Queen");
        reveal_strlit("King");
        reveal_strlit("Ace of Cups");
        reveal_strlit("2 of Cups");
        reveal_strlit("3 of Cups");
        reveal_strlit("4 of Cups");
        reveal_strlit("5 of Cups");
        reveal_strlit("6 of Cups");
        reveal_strlit("7 of Cups");
        reveal_strlit("8 of Cups");
        reveal_strlit("9 of Cups");
        reveal_strlit("10 of Cups");
        reveal_strlit("Page of Cups");
        reveal_strlit("Knight of Cups");
        reveal_strlit("Queen of Cups");
        reveal_strlit("King of Cups");
    }
    let name = match rank {
        1 => "Ace of Cups",
        2 => "2 of Cups",
        3 => "3 of Cups",
        4 => "4 of Cups",
        5 => "5 of Cups",
        6 => "6 of Cups",
        7 => "7 of Cups",
        8 => "8 of Cups",
        9 => "9 of Cups",
        10 => "10 of Cups",
        11 => "Page of Cups",
        12 => "Knight of Cups",
        13 => "Queen of Cups",
        _ => "King of Cups",
    };
    assert(name@ =~= rank_name(rank as int) + " of "@ + "Cups"@);
    name
}

/// Display name of the card of rank `rank` in the suit of swords.
fn swords_name(rank: u8) -> (name: &'static str)
    requires
        1 <= rank <= 14,
    ensures
        name@ == rank_name(rank as int) + " of "@ + "Swords"@,
{
    proof {
        reveal_with_fuel(decimal_text, 2);
        reveal_strlit(" of ");
        reveal_strlit("Swords");
        reveal_strlit("Ace");
        reveal_strlit("Page");
        reveal_strlit("Knight");
        reveal_strlit("Queen");
        reveal_strlit("King");
        reveal_strlit("Ace of Swords");
        reveal_strlit("2 of Swords");
        reveal_strlit("3 of Swords");
        reveal_strlit("4 of Swords");
        reveal_strlit("5 of Swords");
        reveal_strlit("6 of Swords");
        reveal_strlit("7 of Swords");
        reveal_strlit("8 of Swords");
        reveal_strlit("9 of Swords");
        reveal_strlit("10 of Swords");
        reveal_strlit("Page of Swords");
        reveal_strlit("Knight of Swords");
        reveal_strlit("Queen of Swords");
        reveal_strlit("King of Swords");
    }
    let name = match rank {
        1 => "Ace of Swords",
        2 => "2 of Swords",
        3 => "3 of Swords",
        4 => "4 of Swords",
        5 => "5 of Swords",
        6 => "6 of Swords",
        7 => "7 of Swords",
        8 => "8 of Swords",
        9 => "9 of Swords",
        10 => "10 of Swords",
        11 => "Page of Swords",
        12 => "Knight of Swords",
        13 => "Queen of Swords",
        _ => "King of Swords",
    };
    assert(name@ =~= rank_name(rank as int) + " of "@ + "Swords"@);
    name
}

/// Display name of the card of rank `rank` in the suit of pentacles.
fn pentacles_name(rank: u8) -> (name: &'static str)
    requires
        1 <= rank <= 14,
    ensures
        name@ == rank_name(rank as int) + " of "@ + "Pentacles"@,
{
    proof {
        reveal_with_fuel(decimal_text, 2);
        reveal_strlit(" of ");
        reveal_strlit("Pentacles");
        reveal_strlit("Ace");
        reveal_strlit("Page");
        reveal_strlit("Knight");
        reveal_strlit("Queen");
        reveal_strlit("King");
        reveal_strlit("Ace of Pentacles");
        reveal_strlit("2 of Pentacles");
        reveal_strlit("3 of Pentacles");
        reveal_strlit("4 of Pentacles");
        reveal_strlit("5 of Pentacles");
        reveal_strlit("6 of Pentacles");
        reveal_strlit("7 of Pentacles");
        reveal_strlit("8 of Pentacles");
        reveal_strlit("9 of Pentacles");
        reveal_strlit("10 of Pentacles");
        reveal_strlit("Page of Pentacles");
        reveal_strlit("Knight of Pentacles");
        reveal_strlit("Queen of Pentacles");
        reveal_strlit("King of Pentacles");
    }
    let name = match rank {
        1 => "Ace of Pentacles",
        2 => "2 of Pentacles",
        3 => "3 of Pentacles",
        4 => "4 of Pentacles",
        5 => "5 of Pentacles",
        6 => "6 of Pentacles",
        7 => "7 of Pentacles",
        8 => "8 of Pentacles",
        9 => "9 of Pentacles",
        10 => "10 of Pentacles",
        11 => "Page of Pentacles",
        12 => "Knight of Pentacles",
        13 => "Queen of Pentacles",
        _ => "King of Pentacles",
    };
    assert(name@ =~= rank_name(rank as int) + " of "@ + "Pentacles"@);
    name
}

} // verus!
