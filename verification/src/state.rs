//! Persistent records of the oracle and the values stored in them.

use crate::utils::{calculate_rarity, drawn_cards, fisher_yates_draw_three, is_valid_draw, rarity_of};
use vstd::prelude::*;

verus! {

/// Rarity of a three-card draw, from the most common to the rarest.
#[derive(Clone, Copy, PartialEq, Eq, Structural, Debug)]
pub enum RarityTier {
    Common,
    Uncommon,
    Rare,
    Epic,
    Legendary,
}

impl Default for RarityTier {
    fn default() -> (tier: Self)
        ensures
            tier == RarityTier::Common,
    {
        RarityTier::Common
    }
}

/// Why a request was turned down.
#[derive(Clone, Copy, PartialEq, Eq, Structural, Debug)]
pub enum ErrorCode {
    /// The user's cooldown has not run out; so many seconds are left of it.
    CooldownActive { seconds_remaining: u64 },
    /// The user has had the day's fortunes.
    DailyLimitExceeded,
    /// Not all 78 card images have been uploaded.
    CardLibraryNotInitialized,
    /// There is no card or slot of that id.
    InvalidCardId,
    /// The batch has too many images, reaches beyond the last slot, or holds
    /// an image that is too large.
    CardBatchTooLarge,
    /// The fee is outside the accepted range.
    InsufficientFunds,
    /// The account named is not the oracle's administrator or treasury.
    InvalidAuthority,
}

impl ErrorCode {
    /// The text that goes with each error.
    pub open spec fn message_text(self) -> Seq<char> {
        match self {
            ErrorCode::CooldownActive { .. } => "Fortune creation is on cooldown"@,
            ErrorCode::DailyLimitExceeded => "Daily fortune limit exceeded"@,
            ErrorCode::CardLibraryNotInitialized => "Card library not initialized"@,
            ErrorCode::InvalidCardId => "Invalid card ID"@,
            ErrorCode::CardBatchTooLarge => "Card batch too large"@,
            ErrorCode::InsufficientFunds => "Insufficient funds for fortune fee"@,
            ErrorCode::InvalidAuthority => "Invalid authority"@,
        }
    }

    /// The text that goes with the error.
    pub fn message(&self) -> (text: &'static str)
        ensures
            text@ == self.message_text(),
    {
        match self {
            ErrorCode::CooldownActive { .. } => "Fortune creation is on cooldown",
            ErrorCode::DailyLimitExceeded => "Daily fortune limit exceeded",
            ErrorCode::CardLibraryNotInitialized => "Card library not initialized",
            ErrorCode::InvalidCardId => "Invalid card ID",
            ErrorCode::CardBatchTooLarge => "Card batch too large",
            ErrorCode::InsufficientFunds => "Insufficient funds for fortune fee",
            ErrorCode::InvalidAuthority => "Invalid authority",
        }
    }
}

/// The key that no user has: 32 zero bytes. A record that holds it has not
/// been claimed yet.
pub open spec fn default_key() -> Seq<u8> {
    Seq::new(32, |i: int| 0u8)
}

/// Whether two keys hold the same bytes.
pub fn keys_equal(a: &[u8; 32], b: &[u8; 32]) -> (equal: bool)
    ensures
        equal == (a@ == b@),
{
    let mut k: usize = 0;
    while k < 32
        invariant
            k <= 32,
            forall|i: int| 0 <= i < k ==> a@[i] == b@[i],
        decreases 32 - k,
    {
        if a[k] != b[k] {
            return false;
        }
        k += 1;
    }
    assert(a@ =~= b@);
    true
}

/// Whether `key` is the key that no user has.
pub fn is_default_key(key: &[u8; 32]) -> (unclaimed: bool)
    ensures
        unclaimed == (key@ == default_key()),
{
    let zero = [0u8; 32];
    assert(zero@ =~= default_key());
    keys_equal(key, &zero)
}

/// Configuration and counters of the oracle.
#[derive(Clone, Copy, PartialEq, Eq, Debug)]
pub struct OracleState {
    /// Key of the administrator.
    pub authority: [u8; 32],
    /// Key of the wallet that collects the fees.
    pub treasury: [u8; 32],
    /// Fee of one fortune, in lamports.
    pub fee: u64,
    /// Number of fortunes told so far; the next fortune takes it as its id.
    pub fortune_counter: u64,
    /// Whether all 78 card images have been uploaded.
    pub card_library_initialized: bool,
    pub bump: u8,
}

/// The images of the cards, one per card id; an empty string stands for an
/// image that has not been uploaded.
#[derive(Clone, PartialEq, Eq, Debug)]
pub struct CardLibrary {
    pub cards: Vec<String>,
    /// Design version of the images.
    pub version: u8,
    /// Time of the last upload.
    pub last_updated: i64,
    pub bump: u8,
}

/// How many of the images are there, that is, not empty.
pub open spec fn uploaded_images(images: Seq<Seq<char>>) -> nat
    decreases images.len(),
{
    if images.len() == 0 {
        0
    } else {
        uploaded_images(images.drop_last()) + (if images.last().len() > 0 { 1nat } else { 0nat })
    }
}

/// The text of each string of `strings`.
pub open spec fn texts_of(strings: Seq<String>) -> Seq<Seq<char>> {
    Seq::new(strings.len(), |i: int| strings[i]@)
}

impl CardLibrary {
    /// Number of images of a full library.
    pub const MAX_CARDS: usize = 78;

    /// The images as texts, one per slot.
    pub open spec fn images(&self) -> Seq<Seq<char>> {
        texts_of(self.cards@)
    }

    /// The library is either still without slots or has one slot per card.
    pub open spec fn well_formed(&self) -> bool {
        self.cards@.len() == 0 || self.cards@.len() == 78
    }

    /// Number of images that have been uploaded.
    pub fn uploaded_count(&self) -> (count: usize)
        ensures
            count == uploaded_images(self.images()),
            count <= self.cards@.len(),
    {
        let mut count: usize = 0;
        let mut k: usize = 0;
        while k < self.cards.len()
            invariant
                k <= self.cards@.len(),
                count <= k,
                count == uploaded_images(self.images().take(k as int)),
            decreases self.cards@.len() - k,
        {
            assert(self.images().take(k as int + 1).drop_last() =~= self.images().take(k as int));
            if !self.cards[k].as_str().is_empty() {
                count += 1;
            }
            k += 1;
        }
        assert(self.images().take(k as int) =~= self.images());
        count
    }

    /// Whether the image of every card has been uploaded.
    pub fn is_complete(&self) -> (complete: bool)
        ensures
            complete == (uploaded_images(self.images()) == 78),
    {
        self.uploaded_count() == Self::MAX_CARDS
    }
}

/// A fortune that was told: the cards drawn, with what is needed to check
/// the draw.
#[derive(Clone, Copy, PartialEq, Eq, Debug)]
pub struct Fortune {
    /// Number of the fortune, counted from 0.
    pub fortune_id: u64,
    /// Key of the user it was told to.
    pub owner: [u8; 32],
    /// Ids of the cards of the past, the present and the future.
    pub cards: [u8; 3],
    /// Time of the request.
    pub timestamp: i64,
    /// Slot of the request.
    pub block_height: u64,
    pub rarity: RarityTier,
    /// Seed that the cards were drawn from.
    pub entropy_seed: [u8; 32],
    pub bump: u8,
}

impl Fortune {
    /// The fortune is the one that `entropy_seed` gives to `owner`: its cards
    /// are those that the seed draws, and its tier is theirs.
    pub open spec fn records(
        self,
        fortune_id: u64,
        owner: Seq<u8>,
        entropy_seed: Seq<u8>,
        timestamp: i64,
        block_height: u64,
        bump: u8,
    ) -> bool {
        &&& self.fortune_id == fortune_id
        &&& self.owner@ == owner
        &&& self.cards@ == drawn_cards(entropy_seed)
        &&& self.timestamp == timestamp
        &&& self.block_height == block_height
        &&& self.rarity == rarity_of(drawn_cards(entropy_seed))
        &&& self.entropy_seed@ == entropy_seed
        &&& self.bump == bump
    }

    /// Draws the cards of a fortune from its seed, classifies them and fills
    /// in the record.
    pub fn from_seed(
        fortune_id: u64,
        owner: [u8; 32],
        entropy_seed: [u8; 32],
        timestamp: i64,
        block_height: u64,
        bump: u8,
    ) -> (fortune: Fortune)
        ensures
            fortune.records(fortune_id, owner@, entropy_seed@, timestamp, block_height, bump),
            is_valid_draw(fortune.cards@),
    {
        let cards = fisher_yates_draw_three(entropy_seed);
        let rarity = calculate_rarity(cards);
        Fortune {
            fortune_id,
            owner,
            cards,
            timestamp,
            block_height,
            rarity,
            entropy_seed,
            bump,
        }
    }
}

/// Seconds in a day.
pub const SECONDS_PER_DAY: i64 = 86400;

/// Day of the last reset of a record that has never been used: earlier than
/// the day of any timestamp.
pub const NEVER_RESET: i64 = i64::MIN;

/// Cooldown of a record that has never been used: no timestamp is before it.
pub const NO_COOLDOWN: i64 = i64::MIN;

/// Index of the day that `time` falls in: `time / 86400`, rounded down.
pub open spec fn day_index(time: i64) -> int {
    time as int / 86400
}

/// Seconds to wait after the fortune that brought the day's count to
/// `daily_count`: none after the first, half an hour after the second, two
/// hours after the third, a day after any later one.
pub open spec fn cooldown_delay(daily_count: int) -> int {
    if daily_count == 1 {
        0
    } else if daily_count == 2 {
        1800
    } else if daily_count == 3 {
        7200
    } else {
        86400
    }
}

/// Computes the index of the day that `time` falls in.
pub fn day_of(time: i64) -> (day: i64)
    ensures
        day == day_index(time),
{
    if time >= 0 {
        time / SECONDS_PER_DAY
    } else {
        -1 - (-1 - time) / SECONDS_PER_DAY
    }
}

/// What the oracle remembers of one user.
#[derive(Clone, Copy, PartialEq, Eq, Debug)]
pub struct UserRecord {
    /// Key of the user.
    pub user: [u8; 32],
    /// Time of the user's last fortune.
    pub last_fortune_timestamp: i64,
    /// Fortunes told to the user since the last reset.
    pub daily_count: u8,
    /// Index of the day of the last reset.
    pub last_reset_day: i64,
    /// Earliest time at which the next fortune is allowed.
    pub cooldown_until: i64,
    /// Fortunes told to the user in all.
    pub total_fortunes: u64,
    pub bump: u8,
}

impl UserRecord {
    /// The record that `user` finds: the one at hand, or a fresh one if the
    /// one at hand has not been claimed yet.
    pub open spec fn claimed_by(self, user: [u8; 32], bump: u8) -> UserRecord {
        if self.user@ == default_key() {
            UserRecord::fresh(user, bump)
        } else {
            self
        }
    }

    /// What holds of every record that started fresh and saw only resets and
    /// fortunes told when they were allowed: the last reset is not later than
    /// the cooldown, at most four fortunes are counted for a day, and after
    /// the fourth the cooldown runs past the end of that day.
    pub open spec fn well_formed(self) -> bool {
        &&& self.last_reset_day * 86400 <= self.cooldown_until
        &&& self.daily_count <= 4
        &&& self.daily_count == 4 ==> (self.last_reset_day + 1) * 86400 <= self.cooldown_until
    }

    /// The record of a user who has not asked for a fortune yet.
    pub open spec fn fresh(user: [u8; 32], bump: u8) -> UserRecord {
        UserRecord {
            user,
            last_fortune_timestamp: 0,
            daily_count: 0,
            last_reset_day: i64::MIN,
            cooldown_until: i64::MIN,
            total_fortunes: 0,
            bump,
        }
    }

    /// The record after the day's reset at `current_time`: on a later day than
    /// that of the last reset the daily count starts again at 0.
    pub open spec fn after_reset(self, current_time: i64) -> UserRecord {
        if day_index(current_time) > self.last_reset_day {
            UserRecord {
                daily_count: 0,
                last_reset_day: day_index(current_time) as i64,
                ..self
            }
        } else {
            self
        }
    }

    /// Whether a fortune may be told at `current_time`.
    pub open spec fn accepts(self, current_time: i64) -> bool {
        current_time >= self.cooldown_until
    }

    /// Seconds left of the cooldown at `current_time`.
    pub open spec fn seconds_remaining(self, current_time: i64) -> int {
        self.cooldown_until - current_time
    }

    /// Whether the counters have room for one more fortune at `current_time`.
    pub open spec fn has_room(self, current_time: i64) -> bool {
        &&& self.total_fortunes < u64::MAX
        &&& self.daily_count < u8::MAX
        &&& current_time + cooldown_delay(self.daily_count + 1) <= i64::MAX
    }

    /// The record after a fortune told at `current_time`.
    pub open spec fn after_fortune(self, current_time: i64) -> UserRecord {
        UserRecord {
            last_fortune_timestamp: current_time,
            total_fortunes: (self.total_fortunes + 1) as u64,
            daily_count: (self.daily_count + 1) as u8,
            cooldown_until: (current_time + cooldown_delay(self.daily_count + 1)) as i64,
            ..self
        }
    }

    /// Makes the record of a user who has not asked for a fortune yet.
    pub fn new(user: [u8; 32], bump: u8) -> (record: UserRecord)
        ensures
            record == UserRecord::fresh(user, bump),
    {
        UserRecord {
            user,
            last_fortune_timestamp: 0,
            daily_count: 0,
            last_reset_day: NEVER_RESET,
            cooldown_until: NO_COOLDOWN,
            total_fortunes: 0,
            bump,
        }
    }

    /// Starts the daily count again if `current_time` falls on a later day
    /// than the last reset.
    pub fn reset_daily_if_needed(&mut self, current_time: i64)
        ensures
            *final(self) == old(self).after_reset(current_time),
    {
        let current_day = day_of(current_time);
        if current_day > self.last_reset_day {
            self.daily_count = 0;
            self.last_reset_day = current_day;
        }
    }

    /// Checks the cooldown: a fortune may be told once `cooldown_until` is
    /// reached; before that the error says how many seconds are left.
    pub fn can_create_fortune(&self, current_time: i64) -> (result: Result<(), ErrorCode>)
        ensures
            self.accepts(current_time) ==> result == Ok::<(), ErrorCode>(()),
            !self.accepts(current_time) ==> result == Err::<(), ErrorCode>(
                ErrorCode::CooldownActive {
                    seconds_remaining: self.seconds_remaining(current_time) as u64,
                },
            ),
            !self.accepts(current_time) ==> 0 < self.seconds_remaining(current_time) <= u64::MAX,
    {
        if current_time < self.cooldown_until {
            let remaining = (self.cooldown_until as i128 - current_time as i128) as u64;
            return Err(ErrorCode::CooldownActive { seconds_remaining: remaining });
        }
        Ok(())
    }

    /// Counts a fortune told at `current_time` and sets the next cooldown,
    /// measured from `current_time`.
    pub fn update_after_fortune(&mut self, current_time: i64)
        requires
            old(self).has_room(current_time),
        ensures
            *final(self) == old(self).after_fortune(current_time),
    {
        self.last_fortune_timestamp = current_time;
        self.total_fortunes += 1;
        self.daily_count += 1;
        let delay: i64 = match self.daily_count {
            1 => 0,
            2 => 30 * 60,
            3 => 2 * 3600,
            _ => 24 * 3600,
        };
        self.cooldown_until = current_time + delay;
    }
}

/// A user who has not asked before is allowed a fortune, whatever the time.
pub proof fn lemma_fresh_record_accepts(user: [u8; 32], bump: u8, current_time: i64)
    ensures
        UserRecord::fresh(user, bump).well_formed(),
        UserRecord::fresh(user, bump).after_reset(current_time).accepts(current_time),
        UserRecord::fresh(user, bump).after_reset(current_time).daily_count == 0,
{
}

/// The day's reset touches the count and the day of the reset, never the
/// cooldown: on a later day the count starts again at 0, and a fortune is
/// allowed after the reset exactly when it was allowed before.
pub proof fn lemma_reset_honors_cooldown(record: UserRecord, current_time: i64)
    ensures
        record.after_reset(current_time).cooldown_until == record.cooldown_until,
        record.after_reset(current_time).accepts(current_time) == record.accepts(current_time),
        record.after_reset(current_time).total_fortunes == record.total_fortunes,
        record.after_reset(current_time).last_fortune_timestamp == record.last_fortune_timestamp,
        day_index(current_time) > record.last_reset_day ==> record.after_reset(
            current_time,
        ).daily_count == 0,
        day_index(current_time) <= record.last_reset_day ==> record.after_reset(current_time)
            == record,
        record.after_reset(current_time).last_reset_day >= day_index(current_time),
{
}

/// The first fortune of a user at `start` leaves no cooldown, so a second one
/// is allowed at once; the second sets the cooldown half an hour after
/// `start`, and 1000 seconds into it 800 seconds are left.
pub proof fn lemma_second_fortune_starts_cooldown(user: [u8; 32], bump: u8, start: i64)
    requires
        start + 1800 <= i64::MAX,
    ensures
        ({
            let first = UserRecord::fresh(user, bump).after_reset(start).after_fortune(start);
            let second = first.after_reset(start).after_fortune(start);
            let later = (start + 1000) as i64;
            &&& first.daily_count == 1
            &&& first.cooldown_until == start
            &&& first.after_reset(start).accepts(start)
            &&& second.daily_count == 2
            &&& second.cooldown_until == start + 1800
            &&& !second.after_reset(later).accepts(later)
            &&& second.after_reset(later).seconds_remaining(later) == 800
        }),
{
}

/// A fortune that is told when it is allowed never moves the cooldown back.
pub proof fn lemma_cooldown_never_moves_back(record: UserRecord, current_time: i64)
    requires
        record.accepts(current_time),
        record.has_room(current_time),
    ensures
        record.after_fortune(current_time).cooldown_until >= current_time,
        record.after_fortune(current_time).cooldown_until >= record.cooldown_until,
{
}

/// A request that is turned down for the cooldown leaves a well-formed
/// record well formed.
pub proof fn lemma_refusal_keeps_well_formed(record: UserRecord, current_time: i64)
    requires
        record.well_formed(),
        !record.accepts(current_time),
    ensures
        record.after_reset(current_time).well_formed(),
{
    let day = day_index(current_time);
    assert(day * 86400 <= current_time < (day + 1) * 86400);
}

/// A fortune told when it is allowed, after the day's reset, leaves a
/// well-formed record well formed, and the daily count has room for it. So
/// no user is told more than four fortunes on one day.
pub proof fn lemma_fortune_keeps_well_formed(record: UserRecord, current_time: i64)
    requires
        record.well_formed(),
        record.accepts(current_time),
        record.total_fortunes < u64::MAX,
        current_time + 86400 <= i64::MAX,
    ensures
        record.after_reset(current_time).last_reset_day == day_index(current_time),
        record.after_reset(current_time).daily_count < 4,
        record.after_reset(current_time).has_room(current_time),
        record.after_reset(current_time).after_fortune(current_time).well_formed(),
{
    let day = day_index(current_time);
    assert(day * 86400 <= current_time < (day + 1) * 86400);
    assert(record.last_reset_day <= day) by {
        if record.last_reset_day > day {
            assert(record.last_reset_day * 86400 >= (day + 1) * 86400);
        }
    }
}

} // verus!
