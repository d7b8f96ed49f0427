//! Uploading the images of the cards.

use crate::state::{CardLibrary, ErrorCode, OracleState, texts_of, uploaded_images};
use vstd::prelude::*;
use vstd::string::StringSliceAdditionalSpecFns;

verus! {

/// Most images that one upload may bring.
pub const MAX_BATCH: usize = 10;

/// Most bytes that one image may have.
pub const MAX_IMAGE_BYTES: usize = 2048;

/// Size of an image in bytes: the length of its UTF-8 encoding.
pub open spec fn image_size(image: Seq<char>) -> nat {
    vstd::utf8::encode_utf8(image).len()
}

/// Why an upload of `images` to the slots from `start_index` on is refused,
/// if it is: the batch is too large, it starts or ends beyond the last slot,
/// or one of its images is too large.
pub open spec fn upload_refusal(start_index: u8, images: Seq<Seq<char>>) -> Option<ErrorCode> {
    if images.len() > 10 {
        Some(ErrorCode::CardBatchTooLarge)
    } else if start_index > 78 {
        Some(ErrorCode::InvalidCardId)
    } else if start_index + images.len() > 78 {
        Some(ErrorCode::CardBatchTooLarge)
    } else if exists|i: int| 0 <= i < images.len() && image_size(#[trigger] images[i]) > 2048 {
        Some(ErrorCode::CardBatchTooLarge)
    } else {
        None
    }
}

/// The 78 slots after an upload: the slots from `start_index` on hold the
/// new images, the others what they held before, or nothing if the library
/// had no slots yet.
pub open spec fn images_after_upload(
    before: Seq<Seq<char>>,
    start_index: u8,
    images: Seq<Seq<char>>,
) -> Seq<Seq<char>> {
    Seq::new(
        78,
        |i: int|
            if start_index <= i < start_index + images.len() {
                images[i - start_index]
            } else if i < before.len() {
                before[i]
            } else {
                Seq::empty()
            },
    )
}

/// Whether every image of the batch is within the size limit.
fn images_fit(card_svgs: &Vec<String>) -> (fit: bool)
    ensures
        fit == (forall|i: int|
            0 <= i < card_svgs@.len() ==> image_size(#[trigger] texts_of(card_svgs@)[i]) <= 2048),
{
    let mut k: usize = 0;
    while k < card_svgs.len()
        invariant
            k <= card_svgs@.len(),
            forall|i: int| 0 <= i < k ==> image_size(#[trigger] texts_of(card_svgs@)[i]) <= 2048,
        decreases card_svgs@.len() - k,
    {
        let bytes = card_svgs[k].as_str().as_bytes();
        assert(bytes@.len() == image_size(texts_of(card_svgs@)[k as int]));
        if bytes.len() > MAX_IMAGE_BYTES {
            return false;
        }
        k += 1;
    }
    true
}

/// What an upload does. A refused upload changes nothing. An accepted one
/// gives the library its 78 slots if it had none, stores the images, notes
/// the time, and marks the oracle as ready once no slot is empty.
pub open spec fn uploaded(
    oracle_before: OracleState,
    library_before: CardLibrary,
    start_index: u8,
    images: Seq<Seq<char>>,
    current_time: i64,
    oracle_after: OracleState,
    library_after: CardLibrary,
    result: Result<(), ErrorCode>,
) -> bool {
    match upload_refusal(start_index, images) {
        Some(refusal) => {
            &&& result == Err::<(), ErrorCode>(refusal)
            &&& oracle_after == oracle_before
            &&& library_after == library_before
        },
        None => {
            &&& result == Ok::<(), ErrorCode>(())
            &&& library_after.images() == images_after_upload(
                library_before.images(),
                start_index,
                images,
            )
            &&& library_after.well_formed()
            &&& library_after.last_updated == current_time
            &&& library_after.version == library_before.version
            &&& library_after.bump == library_before.bump
            &&& oracle_after == (OracleState {
                card_library_initialized: oracle_before.card_library_initialized || uploaded_images(
                    library_after.images(),
                ) == 78,
                ..oracle_before
            })
        },
    }
}

/// Stores a batch of card images in the slots from `start_index` on.
pub fn handler(
    oracle_state: &mut OracleState,
    card_library: &mut CardLibrary,
    start_index: u8,
    card_svgs: Vec<String>,
    current_time: i64,
) -> (result: Result<(), ErrorCode>)
    requires
        old(card_library).well_formed(),
    ensures
        uploaded(
            *old(oracle_state),
            *old(card_library),
            start_index,
            texts_of(card_svgs@),
            current_time,
            *final(oracle_state),
            *final(card_library),
            result,
        ),
{
    if card_svgs.len() > MAX_BATCH {
        return Err(ErrorCode::CardBatchTooLarge);
    }
    if start_index as usize > CardLibrary::MAX_CARDS {
        return Err(ErrorCode::InvalidCardId);
    }
    let end_index = start_index as usize + card_svgs.len();
    if end_index > CardLibrary::MAX_CARDS {
        return Err(ErrorCode::CardBatchTooLarge);
    }
    if !images_fit(&card_svgs) {
        return Err(ErrorCode::CardBatchTooLarge);
    }
    let mut cards: Vec<String> = Vec::new();
    let mut k: usize = 0;
    while k < CardLibrary::MAX_CARDS
        invariant
            k <= 78,
            cards@.len() == k,
            end_index == start_index + card_svgs@.len(),
            end_index <= 78,
            card_library.well_formed(),
            forall|i: int|
                0 <= i < k ==> (#[trigger] cards@[i])@ == images_after_upload(
                    card_library.images(),
                    start_index,
                    texts_of(card_svgs@),
                )[i],
        decreases 78 - k,
    {
        let image = if start_index as usize <= k && k < end_index {
            card_svgs[k - start_index as usize].clone()
        } else if k < card_library.cards.len() {
            card_library.cards[k].clone()
        } else {
            String::new()
        };
        cards.push(image);
        k += 1;
    }
    assert(texts_of(cards@) =~= images_after_upload(
        card_library.images(),
        start_index,
        texts_of(card_svgs@),
    ));
    card_library.cards = cards;
    card_library.last_updated = current_time;
    if card_library.is_complete() {
        oracle_state.card_library_initialized = true;
    }
    Ok(())
}

} // verus!
