use vstd::prelude::*;

use rand_chacha::rand_core::{Rng, SeedableRng};
use rand_chacha::ChaCha8Rng;

use crate::card_type::{CardType, CARD_TYPE_COUNT};

verus! {

/// The first 32-bit word of the ChaCha8 stream started from `seed`.
pub uninterp spec fn chacha8_first_word(seed: Seq<u8>) -> u32;

/// Relies on rand_chacha's `ChaCha8Rng::from_seed` and `next_u32`: the first
/// word of the stream, which the seed alone determines.
#[verifier::external_body]
fn first_word_of_stream(seed: [u8; 32]) -> (r: u32)
    ensures
        r == chacha8_first_word(seed@),
{
    ChaCha8Rng::from_seed(seed).next_u32()
}

/// The seed the game draws its cards from: 32 zero bytes.
pub open spec fn round_seed() -> Seq<u8> {
    Seq::new(32, |i: int| 0u8)
}

/// The card type that a random word selects.
pub open spec fn card_for_word(word: u32) -> CardType {
    CardType::spec_from_index((word % (CARD_TYPE_COUNT as u32)) as nat)
}

/// The card type that every new round asks for.
pub open spec fn new_round_card() -> CardType {
    card_for_word(chacha8_first_word(round_seed()))
}

/// Returns the card type that the random word `word` selects.
pub fn card_from_word(word: u32) -> (r: CardType)
    ensures
        r == card_for_word(word),
{
    let num: usize = (word % (CardType::number_of_values() as u32)) as usize;
    CardType::from_usize(num)
}

/// Draws the card type that the next round asks for. The generator always
/// starts from the same seed, so every round asks for the same card type.
pub fn select_new_card_to_be_played() -> (r: CardType)
    ensures
        r == new_round_card(),
{
    let seed: [u8; 32] = [0u8; 32];
    assert(seed@ =~= round_seed());
    card_from_word(first_word_of_stream(seed))
}

} // verus!
