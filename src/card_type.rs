use vstd::prelude::*;

verus! {

/// The number of card types of the game.
pub const CARD_TYPE_COUNT: usize = 5;

/// The types of card that can be played.
#[derive(Debug, Clone, Copy, PartialEq, Eq, Structural)]
pub enum CardType {
    King,
    Queen,
    Jack,
    Ace,
    /// The Joker can stand in for any other card.
    Joker,
}

impl CardType {
    /// The position of the card type in the order King, Queen, Jack, Ace, Joker.
    pub open spec fn spec_index(self) -> nat {
        match self {
            CardType::King => 0,
            CardType::Queen => 1,
            CardType::Jack => 2,
            CardType::Ace => 3,
            CardType::Joker => 4,
        }
    }

    /// The card type at position `n` taken modulo the number of card types.
    pub open spec fn spec_from_index(n: nat) -> CardType {
        let m = n % (CARD_TYPE_COUNT as nat);
        if m == 0 {
            CardType::King
        } else if m == 1 {
            CardType::Queen
        } else if m == 2 {
            CardType::Jack
        } else if m == 3 {
            CardType::Ace
        } else {
            CardType::Joker
        }
    }

    /// The name of the card type.
    pub open spec fn name(self) -> Seq<char> {
        match self {
            CardType::King => "King"@,
            CardType::Queen => "Queen"@,
            CardType::Jack => "Jack"@,
            CardType::Ace => "Ace"@,
            CardType::Joker => "Joker"@,
        }
    }

    /// Returns the name of the card type.
    pub fn as_str(&self) -> (r: &str)
        ensures
            r@ == self.name(),
    {
        match self {
            CardType::King => "King",
            CardType::Queen => "Queen",
            CardType::Jack => "Jack",
            CardType::Ace => "Ace",
            CardType::Joker => "Joker",
        }
    }

    /// Returns the position of the card type: King 0, Queen 1, Jack 2, Ace 3, Joker 4.
    pub fn index(&self) -> (r: usize)
        ensures
            r == self.spec_index(),
            r < CARD_TYPE_COUNT,
    {
        match self {
            CardType::King => 0,
            CardType::Queen => 1,
            CardType::Jack => 2,
            CardType::Ace => 3,
            CardType::Joker => 4,
        }
    }

    /// Returns the number of card types.
    pub fn number_of_values() -> (r: usize)
        ensures
            r == CARD_TYPE_COUNT,
    {
        CARD_TYPE_COUNT
    }

    /// Returns the card type at position `num`, taken modulo the number of card
    /// types, so that every number names a card type.
    pub fn from_usize(num: usize) -> (r: CardType)
        ensures
            r == CardType::spec_from_index(num as nat),
            r.spec_index() == num % CARD_TYPE_COUNT,
    {
        let used_num: usize = num % Self::number_of_values();
        match used_num {
            0 => CardType::King,
            1 => CardType::Queen,
            2 => CardType::Jack,
            3 => CardType::Ace,
            _ => CardType::Joker,
        }
    }
}

/// Reading a card type's position back gives the same card type.
pub proof fn lemma_index_round_trip(c: CardType)
    ensures
        CardType::spec_from_index(c.spec_index()) == c,
{
}

} // verus!
