use vstd::prelude::*;

use crate::card_type::CardType;
use crate::errors::{DatabaseQueryError, ErrorObject, ProcessError, STATUS_BAD_REQUEST};
use crate::identity::{fresh_id, ID_LENGTH};

verus! {

/// A card of the game: an identifier and the card's type.
#[derive(Debug)]
pub struct Card {
    pub id: String,
    pub card_type: CardType,
}

/// The value of a card.
pub struct CardView {
    pub id: Seq<char>,
    pub card_type: CardType,
}

impl View for Card {
    type V = CardView;

    open spec fn view(&self) -> CardView {
        CardView { id: self.id@, card_type: self.card_type }
    }
}

/// The values of a list of cards.
pub open spec fn cards_view(cards: Seq<Card>) -> Seq<CardView> {
    cards.map_values(|c: Card| c@)
}

/// Copies a list of cards.
pub fn copy_cards(cards: &Vec<Card>) -> (r: Vec<Card>)
    ensures
        cards_view(r@) == cards_view(cards@),
{
    let r = cards.clone();
    assert(cards_view(r@) =~= cards_view(cards@));
    r
}

impl Clone for Card {
    fn clone(&self) -> (r: Self)
        ensures
            r@ == self@,
    {
        Card { id: self.id.clone(), card_type: self.card_type }
    }
}

impl Card {
    /// A card of the given type under a fresh identifier.
    pub fn new(card_type: CardType) -> (r: Self)
        ensures
            r.card_type == card_type,
            r.id@.len() == ID_LENGTH,
    {
        Card { id: fresh_id(), card_type }
    }
}

impl Default for Card {
    /// A King under a fresh identifier.
    fn default() -> (r: Self)
        ensures
            r.card_type == CardType::King,
            r.id@.len() == ID_LENGTH,
    {
        Card::new(CardType::King)
    }
}

impl ErrorObject for Card {}

/// The changes asked for a card: the card's identifier and, for each property,
/// the new value if it is to change.
#[derive(Debug)]
pub struct UpdateCardDTO {
    pub id: String,
    pub card_type: Option<CardType>,
    pub player_id: Option<String>,
    pub claim_id: Option<String>,
}

/// The value of a card update.
pub struct UpdateCardView {
    pub id: Seq<char>,
    pub card_type: Option<CardType>,
    pub player_id: Option<Seq<char>>,
    pub claim_id: Option<Seq<char>>,
}

/// The value of an optional string.
pub open spec fn opt_view(s: Option<String>) -> Option<Seq<char>> {
    match s {
        Some(t) => Some(t@),
        None => None,
    }
}

/// Copies an optional string.
pub fn copy_opt_string(s: &Option<String>) -> (r: Option<String>)
    ensures
        opt_view(r) == opt_view(*s),
{
    match s {
        Some(t) => Some(t.clone()),
        None => None,
    }
}

impl View for UpdateCardDTO {
    type V = UpdateCardView;

    open spec fn view(&self) -> UpdateCardView {
        UpdateCardView {
            id: self.id@,
            card_type: self.card_type,
            player_id: opt_view(self.player_id),
            claim_id: opt_view(self.claim_id),
        }
    }
}

impl Clone for UpdateCardDTO {
    fn clone(&self) -> (r: Self)
        ensures
            r@ == self@,
    {
        UpdateCardDTO {
            id: self.id.clone(),
            card_type: self.card_type,
            player_id: copy_opt_string(&self.player_id),
            claim_id: copy_opt_string(&self.claim_id),
        }
    }
}

impl UpdateCardDTO {
    /// An update of the card `id`; refused when `id` is empty.
    pub fn new(
        id: String,
        card_type: Option<CardType>,
        player_id: Option<String>,
        claim_id: Option<String>,
    ) -> (r: Result<Self, ProcessError<UpdateCardDTO>>)
        ensures
            id@.len() == 0 <==> r is Err,
            r matches Ok(d) ==> d@ == (UpdateCardView {
                id: id@,
                card_type,
                player_id: opt_view(player_id),
                claim_id: opt_view(claim_id),
            }),
            r matches Err(e) ==> e.message@ == "Card ID cannot be empty."@
                && e.name_of_function@ == "UpdateCardDTO::new"@ && e.bad_data is None,
    {
        if id.as_str().is_empty() {
            return Err(
                ProcessError::new(
                    String::from_str("Card ID cannot be empty."),
                    String::from_str("UpdateCardDTO::new"),
                    None,
                ),
            );
        }
        Ok(UpdateCardDTO { id, card_type, player_id, claim_id })
    }

    /// The card that the update describes: its identifier, and its new type or
    /// King where the type does not change.
    pub fn as_card(&self) -> (r: Card)
        ensures
            r.id@ == self.id@,
            r.card_type == (match self.card_type {
                Some(t) => t,
                None => CardType::King,
            }),
    {
        Card {
            id: self.id.clone(),
            card_type: match self.card_type {
                Some(t) => t,
                None => CardType::King,
            },
        }
    }
}

impl UpdateCardDTO {
    /// The error for an update that the store was not asked to make, with the
    /// given description: status 400, carrying the card the update describes.
    pub fn refused(&self, message: String) -> (r: DatabaseQueryError<Card>)
        ensures
            r.message == message,
            r.status_code == STATUS_BAD_REQUEST,
            r.received_data is Some,
            r.received_data->0.id@ == self.id@,
            r.received_data->0.card_type == (match self.card_type {
                Some(t) => t,
                None => CardType::King,
            }),
    {
        DatabaseQueryError::new(message, Some(self.as_card()), STATUS_BAD_REQUEST)
    }
}

impl ErrorObject for UpdateCardDTO {}

} // verus!
