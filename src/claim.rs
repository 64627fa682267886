use vstd::prelude::*;

use crate::card::{cards_view, copy_cards, Card, CardView, UpdateCardDTO, UpdateCardView};
use crate::errors::{BadClientRequest, DatabaseQueryError, ErrorObject, STATUS_INTERNAL_SERVER_ERROR};
use crate::identity::{fresh_id, ID_LENGTH};

verus! {

/// The most cards a single claim may hold.
pub const MAX_CARDS_PER_CLAIM: usize = 4;

/// A claim: the cards a player says they lay down in a round.
#[derive(Debug)]
pub struct Claim {
    pub id: String,
    /// The player who made the claim.
    pub created_by: String,
    /// The number of cards claimed.
    pub number_of_cards: usize,
    /// The cards laid down.
    pub cards: Vec<Card>,
}

/// The value of a claim.
pub struct ClaimView {
    pub id: Seq<char>,
    pub created_by: Seq<char>,
    pub number_of_cards: nat,
    pub cards: Seq<CardView>,
}

impl View for Claim {
    type V = ClaimView;

    open spec fn view(&self) -> ClaimView {
        ClaimView {
            id: self.id@,
            created_by: self.created_by@,
            number_of_cards: self.number_of_cards as nat,
            cards: cards_view(self.cards@),
        }
    }
}

impl Clone for Claim {
    fn clone(&self) -> (r: Self)
        ensures
            r@ == self@,
    {
        Claim {
            id: self.id.clone(),
            created_by: self.created_by.clone(),
            number_of_cards: self.number_of_cards,
            cards: copy_cards(&self.cards),
        }
    }
}

/// The values of a list of claims.
pub open spec fn claims_view(claims: Seq<Claim>) -> Seq<ClaimView> {
    claims.map_values(|c: Claim| c@)
}

/// Copies a list of claims.
pub fn copy_claims(claims: &Vec<Claim>) -> (r: Vec<Claim>)
    ensures
        claims_view(r@) == claims_view(claims@),
{
    let r = claims.clone();
    assert(claims_view(r@) =~= claims_view(claims@));
    r
}

impl Claim {
    /// A claim by `created_by` under a fresh identifier; refused when it claims
    /// or holds more than `MAX_CARDS_PER_CLAIM` cards, with the refused claim as
    /// the bad data.
    pub fn new(created_by: String, number_of_cards: usize, cards: Vec<Card>) -> (r: Result<
        Self,
        BadClientRequest<Claim>,
    >)
        ensures
            r is Err <==> (number_of_cards > MAX_CARDS_PER_CLAIM || cards@.len() > MAX_CARDS_PER_CLAIM),
            r matches Ok(c) ==> c.id@.len() == ID_LENGTH && c@ == (ClaimView {
                id: c.id@,
                created_by: created_by@,
                number_of_cards: number_of_cards as nat,
                cards: cards_view(cards@),
            }),
            r matches Err(e) ==> e.message@ == "The user handed in an invalid claim object!"@
                && e.bad_data.id@.len() == ID_LENGTH && e.bad_data@ == (ClaimView {
                id: e.bad_data.id@,
                created_by: created_by@,
                number_of_cards: number_of_cards as nat,
                cards: cards_view(cards@),
            }),
    {
        if number_of_cards > MAX_CARDS_PER_CLAIM || cards.len() > MAX_CARDS_PER_CLAIM {
            return Err(
                BadClientRequest::new(
                    String::from_str("The user handed in an invalid claim object!"),
                    Claim { id: fresh_id(), created_by, number_of_cards, cards },
                ),
            );
        }
        Ok(Claim { id: fresh_id(), created_by, number_of_cards, cards })
    }
}

impl Claim {
    /// The update that files `card` under this claim. A card without an
    /// identifier cannot be filed: the error carries a copy of the claim and
    /// answers with status 500.
    pub fn card_filing(&self, card: &Card) -> (r: Result<UpdateCardDTO, DatabaseQueryError<Claim>>)
        ensures
            r is Err <==> card.id@.len() == 0,
            r matches Ok(d) ==> d@ == (UpdateCardView {
                id: card.id@,
                card_type: None,
                player_id: None,
                claim_id: Some(self.id@),
            }),
            r matches Err(e) ==> e.message@ == "Card ID cannot be empty."@ && e.status_code
                == STATUS_INTERNAL_SERVER_ERROR && e.received_data is Some
                && e.received_data->0@ == self@,
    {
        match UpdateCardDTO::new(card.id.clone(), None, None, Some(self.id.clone())) {
            Ok(update) => Ok(update),
            Err(e) => Err(
                DatabaseQueryError::new(e.message, Some(self.clone()), STATUS_INTERNAL_SERVER_ERROR),
            ),
        }
    }
}

impl ErrorObject for Claim {}

} // verus!
