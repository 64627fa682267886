use vstd::prelude::*;

use crate::card::{cards_view, copy_cards, opt_view, Card, CardView};
use crate::errors::ErrorObject;
use crate::identity::{current_timestamp, fresh_id, ID_LENGTH};

verus! {

/// A player of a game.
#[derive(Debug)]
pub struct Player {
    pub id: String,
    pub name: String,
    pub score: usize,
    /// When the player joined the game.
    pub joined_at: String,
    /// The cards in the player's hand.
    pub assigned_cards: Vec<Card>,
    /// The game the player takes part in.
    pub game_id: String,
    /// When the player last asked for the state of the game.
    pub last_time_update_requested: String,
}

/// The value of a player.
pub struct PlayerView {
    pub id: Seq<char>,
    pub name: Seq<char>,
    pub score: nat,
    pub joined_at: Seq<char>,
    pub assigned_cards: Seq<CardView>,
    pub game_id: Seq<char>,
    pub last_time_update_requested: Seq<char>,
}

impl View for Player {
    type V = PlayerView;

    open spec fn view(&self) -> PlayerView {
        PlayerView {
            id: self.id@,
            name: self.name@,
            score: self.score as nat,
            joined_at: self.joined_at@,
            assigned_cards: cards_view(self.assigned_cards@),
            game_id: self.game_id@,
            last_time_update_requested: self.last_time_update_requested@,
        }
    }
}

impl Clone for Player {
    fn clone(&self) -> (r: Self)
        ensures
            r@ == self@,
    {
        Player {
            id: self.id.clone(),
            name: self.name.clone(),
            score: self.score,
            joined_at: self.joined_at.clone(),
            assigned_cards: copy_cards(&self.assigned_cards),
            game_id: self.game_id.clone(),
            last_time_update_requested: self.last_time_update_requested.clone(),
        }
    }
}

/// The values of a list of players.
pub open spec fn players_view(players: Seq<Player>) -> Seq<PlayerView> {
    players.map_values(|p: Player| p@)
}

/// Copies a list of players.
pub fn copy_players(players: &Vec<Player>) -> (r: Vec<Player>)
    ensures
        players_view(r@) == players_view(players@),
{
    let r = players.clone();
    assert(players_view(r@) =~= players_view(players@));
    r
}

impl Player {
    /// A player who joins the game `game_id` now, under a fresh identifier,
    /// with no score and no cards.
    pub fn new(name: String, game_id: String) -> (r: Self)
        ensures
            r.id@.len() == ID_LENGTH,
            r.name == name,
            r.game_id == game_id,
            r.score == 0,
            r.assigned_cards@.len() == 0,
            r.joined_at@.len() > 0,
            r.last_time_update_requested@.len() > 0,
    {
        Player {
            id: fresh_id(),
            name,
            game_id,
            score: 0,
            joined_at: current_timestamp(),
            assigned_cards: Vec::new(),
            last_time_update_requested: current_timestamp(),
        }
    }
}

impl ErrorObject for Player {}

/// The changes asked for a player: the player's identifier and, for each
/// property, the new value if it is to change.
#[derive(Debug)]
pub struct UpdatePlayerDTO {
    pub id: String,
    pub name: Option<String>,
    pub score: Option<usize>,
    pub assigned_cards: Option<Vec<Card>>,
    pub last_time_update_requested: Option<String>,
}

/// The value of a player update.
pub struct UpdatePlayerView {
    pub id: Seq<char>,
    pub name: Option<Seq<char>>,
    pub score: Option<usize>,
    pub assigned_cards: Option<Seq<CardView>>,
    pub last_time_update_requested: Option<Seq<char>>,
}

/// The value of an optional list of cards.
pub open spec fn opt_cards_view(cards: Option<Vec<Card>>) -> Option<Seq<CardView>> {
    match cards {
        Some(v) => Some(cards_view(v@)),
        None => None,
    }
}

impl View for UpdatePlayerDTO {
    type V = UpdatePlayerView;

    open spec fn view(&self) -> UpdatePlayerView {
        UpdatePlayerView {
            id: self.id@,
            name: opt_view(self.name),
            score: self.score,
            assigned_cards: opt_cards_view(self.assigned_cards),
            last_time_update_requested: opt_view(self.last_time_update_requested),
        }
    }
}

impl UpdatePlayerDTO {
    pub fn new(
        id: String,
        name: Option<String>,
        score: Option<usize>,
        assigned_cards: Option<Vec<Card>>,
        last_time_update_requested: Option<String>,
    ) -> (r: Self)
        ensures
            r.id == id,
            r.name == name,
            r.score == score,
            r.assigned_cards == assigned_cards,
            r.last_time_update_requested == last_time_update_requested,
    {
        UpdatePlayerDTO { id, name, score, assigned_cards, last_time_update_requested }
    }
}

impl ErrorObject for UpdatePlayerDTO {}

} // verus!
