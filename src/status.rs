use vstd::prelude::*;

use crate::game::Game;
use crate::identity::{fresh_id, ID_LENGTH};
use crate::player::Player;

verus! {

/// A player's request for the state of a game. A player who stops asking is
/// taken out of the game.
#[derive(Debug)]
pub struct StatusUpdateRequest {
    /// The player who asks.
    pub player_id: String,
    /// The game asked about.
    pub game_id: String,
}

/// The answer to a request for the state of a game.
#[derive(Debug)]
pub struct StatusUpdate {
    /// The game, where it changed.
    pub game_data: Option<Game>,
    /// The asking player, where their record changed.
    pub player_data: Option<Player>,
    /// Whether the player has been taken out of the game.
    pub player_execluded_from_game: bool,
}

impl StatusUpdateRequest {
    pub fn new(player_id: String, game_id: String) -> (r: Self)
        ensures
            r.player_id == player_id,
            r.game_id == game_id,
    {
        StatusUpdateRequest { player_id, game_id }
    }
}

impl Default for StatusUpdateRequest {
    /// A request under fresh identifiers, to be replaced by real ones.
    fn default() -> (r: Self)
        ensures
            r.player_id@.len() == ID_LENGTH,
            r.game_id@.len() == ID_LENGTH,
    {
        StatusUpdateRequest { player_id: fresh_id(), game_id: fresh_id() }
    }
}

impl StatusUpdate {
    pub fn new(game_data: Option<Game>, player_data: Option<Player>, player_execluded_from_game: bool) -> (r: Self)
        ensures
            r.game_data == game_data,
            r.player_data == player_data,
            r.player_execluded_from_game == player_execluded_from_game,
    {
        StatusUpdate { game_data, player_data, player_execluded_from_game }
    }
}

impl Default for StatusUpdate {
    /// No game, no player, and the player still in the game.
    fn default() -> (r: Self)
        ensures
            r.game_data is None,
            r.player_data is None,
            !r.player_execluded_from_game,
    {
        StatusUpdate { game_data: None, player_data: None, player_execluded_from_game: false }
    }
}

} // verus!
