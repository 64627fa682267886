use vstd::prelude::*;

use crate::card_type::CardType;
use crate::chat::{Chat, ChatView};
use crate::claim::{claims_view, copy_claims, Claim, ClaimView};
use crate::errors::{ErrorObject, ProcessError};
use crate::game_service::{new_round_card, select_new_card_to_be_played};
use crate::game_state::GameState;
use crate::identity::{current_timestamp, fresh_id, ID_LENGTH};
use crate::player::{copy_players, players_view, Player, PlayerView};

verus! {

/// The most players a game admits.
pub const MAX_PLAYERS: usize = 5;

/// A game: its players, whose turn it is, its state, round, chat, the card
/// type the round asks for and the claims made in the round.
#[derive(Debug)]
pub struct Game {
    pub id: String,
    pub players: Vec<Player>,
    /// The identifier of the player whose turn it is.
    pub which_player_turn: String,
    pub state: GameState,
    /// When the game was created; it does not change.
    pub started_at: String,
    /// The round being played, counted from 1.
    pub round_number: usize,
    pub chat: Chat,
    /// The card type the round asks for.
    pub card_to_play: CardType,
    /// The claims made in the round.
    pub claims: Vec<Claim>,
}

/// The value of a game.
pub struct GameView {
    pub id: Seq<char>,
    pub players: Seq<PlayerView>,
    pub which_player_turn: Seq<char>,
    pub state: GameState,
    pub started_at: Seq<char>,
    pub round_number: nat,
    pub chat: ChatView,
    pub card_to_play: CardType,
    pub claims: Seq<ClaimView>,
}

impl View for Game {
    type V = GameView;

    open spec fn view(&self) -> GameView {
        GameView {
            id: self.id@,
            players: players_view(self.players@),
            which_player_turn: self.which_player_turn@,
            state: self.state,
            started_at: self.started_at@,
            round_number: self.round_number as nat,
            chat: self.chat@,
            card_to_play: self.card_to_play,
            claims: claims_view(self.claims@),
        }
    }
}

/// The game as the next round starts: the first player's turn, the card type
/// of the new round, no claims, and the round counter one higher.
pub open spec fn next_round(g: GameView) -> GameView
    recommends
        g.players.len() > 0,
{
    GameView {
        which_player_turn: g.players[0].id,
        card_to_play: new_round_card(),
        claims: Seq::empty(),
        round_number: g.round_number + 1,
        ..g
    }
}

impl Game {
    /// A game that is starting now, under a fresh identifier, in round 1, with
    /// no players, an empty chat, no claims, and King as the card type to play.
    pub fn new() -> (r: Self)
        ensures
            r.id@.len() == ID_LENGTH,
            r.players@.len() == 0,
            r.which_player_turn@.len() == 0,
            r.state == GameState::Starting,
            r.round_number == 1,
            r.chat.well_formed(),
            r.chat.messages@.len() == 0,
            r.card_to_play == CardType::King,
            r.claims@.len() == 0,
            r.started_at@.len() > 0,
    {
        Game {
            id: fresh_id(),
            players: Vec::new(),
            which_player_turn: String::new(),
            state: GameState::Starting,
            started_at: current_timestamp(),
            card_to_play: CardType::King,
            chat: Chat::new(),
            claims: Vec::new(),
            round_number: 1,
        }
    }

    /// A copy of `game`.
    pub fn from_ref(game: &Game) -> (r: Self)
        ensures
            r@ == game@,
    {
        Game {
            id: game.id.clone(),
            players: copy_players(&game.players),
            which_player_turn: game.which_player_turn.clone(),
            state: game.state,
            started_at: game.started_at.clone(),
            card_to_play: game.card_to_play,
            chat: game.chat.clone(),
            claims: copy_claims(&game.claims),
            round_number: game.round_number,
        }
    }

    /// Prepares the game for its next round: the first player in the list
    /// starts, the card type to play is drawn anew, the claims are emptied and
    /// the round counter goes up by one. A game without players cannot go on:
    /// it is left as it was, and the error carries a copy of it.
    pub fn prep_for_new_round(&mut self) -> (r: Result<(), ProcessError<Game>>)
        requires
            old(self).players.len() > 0 ==> old(self).round_number < usize::MAX,
        ensures
            r is Err <==> old(self).players.len() == 0,
            r is Ok ==> final(self)@ == next_round(old(self)@),
            r matches Err(e) ==> final(self)@ == old(self)@
                && e.message@
                == "Can't prepare the game for the next round! There are no players in the game's list!"@
                && e.name_of_function@ == "ProcessError::new()"@
                && e.bad_data is Some && e.bad_data->0@ == old(self)@,
    {
        if self.players.len() == 0 {
            return Err(
                ProcessError::new(
                    String::from_str(
                        "Can't prepare the game for the next round! There are no players in the game's list!",
                    ),
                    String::from_str("ProcessError::new()"),
                    Some(Game::from_ref(self)),
                ),
            );
        }
        self.which_player_turn = self.players[0].id.clone();
        self.card_to_play = select_new_card_to_be_played();
        self.claims = Vec::new();
        self.round_number = self.round_number + 1;
        assert(claims_view(self.claims@) =~= Seq::empty());
        Ok(())
    }
}

impl Default for Game {
    /// A new game, as `Game::new` makes it.
    fn default() -> (r: Self)
        ensures
            r.id@.len() == ID_LENGTH,
            r.players@.len() == 0,
            r.which_player_turn@.len() == 0,
            r.state == GameState::Starting,
            r.round_number == 1,
            r.chat.well_formed(),
            r.chat.messages@.len() == 0,
            r.card_to_play == CardType::King,
            r.claims@.len() == 0,
    {
        Game::new()
    }
}

impl ErrorObject for Game {}

/// The changes asked for a game: the game's identifier and, for each property,
/// the new value if it is to change.
#[derive(Debug)]
pub struct UpdateGameDTO {
    pub id: String,
    pub players: Option<Vec<Player>>,
    pub which_player_turn: Option<String>,
    pub state: Option<GameState>,
    /// The new round number; rounds count from 1 and go up by 1.
    pub round_number: Option<usize>,
    pub chat: Option<Chat>,
    pub card_to_play: Option<CardType>,
    pub claims: Option<Vec<Claim>>,
}

/// The value of a game update.
pub struct UpdateGameView {
    pub id: Seq<char>,
    pub players: Option<Seq<PlayerView>>,
    pub which_player_turn: Option<Seq<char>>,
    pub state: Option<GameState>,
    pub round_number: Option<usize>,
    pub chat: Option<ChatView>,
    pub card_to_play: Option<CardType>,
    pub claims: Option<Seq<ClaimView>>,
}

impl View for UpdateGameDTO {
    type V = UpdateGameView;

    open spec fn view(&self) -> UpdateGameView {
        UpdateGameView {
            id: self.id@,
            players: match self.players {
                Some(p) => Some(players_view(p@)),
                None => None,
            },
            which_player_turn: match self.which_player_turn {
                Some(s) => Some(s@),
                None => None,
            },
            state: self.state,
            round_number: self.round_number,
            chat: match self.chat {
                Some(c) => Some(c@),
                None => None,
            },
            card_to_play: self.card_to_play,
            claims: match self.claims {
                Some(c) => Some(claims_view(c@)),
                None => None,
            },
        }
    }
}

impl Clone for UpdateGameDTO {
    fn clone(&self) -> (r: Self)
        ensures
            r@ == self@,
    {
        UpdateGameDTO {
            id: self.id.clone(),
            players: match &self.players {
                Some(p) => Some(copy_players(p)),
                None => None,
            },
            which_player_turn: match &self.which_player_turn {
                Some(s) => Some(s.clone()),
                None => None,
            },
            state: self.state,
            round_number: self.round_number,
            chat: match &self.chat {
                Some(c) => Some(c.clone()),
                None => None,
            },
            card_to_play: self.card_to_play,
            claims: match &self.claims {
                Some(c) => Some(copy_claims(c)),
                None => None,
            },
        }
    }
}

impl ErrorObject for UpdateGameDTO {}

} // verus!
