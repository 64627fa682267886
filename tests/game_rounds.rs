use lue_lue_backend::card::Card;
use lue_lue_backend::card_type::CardType;
use lue_lue_backend::claim::Claim;
use lue_lue_backend::game::Game;
use lue_lue_backend::game_service::{card_from_word, select_new_card_to_be_played};
use lue_lue_backend::game_state::GameState;
use lue_lue_backend::player::Player;
use rand_chacha::rand_core::{Rng, SeedableRng};
use rand_chacha::ChaCha8Rng;

fn player(id: &str) -> Player {
    let mut p = Player::new(id.to_string(), "g".to_string());
    p.id = id.to_string();
    p
}

#[test]
fn new_game_defaults() {
    let g = Game::new();
    assert_eq!(g.id.len(), 36);
    assert!(g.players.is_empty());
    assert!(g.which_player_turn.is_empty());
    assert_eq!(g.state, GameState::Starting);
    assert_eq!(g.round_number, 1);
    assert_eq!(g.card_to_play, CardType::King);
    assert!(g.claims.is_empty());
    assert_eq!(g.chat.number_of_messages, 0);
    assert!(g.started_at.ends_with(" UTC"));
    let d = Game::default();
    assert_ne!(d.id, g.id);
}

#[test]
fn card_from_word_takes_the_remainder() {
    assert_eq!(card_from_word(0), CardType::King);
    assert_eq!(card_from_word(9), CardType::Joker);
    assert_eq!(card_from_word(12), CardType::Jack);
    assert_eq!(card_from_word(u32::MAX), CardType::King);
    assert_eq!(card_from_word(u32::MAX - 4), CardType::Queen);
}

#[test]
fn round_card_comes_from_zero_seeded_chacha8() {
    let word = ChaCha8Rng::from_seed([0u8; 32]).next_u32();
    let expected = CardType::from_usize((word % 5) as usize);
    assert_eq!(select_new_card_to_be_played(), expected);
    assert_eq!(select_new_card_to_be_played(), select_new_card_to_be_played());
}

#[test]
fn from_ref_copies_everything() {
    let mut g = Game::new();
    g.players.push(player("a"));
    g.players[0].assigned_cards.push(Card { id: "c".to_string(), card_type: CardType::Joker });
    g.claims.push(Claim::new("a".to_string(), 2, vec![]).unwrap());
    g.round_number = 7;
    let copy = Game::from_ref(&g);
    assert_eq!(copy.id, g.id);
    assert_eq!(copy.players.len(), 1);
    assert_eq!(copy.players[0].assigned_cards[0].card_type, CardType::Joker);
    assert_eq!(copy.claims[0].number_of_cards, 2);
    assert_eq!(copy.round_number, 7);
    assert_eq!(copy.chat.id, g.chat.id);
}

#[test]
fn next_round_without_players_fails() {
    let mut g = Game::new();
    g.claims.push(Claim::new("a".to_string(), 1, vec![]).unwrap());
    let err = g.prep_for_new_round().unwrap_err();
    assert_eq!(
        err.message,
        "Can't prepare the game for the next round! There are no players in the game's list!"
    );
    assert_eq!(err.name_of_function, "ProcessError::new()");
    let copy = err.bad_data.unwrap();
    assert_eq!(copy.id, g.id);
    assert_eq!(g.round_number, 1);
    assert_eq!(g.claims.len(), 1);
}

#[test]
fn next_round_resets_turn_and_claims() {
    let mut g = Game::new();
    g.players.push(player("first"));
    g.players.push(player("second"));
    g.which_player_turn = "second".to_string();
    g.claims.push(Claim::new("second".to_string(), 3, vec![]).unwrap());
    g.prep_for_new_round().unwrap();
    assert_eq!(g.which_player_turn, "first");
    assert!(g.claims.is_empty());
    assert_eq!(g.round_number, 2);
    assert_eq!(g.card_to_play, select_new_card_to_be_played());
    assert_eq!(g.players.len(), 2);
    g.prep_for_new_round().unwrap();
    assert_eq!(g.round_number, 3);
}
