use lue_lue_backend::card_type::{CardType, CARD_TYPE_COUNT};
use lue_lue_backend::game_state::GameState;

#[test]
fn card_type_names() {
    assert_eq!(CardType::King.as_str(), "King");
    assert_eq!(CardType::Queen.as_str(), "Queen");
    assert_eq!(CardType::Jack.as_str(), "Jack");
    assert_eq!(CardType::Ace.as_str(), "Ace");
    assert_eq!(CardType::Joker.as_str(), "Joker");
}

#[test]
fn card_type_indices() {
    assert_eq!(CardType::King.index(), 0);
    assert_eq!(CardType::Queen.index(), 1);
    assert_eq!(CardType::Jack.index(), 2);
    assert_eq!(CardType::Ace.index(), 3);
    assert_eq!(CardType::Joker.index(), 4);
    assert_eq!(CardType::number_of_values(), 5);
    assert_eq!(CARD_TYPE_COUNT, 5);
}

#[test]
fn card_type_from_usize_wraps_around() {
    assert_eq!(CardType::from_usize(0), CardType::King);
    assert_eq!(CardType::from_usize(3), CardType::Ace);
    assert_eq!(CardType::from_usize(4), CardType::Joker);
    assert_eq!(CardType::from_usize(5), CardType::King);
    assert_eq!(CardType::from_usize(7), CardType::Jack);
    assert_eq!(CardType::from_usize(usize::MAX), CardType::from_usize(usize::MAX % 5));
}

#[test]
fn card_type_index_round_trip() {
    for c in [CardType::King, CardType::Queen, CardType::Jack, CardType::Ace, CardType::Joker] {
        assert_eq!(CardType::from_usize(c.index()), c);
    }
}

#[test]
fn game_state_names_and_indices() {
    assert_eq!(GameState::InProgress.as_str(), "In Progress");
    assert_eq!(GameState::Ended.as_str(), "Ended");
    assert_eq!(GameState::WaitingForPlayers.as_str(), "Waiting for Players");
    assert_eq!(GameState::Starting.as_str(), "Starting");
    assert_eq!(GameState::InProgress.index(), 0);
    assert_eq!(GameState::Ended.index(), 1);
    assert_eq!(GameState::WaitingForPlayers.index(), 2);
    assert_eq!(GameState::Starting.index(), 3);
    assert_eq!(GameState::number_of_values(), 4);
}
