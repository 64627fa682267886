use lue_lue_backend::card::{Card, UpdateCardDTO};
use lue_lue_backend::card_type::CardType;
use lue_lue_backend::claim::Claim;
use lue_lue_backend::game::{Game, UpdateGameDTO};
use lue_lue_backend::game_state::GameState;
use lue_lue_backend::player::{Player, UpdatePlayerDTO};
use lue_lue_backend::statements::{
    card_insert_values, card_update_statement, cards_selection, claim_insert_values,
    claims_selection, game_insert_values, game_update_statement, player_insert_values,
    player_update_statement, players_selection, QueryValue, CARD_INSERT, CLAIM_INSERT,
    GAME_INSERT, PLAYER_INSERT,
};

fn text(s: &str) -> QueryValue {
    QueryValue::Text(s.to_string())
}

fn game_update(id: &str) -> UpdateGameDTO {
    UpdateGameDTO {
        id: id.to_string(),
        players: None,
        which_player_turn: None,
        state: None,
        round_number: None,
        chat: None,
        card_to_play: None,
        claims: None,
    }
}

#[test]
fn game_update_sets_given_columns_in_order() {
    let mut d = game_update("g1");
    d.which_player_turn = Some("pb".to_string());
    d.state = Some(GameState::Ended);
    d.round_number = Some(3);
    d.card_to_play = Some(CardType::Ace);
    let (query, values) = game_update_statement(&d);
    assert_eq!(
        query,
        "UPDATE games SET state = ?, round_number = ?, card_to_play = ?, which_player_turn = ? WHERE id = ? RETURNING *;"
    );
    assert_eq!(
        values,
        vec![QueryValue::Number(1), QueryValue::Number(3), QueryValue::Number(3), text("pb"), text("g1")]
    );
}

#[test]
fn game_update_with_one_column() {
    let mut d = game_update("g1");
    d.round_number = Some(9);
    let (query, values) = game_update_statement(&d);
    assert_eq!(query, "UPDATE games SET round_number = ? WHERE id = ? RETURNING *;");
    assert_eq!(values, vec![QueryValue::Number(9), text("g1")]);
}

#[test]
fn game_update_without_changes_reads_the_row() {
    let (query, values) = game_update_statement(&game_update("g1"));
    assert_eq!(query, "SELECT * FROM games WHERE id = ?;");
    assert_eq!(values, vec![text("g1")]);
    let d = UpdatePlayerDTO::new("pa".to_string(), None, None, None, None);
    let (query, values) = player_update_statement(&d);
    assert_eq!(query, "SELECT * FROM players WHERE id = ?;");
    assert_eq!(values, vec![text("pa")]);
}

#[test]
fn insert_statements_return_the_row() {
    assert_eq!(
        CARD_INSERT,
        "INSERT INTO cards (id, card_type, player_id) VALUES (?1, ?2, ?3) RETURNING *;"
    );
    assert!(GAME_INSERT.ends_with("VALUES (?1, ?2, ?3, ?4, ?5, ?6) RETURNING *;"));
    assert!(GAME_INSERT.contains("which_player_turn"));
    assert!(PLAYER_INSERT.ends_with("VALUES (?1, ?2, ?3, ?4) RETURNING *;"));
    assert_eq!(CLAIM_INSERT, "INSERT INTO claims (id, created_by, number_of_cards) VALUES (?1, ?2, ?3);");
}

#[test]
fn player_update_statement_columns() {
    let d = UpdatePlayerDTO::new(
        "pa".to_string(),
        Some("Bo".to_string()),
        Some(12),
        Some(vec![Card::new(CardType::King)]),
        Some("later".to_string()),
    );
    let (query, values) = player_update_statement(&d);
    assert_eq!(
        query,
        "UPDATE players SET name = ?, score = ?, last_time_updated = ? WHERE id = ? RETURNING *;"
    );
    assert_eq!(values, vec![text("Bo"), QueryValue::Number(12), text("later"), text("pa")]);
}

#[test]
fn card_update_statement_needs_a_change() {
    let d = UpdateCardDTO::new("c1".to_string(), None, None, None).unwrap();
    let err = card_update_statement(&d).unwrap_err();
    assert_eq!(err.message, "No new data was provided! The modifying attempt was aborted!");
    assert_eq!(err.name_of_function, "CardRepository::update_card");
    assert_eq!(err.bad_data.unwrap().id, "c1");
    let d = UpdateCardDTO::new("c1".to_string(), Some(CardType::Joker), None, Some("k".to_string()))
        .unwrap();
    let (query, values) = card_update_statement(&d).unwrap();
    assert_eq!(query, "UPDATE cards SET card_type = ?, claim_id = ? WHERE id = ? RETURNING *;");
    assert_eq!(values, vec![QueryValue::Number(4), text("k"), text("c1")]);
}

#[test]
fn card_selection_filters() {
    let (q, v) = cards_selection(None, None).unwrap();
    assert_eq!(q, "SELECT * FROM cards;");
    assert!(v.is_empty());
    let (q, v) = cards_selection(Some("k".to_string()), None).unwrap();
    assert_eq!(q, "SELECT * FROM cards WHERE claim_id = ?;");
    assert_eq!(v, vec![text("k")]);
    let (q, v) = cards_selection(None, Some("p".to_string())).unwrap();
    assert_eq!(q, "SELECT * FROM cards WHERE player_id = ?;");
    assert_eq!(v, vec![text("p")]);
    let err = cards_selection(Some("k".to_string()), Some("p".to_string())).unwrap_err();
    assert_eq!(err.message, "Either claim_id or player_id must be provided, but not both.");
    assert_eq!(err.status_code, 400);
    assert!(err.received_data.is_none());
}

#[test]
fn claim_selection_prefers_game() {
    let (q, v) = claims_selection(Some("g".to_string()), Some("p".to_string()));
    assert_eq!(q, "SELECT * FROM claims WHERE game_id = ?;");
    assert_eq!(v, vec![text("g")]);
    let (q, v) = claims_selection(None, Some("p".to_string()));
    assert_eq!(q, "SELECT * FROM claims WHERE created_by = ?;");
    assert_eq!(v, vec![text("p")]);
    let (q, _) = claims_selection(None, None);
    assert_eq!(q, "SELECT * FROM claims;");
    let (q, v) = players_selection(Some("g".to_string()));
    assert_eq!(q, "SELECT * FROM players WHERE game_id = ?;");
    assert_eq!(v, vec![text("g")]);
    assert_eq!(players_selection(None).0, "SELECT * FROM players;");
}

#[test]
fn insert_values() {
    let mut g = Game::new();
    g.id = "g".to_string();
    g.started_at = "t".to_string();
    g.which_player_turn = "p".to_string();
    g.card_to_play = CardType::Queen;
    assert_eq!(
        game_insert_values(&g),
        vec![text("g"), text("t"), QueryValue::Number(1), QueryValue::Number(3), text("p"), QueryValue::Number(1)]
    );
    let mut p = Player::new("Ann".to_string(), "g".to_string());
    p.id = "p".to_string();
    p.joined_at = "j".to_string();
    assert_eq!(player_insert_values(&p), vec![text("p"), text("Ann"), text("g"), text("j")]);
    let c = Card { id: "c".to_string(), card_type: CardType::Ace };
    assert_eq!(card_insert_values(&c, "p".to_string()), vec![text("c"), QueryValue::Number(3), text("p")]);
    let mut k = Claim::new("p".to_string(), 2, vec![]).unwrap();
    k.id = "k".to_string();
    assert_eq!(claim_insert_values(&k), vec![text("k"), text("p"), QueryValue::Number(2)]);
}
