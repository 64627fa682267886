use lue_lue_backend::errors::DatabaseQueryError;
use lue_lue_backend::game::UpdateGameDTO;
use lue_lue_backend::outcome::{claim_not_found, settle_row, settle_rows, settle_run};
use lue_lue_backend::player::Player;
use lue_lue_backend::roster::{requested_players, roster_changes};

fn player(id: &str) -> Player {
    let mut p = Player::new(id.to_string(), "g".to_string());
    p.id = id.to_string();
    p
}

fn update_with(players: Option<Vec<Player>>) -> UpdateGameDTO {
    UpdateGameDTO {
        id: "g".to_string(),
        players,
        which_player_turn: None,
        state: None,
        round_number: None,
        chat: None,
        card_to_play: None,
        claims: None,
    }
}

#[test]
fn single_row_answers() {
    let r: Result<u8, DatabaseQueryError<&str>> =
        settle_row(Ok(Some(5)), "missing".to_string(), 404, Some("d"));
    assert_eq!(r.unwrap(), 5);
    let e = settle_row::<u8, &str>(Ok(None), "missing".to_string(), 404, Some("d")).unwrap_err();
    assert_eq!((e.message.as_str(), e.status_code, e.received_data), ("missing", 404, Some("d")));
    let e = settle_row::<u8, &str>(Err("broken".to_string()), "missing".to_string(), 404, None)
        .unwrap_err();
    assert_eq!((e.message.as_str(), e.status_code, e.received_data), ("broken", 500, None));
}

#[test]
fn claim_not_found_message() {
    assert_eq!(claim_not_found("k9"), "The claim with the id k9 couldn't be found!");
}

#[test]
fn run_answers() {
    assert!(settle_run::<u8>(Ok(()), None).is_ok());
    let e = settle_run(Err("gone".to_string()), Some(1u8)).unwrap_err();
    assert_eq!((e.message.as_str(), e.status_code, e.received_data), ("gone", 500, Some(1)));
}

#[test]
fn many_rows_answers() {
    let ok = settle_rows::<u8, u8>(Ok(vec![1, 2]), Some("No games found".to_string())).unwrap();
    assert_eq!(ok, vec![1, 2]);
    let e = settle_rows::<u8, u8>(Ok(vec![]), Some("No games found".to_string())).unwrap_err();
    assert_eq!((e.message.as_str(), e.status_code), ("No games found", 404));
    assert!(settle_rows::<u8, u8>(Ok(vec![]), None).unwrap().is_empty());
    let e = settle_rows::<u8, u8>(Err("down".to_string()), None).unwrap_err();
    assert_eq!((e.message.as_str(), e.status_code), ("down", 500));
}

#[test]
fn roster_request_must_hold_players() {
    let e = requested_players(&update_with(None)).unwrap_err();
    assert_eq!(
        e.message,
        "Function was called with invalid data passed to it! A new list of players is mandatory!"
    );
    assert_eq!(e.status_code, 500);
    let e = requested_players(&update_with(Some(vec![]))).unwrap_err();
    assert_eq!(e.message, "An empty list of players was provided! That's an invalid data input!");
    assert_eq!(e.status_code, 400);
    let ok = requested_players(&update_with(Some(vec![player("a")]))).unwrap();
    assert_eq!(ok.len(), 1);
    assert_eq!(ok[0].id, "a");
}

#[test]
fn roster_changes_delete_departed_and_add_newcomers() {
    let current = vec![player("a"), player("b"), player("c")];
    let requested = vec![player("d"), player("b"), player("e")];
    let changes = roster_changes(&requested, &current);
    assert_eq!(changes.to_delete, vec!["a".to_string(), "c".to_string()]);
    let added: Vec<&str> = changes.to_add.iter().map(|p| p.id.as_str()).collect();
    assert_eq!(added, vec!["d", "e"]);
}

#[test]
fn roster_changes_reach_the_request() {
    let current = vec![player("x"), player("y")];
    let requested = vec![player("y"), player("z")];
    let changes = roster_changes(&requested, &current);
    let mut stored: Vec<String> = current
        .iter()
        .map(|p| p.id.clone())
        .filter(|id| !changes.to_delete.contains(id))
        .collect();
    stored.extend(changes.to_add.iter().map(|p| p.id.clone()));
    stored.sort();
    assert_eq!(stored, vec!["y".to_string(), "z".to_string()]);
}

#[test]
fn unchanged_roster_needs_nothing() {
    let current = vec![player("x"), player("y")];
    let changes = roster_changes(&current, &current);
    assert!(changes.to_delete.is_empty());
    assert!(changes.to_add.is_empty());
}
