use vstd::prelude::*;

use crate::errors::{DatabaseQueryError, STATUS_INTERNAL_SERVER_ERROR, STATUS_NOT_FOUND};

verus! {

/// Turns the answer of the store to a statement that returns one row into the
/// row or an error. A failure of the store keeps its message and answers with
/// status 500; a missing row gives `missing_message` and `missing_status`.
/// Either error carries `data`.
pub fn settle_row<T, E>(
    answer: Result<Option<T>, String>,
    missing_message: String,
    missing_status: u16,
    data: Option<E>,
) -> (r: Result<T, DatabaseQueryError<E>>)
    ensures
        answer matches Ok(Some(row)) ==> r == Ok::<T, DatabaseQueryError<E>>(row),
        answer matches Ok(None) ==> r matches Err(e) && e.message == missing_message
            && e.status_code == missing_status && e.received_data == data,
        answer matches Err(failure) ==> r matches Err(e) && e.message == failure
            && e.status_code == STATUS_INTERNAL_SERVER_ERROR && e.received_data == data,
{
    match answer {
        Ok(Some(row)) => Ok(row),
        Ok(None) => Err(DatabaseQueryError::new(missing_message, data, missing_status)),
        Err(failure) => Err(DatabaseQueryError::new(failure, data, STATUS_INTERNAL_SERVER_ERROR)),
    }
}

/// Turns the answer of the store to a statement that returns no rows into
/// success or an error that keeps the store's message, carries `data` and
/// answers with status 500.
pub fn settle_run<E>(answer: Result<(), String>, data: Option<E>) -> (r: Result<
    (),
    DatabaseQueryError<E>,
>)
    ensures
        answer is Ok <==> r is Ok,
        answer matches Err(failure) ==> r matches Err(e) && e.message == failure
            && e.status_code == STATUS_INTERNAL_SERVER_ERROR && e.received_data == data,
{
    match answer {
        Ok(()) => Ok(()),
        Err(failure) => Err(DatabaseQueryError::new(failure, data, STATUS_INTERNAL_SERVER_ERROR)),
    }
}

/// Turns the answer of the store to a statement that returns many rows into
/// the rows or an error. A failure of the store keeps its message and answers
/// with status 500. Where `empty_message` is given, finding no rows is an
/// error too, with that message and status 404.
pub fn settle_rows<T, E>(answer: Result<Vec<T>, String>, empty_message: Option<String>) -> (r:
    Result<Vec<T>, DatabaseQueryError<E>>)
    ensures
        answer matches Ok(rows) ==> (if rows.len() == 0 && empty_message is Some {
            r matches Err(e) && e.message == empty_message->0 && e.status_code == STATUS_NOT_FOUND
                && e.received_data is None
        } else {
            r == Ok::<Vec<T>, DatabaseQueryError<E>>(rows)
        }),
        answer matches Err(failure) ==> r matches Err(e) && e.message == failure
            && e.status_code == STATUS_INTERNAL_SERVER_ERROR && e.received_data is None,
{
    match answer {
        Ok(rows) => {
            if rows.len() == 0 {
                if let Some(message) = empty_message {
                    return Err(DatabaseQueryError::new(message, None, STATUS_NOT_FOUND));
                }
            }
            Ok(rows)
        },
        Err(failure) => Err(DatabaseQueryError::new(failure, None, STATUS_INTERNAL_SERVER_ERROR)),
    }
}

/// No card has the identifier asked for (status 404).
pub const CARD_NOT_FOUND: &'static str = "Card not found";

/// The store did not return the card it was to insert (status 500).
pub const CARD_NOT_CREATED: &'static str = "Failed to create card";

/// No card has the identifier of an update (status 404).
pub const CARD_NOT_UPDATED: &'static str = "Card not found and couldn't be updated!";

/// The store did not return the player it was to insert (status 500).
pub const PLAYER_NOT_ADDED: &'static str = "Failed to add player to the database";

/// The store did not return the player it was to update (status 500).
pub const PLAYER_NOT_UPDATED: &'static str = "Failed to update player in the database";

/// No player has the identifier asked for (status 404).
pub const PLAYER_NOT_FOUND: &'static str = "Player not found";

/// A reading of players found none (status 404).
pub const NO_PLAYERS_FOUND: &'static str = "No players found";

/// The store did not return the game it was to insert (status 500).
pub const GAME_NOT_ADDED: &'static str = "Failed to add game to the database";

/// The store did not return the game it was to update (status 500).
pub const GAME_NOT_UPDATED: &'static str = "Failed to update game in the database";

/// No game has the identifier asked for (status 404).
pub const GAME_NOT_FOUND: &'static str = "Game not found";

/// A reading of games found none (status 404).
pub const NO_GAMES_FOUND: &'static str = "No games found";

/// The message for a claim that no row holds (status 404).
pub fn claim_not_found(id: &str) -> (r: String)
    ensures
        r@ == "The claim with the id "@ + id@ + " couldn't be found!"@,
{
    String::from_str("The claim with the id ").concat(id).concat(" couldn't be found!")
}

} // verus!
