use vstd::prelude::*;

use crate::card::{Card, UpdateCardDTO};
use crate::claim::Claim;
use crate::errors::{DatabaseQueryError, ProcessError, STATUS_BAD_REQUEST};
use crate::game::{Game, UpdateGameDTO};
use crate::player::{Player, UpdatePlayerDTO};

verus! {

/// A value bound to a placeholder of a statement.
#[derive(Debug, PartialEq, Eq)]
pub enum QueryValue {
    Text(String),
    Number(usize),
}

/// The value of a bound value.
pub enum ValueView {
    Text(Seq<char>),
    Number(nat),
}

impl View for QueryValue {
    type V = ValueView;

    open spec fn view(&self) -> ValueView {
        match self {
            QueryValue::Text(s) => ValueView::Text(s@),
            QueryValue::Number(n) => ValueView::Number(*n as nat),
        }
    }
}

impl Clone for QueryValue {
    fn clone(&self) -> (r: Self)
        ensures
            r@ == self@,
    {
        match self {
            QueryValue::Text(s) => QueryValue::Text(s.clone()),
            QueryValue::Number(n) => QueryValue::Number(*n),
        }
    }
}

/// The values of a list of bound values.
pub open spec fn values_view(values: Seq<QueryValue>) -> Seq<ValueView> {
    values.map_values(|v: QueryValue| v@)
}

/// A column to set and the value to set it to.
pub type ChangeView = (Seq<char>, ValueView);

/// The columns of a list of changes.
pub open spec fn change_columns(changes: Seq<ChangeView>) -> Seq<Seq<char>> {
    changes.map_values(|c: ChangeView| c.0)
}

/// The values of a list of changes.
pub open spec fn change_values(changes: Seq<ChangeView>) -> Seq<ValueView> {
    changes.map_values(|c: ChangeView| c.1)
}

/// `column = ?` for each column, in order, joined by `, `.
pub open spec fn assignments(columns: Seq<Seq<char>>) -> Seq<char>
    decreases columns.len(),
{
    if columns.len() == 0 {
        Seq::empty()
    } else if columns.len() == 1 {
        columns[0] + " = ?"@
    } else {
        assignments(columns.drop_last()) + ", "@ + columns.last() + " = ?"@
    }
}

/// The text of a write to the row `id = ?` of `table` that sets `columns` and
/// returns the row. Where no column changes there is nothing to write, and the
/// row is read as it stands.
pub open spec fn update_text(table: Seq<char>, columns: Seq<Seq<char>>) -> Seq<char> {
    if columns.len() == 0 {
        "SELECT * FROM "@ + table + " WHERE id = ?;"@
    } else {
        "UPDATE "@ + table + " SET "@ + assignments(columns) + " WHERE id = ? RETURNING *;"@
    }
}

/// The statement that sets `changes` in the row `id` of `table`: its text, and
/// the values of the changes followed by `id`.
pub open spec fn update_statement_of(
    table: Seq<char>,
    changes: Seq<ChangeView>,
    id: Seq<char>,
) -> (Seq<char>, Seq<ValueView>) {
    (update_text(table, change_columns(changes)), change_values(changes).push(ValueView::Text(id)))
}

/// A column with the value to set it to.
pub struct Change {
    pub column: &'static str,
    pub value: QueryValue,
}

/// The values of a list of changes.
pub open spec fn changes_view(changes: Seq<Change>) -> Seq<ChangeView> {
    changes.map_values(|c: Change| (c.column@, c.value@))
}

/// Builds the statement that sets `changes` in the row `id` of `table`, or
/// reads that row where `changes` is empty.
pub fn update_statement(table: &str, changes: &Vec<Change>, id: &String) -> (r: (
    String,
    Vec<QueryValue>,
))
    ensures
        (r.0@, values_view(r.1@)) == update_statement_of(table@, changes_view(changes@), id@),
{
    let ghost all = changes_view(changes@);
    if changes.len() == 0 {
        let text = String::from_str("SELECT * FROM ").concat(table).concat(" WHERE id = ?;");
        let values = vec![QueryValue::Text(id.clone())];
        assert(change_columns(all) =~= Seq::<Seq<char>>::empty());
        assert(values_view(values@) =~= change_values(all).push(ValueView::Text(id@)));
        return (text, values);
    }
    let mut query = String::from_str("UPDATE ").concat(table).concat(" SET ");
    let ghost head = query@;
    let mut values: Vec<QueryValue> = Vec::new();
    let mut i: usize = 0;
    while i < changes.len()
        invariant
            0 <= i <= changes.len(),
            all == changes_view(changes@),
            head == "UPDATE "@ + table@ + " SET "@,
            query@ == head + assignments(change_columns(all.subrange(0, i as int))),
            values_view(values@) == change_values(all.subrange(0, i as int)),
        decreases changes.len() - i,
    {
        let change = &changes[i];
        if i > 0 {
            query.append(", ");
        }
        query.append(change.column);
        query.append(" = ?");
        values.push(change.value.clone());
        proof {
            let before = all.subrange(0, i as int);
            let after = all.subrange(0, i + 1);
            assert(after.drop_last() =~= before);
            assert(change_columns(after).drop_last() =~= change_columns(before));
            assert(change_columns(after).last() == change.column@);
            assert(query@ =~= head + assignments(change_columns(after)));
            assert(change_values(after) =~= change_values(before).push(change.value@));
            assert(values_view(values@) =~= values_view(values@.drop_last()).push(
                values@.last()@,
            ));
        }
        i = i + 1;
    }
    assert(all.subrange(0, changes.len() as int) =~= all);
    let text = query.concat(" WHERE id = ? RETURNING *;");
    values.push(QueryValue::Text(id.clone()));
    assert(values_view(values@) =~= change_values(all).push(ValueView::Text(id@)));
    assert(change_columns(all).len() > 0);
    (text, values)
}

/// The changes of a game update, in the order state, round number, card type
/// to play, and whose turn it is; a property that does not change sets nothing.
pub open spec fn game_changes(d: UpdateGameDTO) -> Seq<ChangeView> {
    (match d.state {
        Some(s) => seq![("state"@, ValueView::Number(s.spec_index()))],
        None => Seq::empty(),
    }) + (match d.round_number {
        Some(n) => seq![("round_number"@, ValueView::Number(n as nat))],
        None => Seq::empty(),
    }) + (match d.card_to_play {
        Some(c) => seq![("card_to_play"@, ValueView::Number(c.spec_index()))],
        None => Seq::empty(),
    }) + (match d.which_player_turn {
        Some(p) => seq![("which_player_turn"@, ValueView::Text(p@))],
        None => Seq::empty(),
    })
}

/// Appends a change to a list, keeping the list's value in step.
fn push_change(changes: &mut Vec<Change>, column: &'static str, value: QueryValue)
    ensures
        changes_view(final(changes)@) == changes_view(old(changes)@).push((column@, value@)),
{
    changes.push(Change { column, value });
    assert(changes_view(changes@) =~= changes_view(old(changes)@).push((column@, value@)));
}

/// Builds the statement that writes a game update to the `games` table, with
/// the values it binds.
pub fn game_update_statement(game_data: &UpdateGameDTO) -> (r: (String, Vec<QueryValue>))
    ensures
        (r.0@, values_view(r.1@)) == update_statement_of(
            "games"@,
            game_changes(*game_data),
            game_data.id@,
        ),
{
    let mut changes: Vec<Change> = Vec::new();
    if let Some(state) = &game_data.state {
        push_change(&mut changes, "state", QueryValue::Number(state.index()));
    }
    if let Some(round) = game_data.round_number {
        push_change(&mut changes, "round_number", QueryValue::Number(round));
    }
    if let Some(card) = &game_data.card_to_play {
        push_change(&mut changes, "card_to_play", QueryValue::Number(card.index()));
    }
    if let Some(player) = &game_data.which_player_turn {
        push_change(&mut changes, "which_player_turn", QueryValue::Text(player.clone()));
    }
    assert(changes_view(changes@) =~= game_changes(*game_data));
    update_statement("games", &changes, &game_data.id)
}

/// The changes of a player update, in the order name, score, and time of the
/// last request for the game's state; the cards of the update set nothing.
pub open spec fn player_changes(d: UpdatePlayerDTO) -> Seq<ChangeView> {
    (match d.name {
        Some(n) => seq![("name"@, ValueView::Text(n@))],
        None => Seq::empty(),
    }) + (match d.score {
        Some(n) => seq![("score"@, ValueView::Number(n as nat))],
        None => Seq::empty(),
    }) + (match d.last_time_update_requested {
        Some(t) => seq![("last_time_updated"@, ValueView::Text(t@))],
        None => Seq::empty(),
    })
}

/// Builds the statement that writes a player update to the `players` table,
/// with the values it binds.
pub fn player_update_statement(player: &UpdatePlayerDTO) -> (r: (String, Vec<QueryValue>))
    ensures
        (r.0@, values_view(r.1@)) == update_statement_of(
            "players"@,
            player_changes(*player),
            player.id@,
        ),
{
    let mut changes: Vec<Change> = Vec::new();
    if let Some(name) = &player.name {
        push_change(&mut changes, "name", QueryValue::Text(name.clone()));
    }
    if let Some(score) = player.score {
        push_change(&mut changes, "score", QueryValue::Number(score));
    }
    if let Some(last_time_updated) = &player.last_time_update_requested {
        push_change(&mut changes, "last_time_updated", QueryValue::Text(last_time_updated.clone()));
    }
    assert(changes_view(changes@) =~= player_changes(*player));
    update_statement("players", &changes, &player.id)
}

/// The changes of a card update, in the order card type, player and claim.
pub open spec fn card_changes(d: UpdateCardDTO) -> Seq<ChangeView> {
    (match d.card_type {
        Some(c) => seq![("card_type"@, ValueView::Number(c.spec_index()))],
        None => Seq::empty(),
    }) + (match d.player_id {
        Some(p) => seq![("player_id"@, ValueView::Text(p@))],
        None => Seq::empty(),
    }) + (match d.claim_id {
        Some(c) => seq![("claim_id"@, ValueView::Text(c@))],
        None => Seq::empty(),
    })
}

/// Builds the statement that writes a card update to the `cards` table, with
/// the values it binds. An update that changes nothing is refused, and the
/// error carries a copy of it.
pub fn card_update_statement(card_data: &UpdateCardDTO) -> (r: Result<
    (String, Vec<QueryValue>),
    ProcessError<UpdateCardDTO>,
>)
    ensures
        r is Err <==> card_changes(*card_data).len() == 0,
        r matches Ok(s) ==> (s.0@, values_view(s.1@)) == update_statement_of(
            "cards"@,
            card_changes(*card_data),
            card_data.id@,
        ),
        r matches Err(e) ==> e.message@
            == "No new data was provided! The modifying attempt was aborted!"@
            && e.name_of_function@ == "CardRepository::update_card"@ && e.bad_data is Some
            && e.bad_data->0@ == card_data@,
{
    if card_data.player_id.is_none() && card_data.claim_id.is_none()
        && card_data.card_type.is_none() {
        return Err(
            ProcessError::new(
                String::from_str("No new data was provided! The modifying attempt was aborted!"),
                String::from_str("CardRepository::update_card"),
                Some(card_data.clone()),
            ),
        );
    }
    let mut changes: Vec<Change> = Vec::new();
    if let Some(card_type) = &card_data.card_type {
        push_change(&mut changes, "card_type", QueryValue::Number(card_type.index()));
    }
    if let Some(player_id) = &card_data.player_id {
        push_change(&mut changes, "player_id", QueryValue::Text(player_id.clone()));
    }
    if let Some(claim_id) = &card_data.claim_id {
        push_change(&mut changes, "claim_id", QueryValue::Text(claim_id.clone()));
    }
    assert(changes_view(changes@) =~= card_changes(*card_data));
    Ok(update_statement("cards", &changes, &card_data.id))
}

/// The statement that reads all rows of `table`, or, with a filter, the rows
/// whose column holds the given value.
pub open spec fn selection_of(table: Seq<char>, filter: Option<(Seq<char>, Seq<char>)>) -> (
    Seq<char>,
    Seq<ValueView>,
) {
    match filter {
        Some((column, value)) => (
            "SELECT * FROM "@ + table + " WHERE "@ + column + " = ?"@ + ";"@,
            seq![ValueView::Text(value)],
        ),
        None => ("SELECT * FROM "@ + table + ";"@, Seq::empty()),
    }
}

/// Builds the statement that reads the rows of `table` whose `column` holds
/// `value`, or all rows where no filter is given.
pub fn selection(table: &str, filter: Option<(&'static str, String)>) -> (r: (
    String,
    Vec<QueryValue>,
))
    ensures
        (r.0@, values_view(r.1@)) == selection_of(
            table@,
            match filter {
                Some((c, v)) => Some((c@, v@)),
                None => None,
            },
        ),
{
    let mut query = String::from_str("SELECT * FROM ").concat(table);
    let mut values: Vec<QueryValue> = Vec::new();
    if let Some((column, value)) = filter {
        query.append(" WHERE ");
        query.append(column);
        query.append(" = ?");
        values.push(QueryValue::Text(value));
    }
    query.append(";");
    assert(values_view(values@) =~= selection_of(
        table@,
        match filter {
            Some((c, v)) => Some((c@, v@)),
            None => None,
        },
    ).1);
    (query, values)
}

/// The filter of a selection of cards: by claim where a claim is given, else
/// by player where a player is given.
pub open spec fn cards_filter(claim_id: Option<String>, player_id: Option<String>) -> Option<
    (Seq<char>, Seq<char>),
> {
    match claim_id {
        Some(c) => Some(("claim_id"@, c@)),
        None => match player_id {
            Some(p) => Some(("player_id"@, p@)),
            None => None,
        },
    }
}

/// Builds the statement that reads the cards of a claim, of a player, or all
/// cards. Asking for both a claim and a player is refused.
pub fn cards_selection(claim_id: Option<String>, player_id: Option<String>) -> (r: Result<
    (String, Vec<QueryValue>),
    DatabaseQueryError<Card>,
>)
    ensures
        r is Err <==> (claim_id is Some && player_id is Some),
        r matches Ok(s) ==> (s.0@, values_view(s.1@)) == selection_of(
            "cards"@,
            cards_filter(claim_id, player_id),
        ),
        r matches Err(e) ==> e.message@
            == "Either claim_id or player_id must be provided, but not both."@
            && e.received_data is None && e.status_code == STATUS_BAD_REQUEST,
{
    if claim_id.is_some() && player_id.is_some() {
        return Err(
            DatabaseQueryError::new(
                String::from_str("Either claim_id or player_id must be provided, but not both."),
                None,
                STATUS_BAD_REQUEST,
            ),
        );
    }
    let filter = match claim_id {
        Some(c) => Some(("claim_id", c)),
        None => match player_id {
            Some(p) => Some(("player_id", p)),
            None => None,
        },
    };
    Ok(selection("cards", filter))
}

/// The filter of a selection of claims: by game where a game is given, else
/// by the player who made them where a player is given.
pub open spec fn claims_filter(game_id: Option<String>, player_id: Option<String>) -> Option<
    (Seq<char>, Seq<char>),
> {
    match game_id {
        Some(g) => Some(("game_id"@, g@)),
        None => match player_id {
            Some(p) => Some(("created_by"@, p@)),
            None => None,
        },
    }
}

/// Builds the statement that reads the claims of a game, of a player, or all
/// claims; a game, where given, takes precedence.
pub fn claims_selection(game_id: Option<String>, player_id: Option<String>) -> (r: (
    String,
    Vec<QueryValue>,
))
    ensures
        (r.0@, values_view(r.1@)) == selection_of("claims"@, claims_filter(game_id, player_id)),
{
    let filter = match game_id {
        Some(g) => Some(("game_id", g)),
        None => match player_id {
            Some(p) => Some(("created_by", p)),
            None => None,
        },
    };
    selection("claims", filter)
}

/// Builds the statement that reads the players of a game, or all players.
pub fn players_selection(game_id: Option<String>) -> (r: (String, Vec<QueryValue>))
    ensures
        (r.0@, values_view(r.1@)) == selection_of(
            "players"@,
            match game_id {
                Some(g) => Some(("game_id"@, g@)),
                None => None,
            },
        ),
{
    let filter = match game_id {
        Some(g) => Some(("game_id", g)),
        None => None,
    };
    selection("players", filter)
}

/// Inserts a game; binds the values of `game_insert_values`.
pub const GAME_INSERT: &'static str = "INSERT INTO games (id, started_at, round_number, state, which_player_turn, card_to_play) VALUES (?1, ?2, ?3, ?4, ?5, ?6) RETURNING *;";

/// Reads the game with the bound identifier.
pub const GAME_BY_ID: &'static str = "SELECT * FROM games WHERE id = ?;";

/// Reads all games.
pub const ALL_GAMES: &'static str = "SELECT * FROM games;";

/// Deletes the game with the bound identifier.
pub const GAME_DELETE: &'static str = "DELETE FROM games WHERE id = ?;";

/// Inserts a player; binds the values of `player_insert_values`.
pub const PLAYER_INSERT: &'static str = "INSERT INTO players (id, name, game_id, joined_at) VALUES (?1, ?2, ?3, ?4) RETURNING *;";

/// Reads the player with the bound identifier.
pub const PLAYER_BY_ID: &'static str = "SELECT * FROM players WHERE id = ?;";

/// Deletes the player with the bound identifier.
pub const PLAYER_DELETE: &'static str = "DELETE FROM players WHERE id = ?;";

/// Inserts a card; binds the values of `card_insert_values`.
pub const CARD_INSERT: &'static str = "INSERT INTO cards (id, card_type, player_id) VALUES (?1, ?2, ?3) RETURNING *;";

/// Reads the card with the bound identifier.
pub const CARD_BY_ID: &'static str = "SELECT * FROM cards WHERE id = ?;";

/// Deletes the card with the bound identifier.
pub const CARD_DELETE: &'static str = "DELETE FROM cards WHERE id = ?;";

/// Inserts a claim; binds the values of `claim_insert_values`.
pub const CLAIM_INSERT: &'static str = "INSERT INTO claims (id, created_by, number_of_cards) VALUES (?1, ?2, ?3);";

/// Reads the claim with the bound identifier.
pub const CLAIM_BY_ID: &'static str = "SELECT * FROM claims WHERE id = ?;";

/// Deletes the claim with the bound identifier.
pub const CLAIM_DELETE: &'static str = "DELETE FROM claims WHERE id = ?;";

/// The values bound when a game is inserted: identifier, start time, round,
/// state, whose turn it is, and the card type to play.
pub fn game_insert_values(game: &Game) -> (r: Vec<QueryValue>)
    ensures
        values_view(r@) == seq![
            ValueView::Text(game.id@),
            ValueView::Text(game.started_at@),
            ValueView::Number(game.round_number as nat),
            ValueView::Number(game.state.spec_index()),
            ValueView::Text(game.which_player_turn@),
            ValueView::Number(game.card_to_play.spec_index()),
        ],
{
    let r = vec![
        QueryValue::Text(game.id.clone()),
        QueryValue::Text(game.started_at.clone()),
        QueryValue::Number(game.round_number),
        QueryValue::Number(game.state.index()),
        QueryValue::Text(game.which_player_turn.clone()),
        QueryValue::Number(game.card_to_play.index()),
    ];
    assert(values_view(r@) =~= seq![
        ValueView::Text(game.id@),
        ValueView::Text(game.started_at@),
        ValueView::Number(game.round_number as nat),
        ValueView::Number(game.state.spec_index()),
        ValueView::Text(game.which_player_turn@),
        ValueView::Number(game.card_to_play.spec_index()),
    ]);
    r
}

/// The values bound when a player is inserted: identifier, name, game and
/// time of joining.
pub fn player_insert_values(player: &Player) -> (r: Vec<QueryValue>)
    ensures
        values_view(r@) == seq![
            ValueView::Text(player.id@),
            ValueView::Text(player.name@),
            ValueView::Text(player.game_id@),
            ValueView::Text(player.joined_at@),
        ],
{
    let r = vec![
        QueryValue::Text(player.id.clone()),
        QueryValue::Text(player.name.clone()),
        QueryValue::Text(player.game_id.clone()),
        QueryValue::Text(player.joined_at.clone()),
    ];
    assert(values_view(r@) =~= seq![
        ValueView::Text(player.id@),
        ValueView::Text(player.name@),
        ValueView::Text(player.game_id@),
        ValueView::Text(player.joined_at@),
    ]);
    r
}

/// The values bound when a card is inserted into a player's hand:
/// identifier, card type and player.
pub fn card_insert_values(card: &Card, player_id: String) -> (r: Vec<QueryValue>)
    ensures
        values_view(r@) == seq![
            ValueView::Text(card.id@),
            ValueView::Number(card.card_type.spec_index()),
            ValueView::Text(player_id@),
        ],
{
    let r = vec![
        QueryValue::Text(card.id.clone()),
        QueryValue::Number(card.card_type.index()),
        QueryValue::Text(player_id),
    ];
    assert(values_view(r@) =~= seq![
        ValueView::Text(card.id@),
        ValueView::Number(card.card_type.spec_index()),
        ValueView::Text(player_id@),
    ]);
    r
}

/// The values bound when a claim is inserted: identifier, the player who
/// made it, and the number of cards claimed.
pub fn claim_insert_values(claim: &Claim) -> (r: Vec<QueryValue>)
    ensures
        values_view(r@) == seq![
            ValueView::Text(claim.id@),
            ValueView::Text(claim.created_by@),
            ValueView::Number(claim.number_of_cards as nat),
        ],
{
    let r = vec![
        QueryValue::Text(claim.id.clone()),
        QueryValue::Text(claim.created_by.clone()),
        QueryValue::Number(claim.number_of_cards),
    ];
    assert(values_view(r@) =~= seq![
        ValueView::Text(claim.id@),
        ValueView::Text(claim.created_by@),
        ValueView::Number(claim.number_of_cards as nat),
    ]);
    r
}

} // verus!
