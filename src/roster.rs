use vstd::prelude::*;

use crate::errors::{DatabaseQueryError, STATUS_BAD_REQUEST, STATUS_INTERNAL_SERVER_ERROR};
use crate::game::UpdateGameDTO;
use crate::player::{copy_players, players_view, Player, PlayerView};

verus! {

/// Whether some player of `players` has the identifier `id`.
pub open spec fn has_id(players: Seq<PlayerView>, id: Seq<char>) -> bool {
    exists|j: int| 0 <= j < players.len() && (#[trigger] players[j]).id == id
}

/// The identifiers of the players of `current` that `requested` no longer
/// holds, in the order of `current`.
pub open spec fn departed_ids(current: Seq<PlayerView>, requested: Seq<PlayerView>) -> Seq<Seq<char>>
    decreases current.len(),
{
    if current.len() == 0 {
        Seq::empty()
    } else {
        let rest = departed_ids(current.drop_last(), requested);
        if has_id(requested, current.last().id) {
            rest
        } else {
            rest.push(current.last().id)
        }
    }
}

/// The players of `requested` whose identifier `current` does not hold, in
/// the order of `requested`.
pub open spec fn arrivals(requested: Seq<PlayerView>, current: Seq<PlayerView>) -> Seq<PlayerView>
    decreases requested.len(),
{
    if requested.len() == 0 {
        Seq::empty()
    } else {
        let rest = arrivals(requested.drop_last(), current);
        if has_id(current, requested.last().id) {
            rest
        } else {
            rest.push(requested.last())
        }
    }
}

/// The values of a list of strings.
pub open spec fn strings_view(strings: Seq<String>) -> Seq<Seq<char>> {
    strings.map_values(|s: String| s@)
}

/// What it takes to bring the stored players of a game to a requested list:
/// the identifiers of the players to delete and the players to add.
#[derive(Debug)]
pub struct RosterChanges {
    pub to_delete: Vec<String>,
    pub to_add: Vec<Player>,
}

/// Returns the players that a game update asks for. An update without a list
/// of players is refused with status 500, one with an empty list with
/// status 400.
pub fn requested_players(game_data: &UpdateGameDTO) -> (r: Result<
    Vec<Player>,
    DatabaseQueryError<UpdateGameDTO>,
>)
    ensures
        game_data.players matches Some(p) && p.len() > 0 <==> r is Ok,
        r matches Ok(p) ==> game_data.players is Some && players_view(p@) == players_view(
            game_data.players->0@,
        ),
        game_data.players is None ==> (r matches Err(e) && e.message@
            == "Function was called with invalid data passed to it! A new list of players is mandatory!"@
            && e.received_data is None && e.status_code == STATUS_INTERNAL_SERVER_ERROR),
        game_data.players matches Some(p) && p.len() == 0 ==> (r matches Err(e) && e.message@
            == "An empty list of players was provided! That's an invalid data input!"@
            && e.received_data is None && e.status_code == STATUS_BAD_REQUEST),
{
    match &game_data.players {
        None => Err(
            DatabaseQueryError::new(
                String::from_str(
                    "Function was called with invalid data passed to it! A new list of players is mandatory!",
                ),
                None,
                STATUS_INTERNAL_SERVER_ERROR,
            ),
        ),
        Some(players) => {
            if players.len() == 0 {
                return Err(
                    DatabaseQueryError::new(
                        String::from_str(
                            "An empty list of players was provided! That's an invalid data input!",
                        ),
                        None,
                        STATUS_BAD_REQUEST,
                    ),
                );
            }
            Ok(copy_players(players))
        },
    }
}

/// Whether some player of `players` has the identifier `id`.
pub fn contains_player_id(players: &Vec<Player>, id: &String) -> (r: bool)
    ensures
        r == has_id(players_view(players@), id@),
{
    let mut j: usize = 0;
    while j < players.len()
        invariant
            0 <= j <= players.len(),
            forall|k: int| 0 <= k < j ==> (#[trigger] players@[k]).id@ != id@,
        decreases players.len() - j,
    {
        if players[j].id == *id {
            assert(players_view(players@)[j as int].id == id@);
            return true;
        }
        j = j + 1;
    }
    assert forall|k: int| 0 <= k < players_view(players@).len() implies (
    #[trigger] players_view(players@)[k]).id != id@ by {
        assert(players@[k].id@ != id@);
    }
    false
}

/// Works out which stored players to delete and which requested players to
/// add, so that the stored players of a game become the requested ones.
/// Players are matched by identifier; a player found in both lists is left
/// as it is.
pub fn roster_changes(requested: &Vec<Player>, current: &Vec<Player>) -> (r: RosterChanges)
    ensures
        strings_view(r.to_delete@) == departed_ids(players_view(current@), players_view(requested@)),
        players_view(r.to_add@) == arrivals(players_view(requested@), players_view(current@)),
{
    let ghost cur = players_view(current@);
    let ghost req = players_view(requested@);
    let mut to_delete: Vec<String> = Vec::new();
    let mut i: usize = 0;
    while i < current.len()
        invariant
            0 <= i <= current.len(),
            cur == players_view(current@),
            req == players_view(requested@),
            strings_view(to_delete@) == departed_ids(cur.subrange(0, i as int), req),
        decreases current.len() - i,
    {
        let ghost before = strings_view(to_delete@);
        assert(cur.subrange(0, i + 1).drop_last() =~= cur.subrange(0, i as int));
        if !contains_player_id(requested, &current[i].id) {
            to_delete.push(current[i].id.clone());
            assert(strings_view(to_delete@) =~= before.push(current@[i as int].id@));
        }
        i = i + 1;
    }
    assert(cur.subrange(0, current.len() as int) =~= cur);
    let mut to_add: Vec<Player> = Vec::new();
    let mut k: usize = 0;
    while k < requested.len()
        invariant
            0 <= k <= requested.len(),
            cur == players_view(current@),
            req == players_view(requested@),
            strings_view(to_delete@) == departed_ids(cur, req),
            players_view(to_add@) == arrivals(req.subrange(0, k as int), cur),
        decreases requested.len() - k,
    {
        let ghost before = players_view(to_add@);
        assert(req.subrange(0, k + 1).drop_last() =~= req.subrange(0, k as int));
        if !contains_player_id(current, &requested[k].id) {
            to_add.push(requested[k].clone());
            assert(players_view(to_add@) =~= before.push(requested@[k as int]@));
        }
        k = k + 1;
    }
    assert(req.subrange(0, requested.len() as int) =~= req);
    RosterChanges { to_delete, to_add }
}

/// A list holds an identifier exactly when the list without its last player
/// holds it or the last player has it.
proof fn lemma_has_id_drop_last(players: Seq<PlayerView>, id: Seq<char>)
    requires
        players.len() > 0,
    ensures
        has_id(players, id) <==> (has_id(players.drop_last(), id) || players.last().id == id),
{
    let front = players.drop_last();
    if has_id(players, id) {
        let j = choose|j: int| 0 <= j < players.len() && (#[trigger] players[j]).id == id;
        if j < front.len() {
            assert(front[j] == players[j]);
        }
    }
    if has_id(front, id) {
        let j = choose|j: int| 0 <= j < front.len() && (#[trigger] front[j]).id == id;
        assert(players[j] == front[j]);
    }
    if players.last().id == id {
        assert(players[players.len() - 1].id == id);
    }
}

/// An identifier is to be deleted exactly when it is stored and no longer
/// requested.
proof fn lemma_departed_ids(current: Seq<PlayerView>, requested: Seq<PlayerView>, id: Seq<char>)
    ensures
        departed_ids(current, requested).contains(id) <==> (has_id(current, id) && !has_id(
            requested,
            id,
        )),
    decreases current.len(),
{
    if current.len() > 0 {
        lemma_departed_ids(current.drop_last(), requested, id);
        lemma_has_id_drop_last(current, id);
        let rest = departed_ids(current.drop_last(), requested);
        if !has_id(requested, current.last().id) {
            assert(rest.push(current.last().id).contains(id) <==> (rest.contains(id)
                || current.last().id == id)) by {
                if rest.push(current.last().id).contains(id) {
                    let k = choose|k: int|
                        0 <= k < rest.len() + 1 && rest.push(current.last().id)[k] == id;
                    if k < rest.len() {
                        assert(rest[k] == id);
                    }
                }
                if rest.contains(id) {
                    let k = choose|k: int| 0 <= k < rest.len() && rest[k] == id;
                    assert(rest.push(current.last().id)[k] == id);
                }
                if current.last().id == id {
                    assert(rest.push(current.last().id)[rest.len() as int] == id);
                }
            }
        }
    }
}

/// A player is to be added exactly when the request holds their identifier and
/// it is not stored.
proof fn lemma_arrivals(requested: Seq<PlayerView>, current: Seq<PlayerView>, id: Seq<char>)
    ensures
        has_id(arrivals(requested, current), id) <==> (has_id(requested, id) && !has_id(
            current,
            id,
        )),
    decreases requested.len(),
{
    if requested.len() > 0 {
        lemma_arrivals(requested.drop_last(), current, id);
        lemma_has_id_drop_last(requested, id);
        let rest = arrivals(requested.drop_last(), current);
        if !has_id(current, requested.last().id) {
            let grown = rest.push(requested.last());
            lemma_has_id_drop_last(grown, id);
            assert(grown.drop_last() =~= rest);
        }
    }
}

/// Deleting the players that `roster_changes` names and adding those it
/// returns leaves stored exactly the identifiers of the requested players.
pub proof fn lemma_roster_changes_reach_request(
    current: Seq<PlayerView>,
    requested: Seq<PlayerView>,
    id: Seq<char>,
)
    ensures
        ((has_id(current, id) && !departed_ids(current, requested).contains(id)) || has_id(
            arrivals(requested, current),
            id,
        )) <==> has_id(requested, id),
{
    lemma_departed_ids(current, requested, id);
    lemma_arrivals(requested, current, id);
}

} // verus!
