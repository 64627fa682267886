use vstd::prelude::*;

verus! {

/// The number of states a game can be in.
pub const GAME_STATE_COUNT: usize = 4;

/// The phase of its life that a game is in.
#[derive(Debug, Clone, Copy, PartialEq, Eq, Structural)]
pub enum GameState {
    /// The game is being played.
    InProgress,
    /// The game has ended.
    Ended,
    /// The game waits for players to join.
    WaitingForPlayers,
    /// The game prepares its first turn.
    Starting,
}

impl GameState {
    /// The position of the state in the order InProgress, Ended, WaitingForPlayers, Starting.
    pub open spec fn spec_index(self) -> nat {
        match self {
            GameState::InProgress => 0,
            GameState::Ended => 1,
            GameState::WaitingForPlayers => 2,
            GameState::Starting => 3,
        }
    }

    /// The text shown for the state.
    pub open spec fn name(self) -> Seq<char> {
        match self {
            GameState::InProgress => "In Progress"@,
            GameState::Ended => "Ended"@,
            GameState::WaitingForPlayers => "Waiting for Players"@,
            GameState::Starting => "Starting"@,
        }
    }

    /// Returns the text shown for the state.
    pub fn as_str(&self) -> (r: &str)
        ensures
            r@ == self.name(),
    {
        match self {
            GameState::InProgress => "In Progress",
            GameState::Ended => "Ended",
            GameState::WaitingForPlayers => "Waiting for Players",
            GameState::Starting => "Starting",
        }
    }

    /// Returns the position of the state: InProgress 0, Ended 1, WaitingForPlayers 2, Starting 3.
    pub fn index(&self) -> (r: usize)
        ensures
            r == self.spec_index(),
            r < GAME_STATE_COUNT,
    {
        match self {
            GameState::InProgress => 0,
            GameState::Ended => 1,
            GameState::WaitingForPlayers => 2,
            GameState::Starting => 3,
        }
    }

    /// Returns the number of game states.
    pub fn number_of_values() -> (r: usize)
        ensures
            r == GAME_STATE_COUNT,
    {
        GAME_STATE_COUNT
    }
}

} // verus!
