//! Game rules and record handling for a turn-based card game of claims.
//!
//! The library holds the game's records (games, players, cards, claims and
//! chats), the rules that change them between rounds, and the statements and
//! result handling through which the records are kept in a relational store.

pub mod card;
pub mod card_type;
pub mod chat;
pub mod claim;
pub mod errors;
pub mod game;
pub mod game_service;
pub mod game_state;
pub mod identity;
pub mod outcome;
pub mod player;
pub mod roster;
pub mod statements;
pub mod status;
