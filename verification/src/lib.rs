//! Rules logic of a Pokémon TCG Pocket simulator: the card and board model, retreat costs,
//! stadium rules, move-generation helpers, player-code parsing and the integer parts of the
//! position evaluators, each with a verified contract.

pub mod abilities;
pub mod actions;
pub mod attack_helpers;
pub mod card_logic;
pub mod data_exporter;
pub mod database;
pub mod effects;
pub mod mechanic;
pub mod models;
pub mod played_card;
pub mod players;
pub mod puzzles;
pub mod retreat;
pub mod simulate;
pub mod stadiums;
pub mod temp_deck;
pub mod state;
pub mod text;
