//! Game-state rules of a location-guessing game: lobby presence, duel and
//! ranked rooms, player profiles, leaderboards and reward bookkeeping.
pub mod types;
pub mod state;
pub mod profile;
pub mod ranked;
pub mod access;
pub mod lobby;
pub mod room;
pub mod duel;
pub mod player_state;
pub mod leaderboard;
pub mod pool;
pub mod reward;
pub mod setup;
pub mod chain;
pub mod magic_actions;
pub mod er;
pub mod laws;
