//! Role catalog, per-role state and event dispatch for a social-deduction game.

pub mod components;
pub mod game;
pub mod on_game_start;
pub mod role;
pub mod role_list;
pub mod true_wildcard;
