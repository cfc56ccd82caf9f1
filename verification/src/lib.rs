//! Game rules of Dreamstack, an incremental hacking game about waking
//! through nested dream layers: the in-game clock, the home terminal and its
//! commands, the level flow, company standings and the save-format rules.

pub mod text;
pub mod search;
pub mod clock;
pub mod hack;
pub mod terminal;
pub mod game;
pub mod standings;
pub mod save;
