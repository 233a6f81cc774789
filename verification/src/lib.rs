//! An idle game about turning wood into gold, energy and robots, with the
//! numeric rules of the game verified: resources, production and
//! consumption per update, and the helpers that the game's screens use.

pub mod game_state;
pub mod ui;
pub mod utils;
