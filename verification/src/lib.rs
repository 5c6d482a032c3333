use vstd::prelude::*;

pub mod text;
pub mod achievements;
pub mod savegame;
pub mod menu;
pub mod state;
pub mod clock;
pub mod player;
pub mod combat;
pub mod boss;
pub mod level;
pub mod updater;

verus! {

} // verus!
