pub mod catalog;
pub mod events;
pub mod game;
pub mod npc;
pub mod player;
pub mod realm;
pub mod session;
pub mod text;

mod clock;
mod rng;
