//! A single-screen arcade shooter core: a ship fires typed shots ("HTTP
//! methods") at one wandering enemy with a hidden weakness, and the enemy
//! fires back. Everything here is pure, integer-valued game logic; rendering
//! and input polling belong to the caller.
//!
//! Lengths are in thousandths of an arena unit, time in milliseconds and
//! speeds in arena units per second, so that a speed times a duration is
//! directly a displacement.
pub mod arena;
pub mod bullet;
pub mod combat;
mod chance;
pub mod enemy;
pub mod game_state;
pub mod laws;
pub mod player;

pub use arena::{Input, Roll};
pub use bullet::{Bullet, EnemyBullet, Method, Tint};
pub use enemy::Enemy;
pub use game_state::GameState;
pub use player::Player;
