//! The simulation core of a two-dimensional arcade space shooter.
//!
//! A player's ship flies an open world, fights enemy ships that guard bases
//! or roam rings around the origin, and collects the bases.  This crate is
//! the world and its step: motion under friction, collisions between
//! circles, weapons with a reload timer, and the pilots that steer the
//! enemies.  It draws nothing and reads no device: whoever drives it hands
//! it the state of the controls and reads what to draw from the world.
//!
//! All arithmetic is fixed-point, in millionths, and total (see `fixed`).
//! Every function is verified against a contract, and the contract of
//! `Game::update` states the whole step as one function of the world's
//! value, `GameView::tick`.  The one thing taken on trust is the random
//! number generator (see `random`).

pub mod base;
pub mod camera;
pub mod direction;
pub mod fixed;
pub mod game;
pub mod game_object;
pub mod input;
pub mod level;
pub mod random;
pub mod ship;
pub mod snapshot;
pub mod spawn_regions;
pub mod team;
pub mod trig;
pub mod vector;
pub mod weapon;
