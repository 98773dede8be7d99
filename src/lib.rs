//! Game state of a small arcade space shooter, held as plain values so that
//! the rules that change it can be stated and checked.
//!
//! Times are whole milliseconds since the game started; speeds are pixels per
//! second; sizes are pixels.
pub mod config;
pub mod components;
pub mod player;
pub mod startup;
