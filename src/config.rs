//! Fixed settings of the game: the art it loads and the limits it keeps to.
use vstd::prelude::*;

verus! {

/// Image of the player's ship.
pub const PLAYER_SPRITE: &'static str = "player_a_01.png";

/// Width and height of the player's ship image.
pub const PLAYER_SPRITE_SIZE: (u32, u32) = (144, 75);

/// Image of a laser fired by the player.
pub const PLAYER_LASER_SPRITE: &'static str = "laser_a_01.png";

/// Width and height of the player's laser image.
pub const PLAYER_LASER_SPRITE_SIZE: (u32, u32) = (9, 54);

/// Image of an enemy ship.
pub const ENEMY_SPRITE: &'static str = "enemy_a_01.png";

/// Width and height of the enemy ship image.
pub const ENEMY_SPRITE_SIZE: (u32, u32) = (93, 84);

/// Image of a laser fired by an enemy.
pub const ENEMY_LASER_SPRITE: &'static str = "laser_b_01.png";

/// Width and height of the enemy laser image.
pub const ENEMY_LASER_SPRITE_SIZE: (u32, u32) = (17, 55);

/// Sheet of explosion frames, laid out on a grid.
pub const EXPLOSION_SHEET: &'static str = "explo_a_sheet.png";

/// Side of one square frame of the explosion sheet.
pub const EXPLOSION_TILE: u32 = 64;

/// Columns and rows of frames on the explosion sheet.
pub const EXPLOSION_GRID: (u32, u32) = (4, 4);

/// Most enemies in play at once.
pub const MAX_ENEMIES: u32 = 4;

/// Most enemies that fly in one formation.
pub const MAX_FORMATION_MEMBERS: u32 = 2;

/// Time the player waits, after being shot down, before a new ship appears.
pub const PLAYER_RESPAWN_DELAY: u64 = 2000;

} // verus!
