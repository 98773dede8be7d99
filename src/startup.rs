//! What the game does once at startup, and in which order. The library decides
//! the steps; the program that hosts the game carries each one out.
use vstd::prelude::*;

use crate::config::{
    ENEMY_LASER_SPRITE, ENEMY_SPRITE, EXPLOSION_GRID, EXPLOSION_SHEET, EXPLOSION_TILE,
    PLAYER_LASER_SPRITE, PLAYER_SPRITE,
};

verus! {

/// An image that the game loads at startup.
#[derive(Debug, Clone, Copy, PartialEq, Eq, Structural)]
pub enum Sprite {
    ExplosionSheet,
    Player,
    PlayerLaser,
    Enemy,
    EnemyLaser,
}

/// The file that holds each image.
pub open spec fn sprite_file_spec(s: Sprite) -> Seq<char> {
    match s {
        Sprite::ExplosionSheet => EXPLOSION_SHEET@,
        Sprite::Player => PLAYER_SPRITE@,
        Sprite::PlayerLaser => PLAYER_LASER_SPRITE@,
        Sprite::Enemy => ENEMY_SPRITE@,
        Sprite::EnemyLaser => ENEMY_LASER_SPRITE@,
    }
}

impl Sprite {
    /// Name of the file that holds this image.
    pub fn file_name(&self) -> (r: &'static str)
        ensures
            r@ == sprite_file_spec(*self),
    {
        match self {
            Sprite::ExplosionSheet => EXPLOSION_SHEET,
            Sprite::Player => PLAYER_SPRITE,
            Sprite::PlayerLaser => PLAYER_LASER_SPRITE,
            Sprite::Enemy => ENEMY_SPRITE,
            Sprite::EnemyLaser => ENEMY_LASER_SPRITE,
        }
    }
}

/// One thing done at startup.
#[derive(Debug, Clone, Copy, PartialEq, Eq, Structural)]
pub enum StartupStep {
    /// Spawn the camera that draws the game.
    SpawnCamera2d,
    /// Spawn the camera that draws the interface.
    SpawnUiCamera,
    /// Record the state of the current run.
    InsertRunState,
    /// Start loading an image.
    LoadImage(Sprite),
    /// Cut the explosion sheet into square frames of side `tile`, on a grid of
    /// `columns` by `rows`.
    BuildExplosionAtlas { tile: u32, columns: u32, rows: u32 },
    /// Record the handles of the loaded art.
    InsertArt,
    /// Record the size of the primary window.
    InsertWinSize,
}

/// Why startup cannot go ahead.
#[derive(Debug, Clone, Copy, PartialEq, Eq, Structural)]
pub enum SetupError {
    /// There is no primary window to draw in.
    NoPrimaryWindow,
}

/// The steps of startup, in order: the two cameras, the run state, the
/// explosion sheet and its frames, the four ship and laser images, then the
/// art and the window size.
pub open spec fn startup_steps_spec() -> Seq<StartupStep> {
    seq![
        StartupStep::SpawnCamera2d,
        StartupStep::SpawnUiCamera,
        StartupStep::InsertRunState,
        StartupStep::LoadImage(Sprite::ExplosionSheet),
        StartupStep::BuildExplosionAtlas {
            tile: EXPLOSION_TILE,
            columns: EXPLOSION_GRID.0,
            rows: EXPLOSION_GRID.1,
        },
        StartupStep::LoadImage(Sprite::Player),
        StartupStep::LoadImage(Sprite::PlayerLaser),
        StartupStep::LoadImage(Sprite::Enemy),
        StartupStep::LoadImage(Sprite::EnemyLaser),
        StartupStep::InsertArt,
        StartupStep::InsertWinSize,
    ]
}

/// The steps to take at startup. Startup needs a primary window: without one
/// nothing is done.
pub fn startup_steps(has_primary_window: bool) -> (r: Result<Vec<StartupStep>, SetupError>)
    ensures
        r is Err <==> !has_primary_window,
        r is Err ==> r->Err_0 == SetupError::NoPrimaryWindow,
        r is Ok ==> r->Ok_0@ == startup_steps_spec(),
{
    if !has_primary_window {
        return Err(SetupError::NoPrimaryWindow);
    }
    let mut steps: Vec<StartupStep> = Vec::new();
    steps.push(StartupStep::SpawnCamera2d);
    steps.push(StartupStep::SpawnUiCamera);
    steps.push(StartupStep::InsertRunState);
    steps.push(StartupStep::LoadImage(Sprite::ExplosionSheet));
    steps.push(
        StartupStep::BuildExplosionAtlas {
            tile: EXPLOSION_TILE,
            columns: EXPLOSION_GRID.0,
            rows: EXPLOSION_GRID.1,
        },
    );
    steps.push(StartupStep::LoadImage(Sprite::Player));
    steps.push(StartupStep::LoadImage(Sprite::PlayerLaser));
    steps.push(StartupStep::LoadImage(Sprite::Enemy));
    steps.push(StartupStep::LoadImage(Sprite::EnemyLaser));
    steps.push(StartupStep::InsertArt);
    steps.push(StartupStep::InsertWinSize);
    assert(steps@ =~= startup_steps_spec());
    Ok(steps)
}

} // verus!
