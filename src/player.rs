//! The player's ship: whether it is on screen, and when it was last shot down.
use vstd::prelude::*;

verus! {

/// Whether the player's ship is in play, and the time at which it was last
/// shot down (in milliseconds since start; `0` when it has not been shot
/// since it last appeared).
pub struct PlayerState {
    pub on: bool,
    pub last_shot: u64,
}

impl Default for PlayerState {
    /// A ship that has not appeared yet and has never been shot.
    fn default() -> (r: Self)
        ensures
            !r.on,
            r.last_shot == 0,
    {
        PlayerState { on: false, last_shot: 0 }
    }
}

impl PlayerState {
    /// The ship was shot down at `time`: it leaves play, and the time is kept.
    pub fn shot(&mut self, time: u64)
        ensures
            !final(self).on,
            final(self).last_shot == time,
    {
        self.on = false;
        self.last_shot = time;
    }

    /// The ship has appeared: it is in play, and no shot is on record.
    pub fn spawned(&mut self)
        ensures
            final(self).on,
            final(self).last_shot == 0,
    {
        self.on = true;
        self.last_shot = 0;
    }
}

} // verus!
