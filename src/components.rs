//! Values attached to the entities of the game and counters kept beside them.
use vstd::prelude::*;

verus! {

/// How fast an entity moves, in pixels per second.
pub struct Speed(pub u32);

impl Default for Speed {
    /// The speed that ships and lasers move at unless told otherwise.
    fn default() -> (r: Self)
        ensures
            r.0 == 500,
    {
        Speed(500)
    }
}

/// How many enemies are in play at the moment.
pub struct ActiveEnemies(pub u32);

} // verus!
