//! Checkpoints: touching one restores health, and interacting with one
//! offers to save the game there.

use vstd::prelude::*;
use crate::current_game::{CurrentGame, MAX_HEALTH};
use crate::game_state::StateTransition;
use crate::level::Coords;

verus! {

/// A checkpoint of an area.
pub struct Checkpoint {
    pub id: i32,
    pub area: String,
}

impl Checkpoint {
    /// Checkpoint `id` of `area`.
    pub fn new(id: i32, area: String) -> (r: Checkpoint)
        ensures
            r.id == id,
            r.area == area,
    {
        Checkpoint { id, area }
    }

    /// Touching the checkpoint restores health to the full amount and
    /// leaves the state stack as it is.
    pub fn contact<S>(&self, game: &mut CurrentGame) -> (r: StateTransition<S>)
        ensures
            r is Stay,
            final(game).health == MAX_HEALTH,
            final(game).stars_collected == old(game).stars_collected,
            final(game).save_name == old(game).save_name,
            final(game).temp_value == old(game).temp_value,
            final(game).inventory == old(game).inventory,
    {
        game.health = MAX_HEALTH;
        StateTransition::Stay
    }
}

/// A checkpoint as the objects file of an area lists it: its room and its
/// tile in that room.
pub struct CheckpointFromFile {
    pub id: i32,
    pub room_x: i32,
    pub room_y: i32,
    pub pos_x: i32,
    pub pos_y: i32,
}

impl CheckpointFromFile {
    /// The room the checkpoint is in.
    pub fn room_coords(&self) -> (r: Coords)
        ensures
            r == (Coords { x: self.room_x, y: self.room_y }),
    {
        Coords { x: self.room_x, y: self.room_y }
    }

    /// The checkpoint of `area_name` that the record describes.
    pub fn to_checkpoint(&self, area_name: &str) -> (r: Checkpoint)
        ensures
            r.id == self.id,
            r.area@ == area_name@,
    {
        Checkpoint::new(self.id, String::from_str(area_name))
    }
}

} // verus!
