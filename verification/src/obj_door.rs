//! Doors: going through one leads to a tile of a room, possibly of
//! another area. Some doors are taken by touching them, others only by
//! interacting.

use vstd::prelude::*;
use crate::level::Coords;
use crate::names::{room_name, spec_room_name};

verus! {

/// Where a door leads: a room of an area, and a tile in it.
pub struct DoorDestination {
    pub area: String,
    pub room_x: i32,
    pub room_y: i32,
    pub pos_x: i32,
    pub pos_y: i32,
}

impl DoorDestination {
    /// A copy of the destination.
    pub fn copy(&self) -> (r: DoorDestination)
        ensures
            r == *self,
    {
        DoorDestination {
            area: self.area.clone(),
            room_x: self.room_x,
            room_y: self.room_y,
            pos_x: self.pos_x,
            pos_y: self.pos_y,
        }
    }
}

/// What going through a door asks for.
pub enum DoorAction {
    /// Load the room named `level` and put the player on tile `tile`.
    Enter { level: String, tile: Coords },
    /// Nothing happens.
    Stay,
}

/// A door in a room.
pub struct DoorInGame {
    pub destination: DoorDestination,
    pub visible: bool,
    pub need_interact: bool,
}

impl DoorInGame {
    /// A door to `destination`.
    pub fn new(destination: DoorDestination, visible: bool, need_interact: bool) -> (r: Self)
        ensures
            r.destination == destination,
            r.visible == visible,
            r.need_interact == need_interact,
    {
        DoorInGame { destination, visible, need_interact }
    }

    /// Going through the door: the room it leads to, stored as
    /// `area_x_y`, and the tile the player arrives on.
    pub fn interact(&self) -> (r: DoorAction)
        ensures
            r matches DoorAction::Enter { level, tile } && level@ == spec_room_name(
                self.destination.area@,
                self.destination.room_x as int,
                self.destination.room_y as int,
            ) && tile == (Coords { x: self.destination.pos_x, y: self.destination.pos_y }),
    {
        let level = room_name(
            self.destination.area.as_str(),
            self.destination.room_x,
            self.destination.room_y,
        );
        DoorAction::Enter {
            level,
            tile: Coords { x: self.destination.pos_x, y: self.destination.pos_y },
        }
    }

    /// Touching the door goes through it, unless it needs interacting with.
    pub fn contact(&self) -> (r: DoorAction)
        ensures
            self.need_interact ==> r is Stay,
            !self.need_interact ==> (r matches DoorAction::Enter { level, tile } && level@
                == spec_room_name(
                self.destination.area@,
                self.destination.room_x as int,
                self.destination.room_y as int,
            ) && tile == (Coords { x: self.destination.pos_x, y: self.destination.pos_y })),
    {
        if !self.need_interact {
            self.interact()
        } else {
            DoorAction::Stay
        }
    }

    /// Whether the door is drawn.
    pub fn is_visible(&self) -> (r: bool)
        ensures
            r == self.visible,
    {
        self.visible
    }
}

/// Where a door stands: its room and its tile there.
pub struct DoorLocation {
    pub room_x: i32,
    pub room_y: i32,
    pub pos_x: i32,
    pub pos_y: i32,
}

/// A door as the objects file of an area lists it.
pub struct DoorFromFile {
    pub id: i32,
    pub location: DoorLocation,
    pub destination: DoorDestination,
    pub visible: bool,
    pub need_interact: bool,
}

impl DoorFromFile {
    /// The room the door stands in.
    pub fn room_coords(&self) -> (r: Coords)
        ensures
            r == (Coords { x: self.location.room_x, y: self.location.room_y }),
    {
        Coords { x: self.location.room_x, y: self.location.room_y }
    }

    /// The door that the record describes.
    pub fn to_door(&self) -> (r: DoorInGame)
        ensures
            r.destination == self.destination,
            r.visible == self.visible,
            r.need_interact == self.need_interact,
    {
        DoorInGame::new(self.destination.copy(), self.visible, self.need_interact)
    }
}

} // verus!
