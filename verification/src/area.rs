//! Walking off the edge of a room leads into the neighbouring room of the
//! area.

use vstd::prelude::*;
use crate::level::Coords;
use crate::names::{room_name, spec_room_name};

verus! {

/// The edge of the room that the player left by, if any.
#[derive(Clone, Copy, PartialEq, Eq, Structural, Debug)]
pub enum DirectionToMove {
    Left,
    Right,
    Up,
    Down,
    NoMove,
}

/// How the room's place in its area changes when leaving by `dir`: rooms
/// further up have a greater `y`.
pub open spec fn spec_room_offset(dir: DirectionToMove) -> (int, int) {
    match dir {
        DirectionToMove::Left => (-1, 0),
        DirectionToMove::Right => (1, 0),
        DirectionToMove::Up => (0, 1),
        DirectionToMove::Down => (0, -1),
        DirectionToMove::NoMove => (0, 0),
    }
}

/// How the room's place changes when leaving by `dir`.
pub fn room_offset(dir: DirectionToMove) -> (r: Coords)
    ensures
        (r.x as int, r.y as int) == spec_room_offset(dir),
{
    match dir {
        DirectionToMove::Left => Coords { x: -1, y: 0 },
        DirectionToMove::Right => Coords { x: 1, y: 0 },
        DirectionToMove::Up => Coords { x: 0, y: 1 },
        DirectionToMove::Down => Coords { x: 0, y: -1 },
        DirectionToMove::NoMove => Coords { x: 0, y: 0 },
    }
}

/// The name of the room reached from room `(x, y)` of `area` by leaving
/// it by `dir`.
pub fn neighbour_room(area: &str, x: i32, y: i32, dir: DirectionToMove) -> (r: String)
    requires
        i32::MIN < x < i32::MAX,
        i32::MIN < y < i32::MAX,
    ensures
        r@ == spec_room_name(area@, x + spec_room_offset(dir).0, y + spec_room_offset(dir).1),
{
    let offset = room_offset(dir);
    room_name(area, x + offset.x, y + offset.y)
}

/// Leaving a room by one edge and the next room by the opposite edge
/// leads back to the first room.
pub proof fn law_opposite_edges_return(dir: DirectionToMove)
    ensures
        dir == DirectionToMove::Left ==> spec_room_offset(dir).0 + spec_room_offset(
            DirectionToMove::Right,
        ).0 == 0 && spec_room_offset(dir).1 + spec_room_offset(DirectionToMove::Right).1 == 0,
        dir == DirectionToMove::Up ==> spec_room_offset(dir).0 + spec_room_offset(
            DirectionToMove::Down,
        ).0 == 0 && spec_room_offset(dir).1 + spec_room_offset(DirectionToMove::Down).1 == 0,
{
}

} // verus!
