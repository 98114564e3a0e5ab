//! What a room being played needs from the assets, how its tile
//! animation advances, and the colour of each area.

use vstd::prelude::*;
use crate::hud::{get_map_pixels, map_cell, neighbours_ok, MapPixelType};
use crate::names::spec_parse_room_key;
use crate::resources::Resources;
use crate::strings::{same_text, split_once, split_once_char};

verus! {

/// The number of frames of the tile animation.
pub const ANIMATION_FRAMES: usize = 12;

/// Why a room could not be entered.
#[derive(Clone, Copy, PartialEq, Eq, Structural, Debug)]
pub enum LevelStateError {
    /// No room is stored under the name.
    LevelNotFound,
}

/// What entering the room stored as `area_x_y` takes from the assets:
/// the area's name, the room's key within the area, and the minimap.
pub struct LevelPlan {
    pub area_name: String,
    pub room_key: String,
    pub map_pixels: Vec<Vec<MapPixelType>>,
}

/// The room stored as `level` is entered: split at its first `_` into the
/// area and the room's key `x_y`, with the minimap around it. The room
/// must be stored, and then so must the objects of its area.
pub fn plan_level<T, O, C>(res: &Resources<T, O, C>, level: &str) -> (r: Result<LevelPlan, LevelStateError>)
    requires
        split_once(level@, '_') matches Some((area, key)) && (spec_parse_room_key(key) matches Some(
            (cx, cy),
        ) && i32::MIN < cx < i32::MAX && i32::MIN < cy < i32::MAX),
        ({
            let (area, key) = split_once(level@, '_').unwrap();
            let (cx, cy) = spec_parse_room_key(key).unwrap();
            neighbours_ok(res.rooms@, area, cx as int, cy as int)
        }),
    ensures
        !res.rooms@.dom().contains(level@) ==> r == Err::<LevelPlan, LevelStateError>(
            LevelStateError::LevelNotFound,
        ),
        res.rooms@.dom().contains(level@) ==> (r matches Ok(plan) && {
            let (area, key) = split_once(level@, '_').unwrap();
            let (cx, cy) = spec_parse_room_key(key).unwrap();
            &&& plan.area_name@ == area
            &&& plan.room_key@ == key
            &&& plan.map_pixels@.len() == 9
            &&& forall|kx: int, ky: int|
                0 <= kx < 3 && 0 <= ky < 3 ==> (#[trigger] plan.map_pixels@[3 * ky + kx])@
                    == map_cell(res.rooms@, area, cx as int, cy as int, kx, ky)
        }),
{
    let (area, room_key) = split_once_char(level, '_').unwrap();
    let map_pixels = get_map_pixels(res, area, room_key);
    if res.get_room(level).is_some() {
        Ok(LevelPlan {
            area_name: String::from_str(area),
            room_key: String::from_str(room_key),
            map_pixels,
        })
    } else {
        Err(LevelStateError::LevelNotFound)
    }
}

/// The animation frame that follows `current_frame`, back to the first
/// after the last.
pub fn next_frame(current_frame: usize) -> (r: usize)
    requires
        current_frame < usize::MAX,
    ensures
        r == if current_frame + 1 >= ANIMATION_FRAMES { 0 } else { current_frame + 1 },
{
    let next = current_frame + 1;
    if next >= ANIMATION_FRAMES {
        0
    } else {
        next
    }
}

/// The colour that an area's tiles are tinted with, as `0xRRGGBB`; `None`
/// for white.
pub fn area_colour_code(area: &str) -> (r: Option<u32>)
    ensures
        area@ == "a1"@ ==> r == Some(0x5398ebu32),
        area@ != "a1"@ ==> r is None,
{
    if same_text(area, "a1") {
        Some(0x5398eb)
    } else {
        None
    }
}

} // verus!
