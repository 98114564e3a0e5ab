//! The minimap of the HUD: the tiles of the current room and of the
//! eight rooms around it.

use vstd::prelude::*;
use crate::level::{Coords, Level, TileInfo};
use crate::names::{parse_room_key, room_name, spec_parse_room_key, spec_room_name};
use crate::resources::Resources;

verus! {

/// How a tile shows on the minimap.
#[derive(Clone, Copy, PartialEq, Eq, Structural, Debug)]
pub enum MapPixelType {
    Solid,
    Ladder,
    Air,
}

/// The minimap pixel of a tile: ladders first, then solid tiles, then air.
pub open spec fn pixel_of(t: TileInfo) -> MapPixelType {
    if t.ladder {
        MapPixelType::Ladder
    } else if t.solid {
        MapPixelType::Solid
    } else {
        MapPixelType::Air
    }
}

/// The pixels of row `i` of a room, left to right.
pub open spec fn row_pixels(l: Level, i: int) -> Seq<MapPixelType> {
    let w: int = if l.map_dimensions.x > 0 { l.map_dimensions.x as int } else { 0 };
    Seq::new(w as nat, |j: int| pixel_of(l.spec_tile_info(Coords { x: j as i32, y: i as i32 })))
}

/// The pixels of the first `n` rows of a room, row by row.
pub open spec fn rows_pixels(l: Level, n: int) -> Seq<MapPixelType>
    decreases n,
{
    if n <= 0 {
        Seq::empty()
    } else {
        rows_pixels(l, n - 1) + row_pixels(l, n - 1)
    }
}

/// The pixels of a whole room.
pub open spec fn room_pixels(l: Level) -> Seq<MapPixelType> {
    rows_pixels(l, l.map_dimensions.y as int)
}

/// How many pixels a room that was never made shows: a full room of
/// 20 by 15 tiles.
pub const MISSING_ROOM_PIXELS: usize = 300;

/// The pixels of a room that does not exist: all solid.
pub open spec fn missing_room_pixels() -> Seq<MapPixelType> {
    Seq::new(MISSING_ROOM_PIXELS as nat, |i: int| MapPixelType::Solid)
}

/// The minimap cell `(kx, ky)` around room `(cx, cy)`: row `ky` from the
/// top holds the rooms of `y = cy + 1 - ky`, column `kx` those of
/// `x = cx - 1 + kx`.
pub open spec fn map_cell(
    rooms: Map<Seq<char>, Level>,
    area: Seq<char>,
    cx: int,
    cy: int,
    kx: int,
    ky: int,
) -> Seq<MapPixelType> {
    let name = neighbour_name(area, cx, cy, kx, ky);
    if rooms.dom().contains(name) {
        room_pixels(rooms[name])
    } else {
        missing_room_pixels()
    }
}

/// The name of the room shown in minimap cell `(kx, ky)` around room
/// `(cx, cy)`.
pub open spec fn neighbour_name(area: Seq<char>, cx: int, cy: int, kx: int, ky: int) -> Seq<char> {
    spec_room_name(area, cx - 1 + kx, cy + 1 - ky)
}

/// Every stored room that the minimap around `(cx, cy)` shows can have
/// each of its cells looked up.
pub open spec fn neighbours_ok(rooms: Map<Seq<char>, Level>, area: Seq<char>, cx: int, cy: int) -> bool {
    forall|kx: int, ky: int|
        0 <= kx < 3 && 0 <= ky < 3 && rooms.dom().contains(#[trigger] neighbour_name(area, cx, cy, kx, ky))
            ==> rooms[neighbour_name(area, cx, cy, kx, ky)].cells_ok()
}

/// Appends the pixels of room `l` to `out`.
fn push_room_pixels(out: &mut Vec<MapPixelType>, l: &Level)
    requires
        l.cells_ok(),
    ensures
        final(out)@ == old(out)@ + room_pixels(*l),
{
    let h = l.map_dimensions.y;
    let w = l.map_dimensions.x;
    let ghost start = out@;
    let mut i: i32 = 0;
    while i < h
        invariant
            l.cells_ok(),
            h == l.map_dimensions.y,
            w == l.map_dimensions.x,
            0 <= i,
            h > 0 ==> i <= h,
            h <= 0 ==> i == 0,
            out@ == start + rows_pixels(*l, i as int),
        decreases h - i,
    {
        let mut j: i32 = 0;
        while j < w
            invariant
                l.cells_ok(),
                h == l.map_dimensions.y,
                w == l.map_dimensions.x,
                0 <= i < h,
                0 <= j,
                w > 0 ==> j <= w,
                w <= 0 ==> j == 0,
                out@ == start + rows_pixels(*l, i as int) + row_pixels(*l, i as int).take(j as int),
            decreases w - j,
        {
            let c = Coords { x: j, y: i };
            assert(l.on_map(c));
            assert(l.tile_ok(c));
            let tile = l.get_tile_info(c);
            let px = if tile.ladder {
                MapPixelType::Ladder
            } else if tile.solid {
                MapPixelType::Solid
            } else {
                MapPixelType::Air
            };
            out.push(px);
            j += 1;
            assert(row_pixels(*l, i as int).take(j as int) =~= row_pixels(*l, i as int).take(j - 1).push(px));
            assert(out@ =~= start + rows_pixels(*l, i as int) + row_pixels(*l, i as int).take(j as int));
        }
        assert(row_pixels(*l, i as int).take(j as int) =~= row_pixels(*l, i as int));
        i += 1;
        assert(out@ =~= start + rows_pixels(*l, i as int));
    }
    assert(out@ =~= old(out)@ + room_pixels(*l));
}

/// The minimap around room `cur_room` (`x_y`) of `cur_area`: nine lists of
/// pixels, the rows of rooms from the top down and each row from the left,
/// a missing room showing as solid.
pub fn get_map_pixels<T, O, C>(res: &Resources<T, O, C>, cur_area: &str, cur_room: &str) -> (r: Vec<
    Vec<MapPixelType>,
>)
    requires
        spec_parse_room_key(cur_room@) matches Some((cx, cy)) && i32::MIN < cx < i32::MAX
            && i32::MIN < cy < i32::MAX,
        neighbours_ok(
            res.rooms@,
            cur_area@,
            spec_parse_room_key(cur_room@).unwrap().0 as int,
            spec_parse_room_key(cur_room@).unwrap().1 as int,
        ),
    ensures
        r@.len() == 9,
        forall|kx: int, ky: int|
            0 <= kx < 3 && 0 <= ky < 3 ==> (#[trigger] r@[3 * ky + kx])@ == map_cell(
                res.rooms@,
                cur_area@,
                spec_parse_room_key(cur_room@).unwrap().0 as int,
                spec_parse_room_key(cur_room@).unwrap().1 as int,
                kx,
                ky,
            ),
{
    let (cx, cy) = parse_room_key(cur_room).unwrap();
    let mut map_pixels: Vec<Vec<MapPixelType>> = Vec::new();
    let mut ky: i32 = 0;
    while ky < 3
        invariant
            0 <= ky <= 3,
            i32::MIN < cx < i32::MAX,
            i32::MIN < cy < i32::MAX,
            neighbours_ok(res.rooms@, cur_area@, cx as int, cy as int),
            map_pixels@.len() == 3 * ky,
            forall|kx: int, ky2: int|
                0 <= kx < 3 && 0 <= ky2 < ky ==> (#[trigger] map_pixels@[3 * ky2 + kx])@
                    == map_cell(res.rooms@, cur_area@, cx as int, cy as int, kx, ky2),
        decreases 3 - ky,
    {
        let y = cy + 1 - ky;
        let mut kx: i32 = 0;
        while kx < 3
            invariant
                0 <= ky < 3,
                0 <= kx <= 3,
                y == cy + 1 - ky,
                i32::MIN < cx < i32::MAX,
                i32::MIN < cy < i32::MAX,
                neighbours_ok(res.rooms@, cur_area@, cx as int, cy as int),
                map_pixels@.len() == 3 * ky + kx,
                forall|kx2: int, ky2: int|
                    0 <= kx2 < 3 && 0 <= ky2 < ky ==> (#[trigger] map_pixels@[3 * ky2 + kx2])@
                        == map_cell(res.rooms@, cur_area@, cx as int, cy as int, kx2, ky2),
                forall|kx2: int|
                    0 <= kx2 < kx ==> (#[trigger] map_pixels@[3 * ky + kx2])@ == map_cell(
                        res.rooms@,
                        cur_area@,
                        cx as int,
                        cy as int,
                        kx2,
                        ky as int,
                    ),
            decreases 3 - kx,
        {
            let x = cx - 1 + kx;
            let room_str = room_name(cur_area, x, y);
            assert(room_str@ == neighbour_name(cur_area@, cx as int, cy as int, kx as int, ky as int));
            let mut cell: Vec<MapPixelType> = Vec::new();
            match res.get_room(room_str.as_str()) {
                Some(room) => {
                    push_room_pixels(&mut cell, room);
                },
                None => {
                    let mut n: usize = 0;
                    while n < MISSING_ROOM_PIXELS
                        invariant
                            n <= MISSING_ROOM_PIXELS,
                            cell@ =~= Seq::new(n as nat, |i: int| MapPixelType::Solid),
                        decreases MISSING_ROOM_PIXELS - n,
                    {
                        cell.push(MapPixelType::Solid);
                        n += 1;
                    }
                },
            }
            assert(cell@ =~= map_cell(res.rooms@, cur_area@, cx as int, cy as int, kx as int, ky as int));
            let ghost before = map_pixels@;
            map_pixels.push(cell);
            assert forall|kx2: int, ky2: int|
                0 <= kx2 < 3 && 0 <= ky2 < ky implies (#[trigger] map_pixels@[3 * ky2 + kx2])@
                    == map_cell(res.rooms@, cur_area@, cx as int, cy as int, kx2, ky2) by {
                assert(map_pixels@[3 * ky2 + kx2] == before[3 * ky2 + kx2]);
            }
            assert forall|kx2: int|
                0 <= kx2 < kx + 1 implies (#[trigger] map_pixels@[3 * ky + kx2])@ == map_cell(
                    res.rooms@,
                    cur_area@,
                    cx as int,
                    cy as int,
                    kx2,
                    ky as int,
                ) by {
                if kx2 < kx {
                    assert(map_pixels@[3 * ky + kx2] == before[3 * ky + kx2]);
                }
            }
            kx += 1;
        }
        ky += 1;
    }
    map_pixels
}

/// The shade of a minimap dot. The room in the middle of the minimap, the
/// current one, is drawn lighter than the rooms around it; ladders look
/// the same everywhere.
#[derive(Clone, Copy, PartialEq, Eq, Structural, Debug)]
pub enum MapShade {
    CurrentSolid,
    OtherSolid,
    Ladder,
    CurrentAir,
    OtherAir,
}

/// The shade of a dot of kind `pixel` in room `room_index` of the minimap
/// (rooms counted row by row, three to a row: the fifth, index 4, is in
/// the middle).
pub open spec fn spec_map_shade(pixel: MapPixelType, room_index: int) -> MapShade {
    let current = room_index % 3 == 1 && room_index / 3 == 1;
    match pixel {
        MapPixelType::Solid => if current { MapShade::CurrentSolid } else { MapShade::OtherSolid },
        MapPixelType::Ladder => MapShade::Ladder,
        MapPixelType::Air => if current { MapShade::CurrentAir } else { MapShade::OtherAir },
    }
}

/// How a dot of kind `pixel` in room `room_index` of the minimap is shaded.
pub fn map_shade(pixel: MapPixelType, room_index: usize) -> (r: MapShade)
    ensures
        r == spec_map_shade(pixel, room_index as int),
        (r == MapShade::CurrentSolid || r == MapShade::CurrentAir) <==> (room_index == 4 && pixel
            != MapPixelType::Ladder),
{
    let current = room_index % 3 == 1 && room_index / 3 == 1;
    match pixel {
        MapPixelType::Solid => if current { MapShade::CurrentSolid } else { MapShade::OtherSolid },
        MapPixelType::Ladder => MapShade::Ladder,
        MapPixelType::Air => if current { MapShade::CurrentAir } else { MapShade::OtherAir },
    }
}

/// Where dot `pixel_index` of room `room_index` lies on the minimap, in
/// screen pixels from the minimap's corner: rooms are laid out three to a
/// row, each 20 dots wide and 15 high, its dots row by row, and a dot is
/// 4 pixels wide.
pub open spec fn spec_map_dot(room_index: int, pixel_index: int) -> (int, int) {
    (
        ((room_index % 3) * 20 + pixel_index % 20) * 4,
        ((room_index / 3) * 15 + pixel_index / 20) * 4,
    )
}

/// The place of dot `pixel_index` of room `room_index` on the minimap.
pub fn map_dot_position(room_index: usize, pixel_index: usize) -> (r: Coords)
    requires
        ((room_index / 3) * 15 + pixel_index / 20) * 4 <= i32::MAX,
    ensures
        r.x == spec_map_dot(room_index as int, pixel_index as int).0,
        r.y == spec_map_dot(room_index as int, pixel_index as int).1,
{
    let rx: usize = room_index % 3;
    let ry: usize = room_index / 3;
    let tx: usize = pixel_index % 20;
    let ty: usize = pixel_index / 20;
    let x: usize = (rx * 20 + tx) * 4;
    let y: usize = (ry * 15 + ty) * 4;
    Coords { x: x as i32, y: y as i32 }
}

/// The minimap cell `dx` columns right of the middle and `dy` rows above
/// it (each -1, 0 or 1), which `get_map_pixels` gives at index
/// `3 * (1 - dy) + (1 + dx)`, shows the room whose x is `cx + dx` and whose
/// y is `cy + dy`, or a full solid room where there is none: columns go
/// left to right with x, and rows top to bottom as y falls.
pub proof fn law_minimap_follows_room_coordinates(
    rooms: Map<Seq<char>, Level>,
    area: Seq<char>,
    cx: int,
    cy: int,
    dx: int,
    dy: int,
)
    requires
        -1 <= dx <= 1,
        -1 <= dy <= 1,
    ensures
        map_cell(rooms, area, cx, cy, 1 + dx, 1 - dy) == if rooms.dom().contains(
            spec_room_name(area, cx + dx, cy + dy),
        ) {
            room_pixels(rooms[spec_room_name(area, cx + dx, cy + dy)])
        } else {
            missing_room_pixels()
        },
{
}

} // verus!
