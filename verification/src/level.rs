//! Rooms made of tiles, as the Tiled map editor saves them.

use vstd::prelude::*;
use vstd::math::abs;
use crate::names::{map_file_coords, spec_map_file_coords};
use crate::strings::same_text;

verus! {

/// A pair of integer coordinates: a tile's column and row, or a room's
/// place in its area.
#[derive(Clone, Copy, PartialEq, Eq, Structural, Debug)]
pub struct Coords {
    pub x: i32,
    pub y: i32,
}

/// A layer of a Tiled map: one tile id per cell, row by row.
pub struct TiledLayer {
    pub data: Vec<i32>,
    pub height: i32,
    pub id: i32,
    pub name: String,
    pub opacity: i32,
    pub layer_type: String,
    pub visible: bool,
    pub width: i32,
    pub x: i32,
    pub y: i32,
}

/// A tileset that a Tiled map refers to.
pub struct TiledMapSet {
    pub firstgid: i32,
    pub source: String,
}

/// A Tiled map.
pub struct TiledMap {
    pub compressionlevel: i32,
    pub height: i32,
    pub infinite: bool,
    pub layers: Vec<TiledLayer>,
    pub nextlayerid: i32,
    pub nextobjectid: i32,
    pub orientation: String,
    pub renderorder: String,
    pub tiledversion: String,
    pub tileheight: i32,
    pub tilesets: Vec<TiledMapSet>,
    pub tilewidth: i32,
    pub map_type: String,
    pub version: String,
    pub width: i32,
}

/// The type that a tileset gives one of its tiles.
pub struct TiledSetTiles {
    pub id: i32,
    pub tile_type: String,
}

/// A Tiled tileset.
pub struct TiledTileSet {
    pub columns: i32,
    pub image: String,
    pub imageheight: i32,
    pub imagewidth: i32,
    pub margin: i32,
    pub name: String,
    pub spacing: i32,
    pub tilecount: i32,
    pub tiledversion: String,
    pub tileheight: i32,
    pub tiles: Vec<TiledSetTiles>,
    pub tilewidth: i32,
    pub set_type: String,
    pub version: String,
}

/// What is in the way at a tile.
#[derive(Clone, Copy, PartialEq, Eq, Structural, Debug)]
pub struct TileInfo {
    pub solid: bool,
    pub ladder: bool,
}

/// Why a room could not be built from its files.
#[derive(Clone, Copy, PartialEq, Eq, Structural, Debug)]
pub enum LevelError {
    /// The map names no tileset.
    NoTileset,
    /// The map has no layer.
    NoLayer,
}

/// A room of the game.
pub struct Level {
    pub tile_image_name: String,
    pub tile_values: Vec<i32>,
    pub map_dimensions: Coords,
    pub tile_size: i32,
    pub tileset_columns: i32,
    pub tileset: TiledTileSet,
    pub x_coord: i32,
    pub y_coord: i32,
}

/// `a` divided by `b`, rounded towards zero.
pub open spec fn trunc_div(a: int, b: int) -> int {
    let q: int = abs(a) as int / abs(b) as int;
    if (a < 0) != (b < 0) { -q } else { q }
}

/// The remainder of `a` divided by `b` rounded towards zero: it has the
/// sign of `a`.
pub open spec fn trunc_rem(a: int, b: int) -> int {
    let m: int = abs(a) as int % abs(b) as int;
    if a < 0 { -m } else { m }
}

/// The position in a row-by-row list of the cell at column `x`, row `y`.
pub open spec fn spec_coords_to_index(x: int, y: int, width: int) -> int {
    y * width + x
}

/// The position in a row-by-row list of the cell at column `x`, row `y`
/// of a grid `width` cells wide.
pub fn coords_to_index(x: i32, y: i32, width: i32) -> (r: i32)
    requires
        i32::MIN <= spec_coords_to_index(x as int, y as int, width as int) <= i32::MAX,
        i32::MIN <= y * width <= i32::MAX,
    ensures
        r == spec_coords_to_index(x as int, y as int, width as int),
{
    y * width + x
}

/// The directory that map files and tilesets are read from.
pub open spec fn maps_dir() -> Seq<char> {
    "assets/maps/"@
}

/// The file of the tileset that a map uses: the first one it names.
pub fn tileset_file_name(tile_map: &TiledMap) -> (r: Result<String, LevelError>)
    ensures
        tile_map.tilesets@.len() == 0 ==> r == Err::<String, LevelError>(LevelError::NoTileset),
        tile_map.tilesets@.len() > 0 ==> (r matches Ok(name) && name@ == maps_dir()
            + tile_map.tilesets@[0].source@),
{
    if tile_map.tilesets.len() == 0 {
        return Err(LevelError::NoTileset);
    }
    let mut name = String::from_str("assets/maps/");
    name.append(tile_map.tilesets[0].source.as_str());
    Ok(name)
}

impl Level {
    /// The room whose map file is `map_name`, made of the map's first
    /// layer and of its tileset. Its coordinates are read out of the file's
    /// name, `dir/area_x_y.tmj`.
    pub fn build(map_name: &str, tile_map: TiledMap, tileset: TiledTileSet) -> (r: Result<
        Level,
        LevelError,
    >)
        requires
            spec_map_file_coords(map_name@) is Some,
        ensures
            tile_map.tilesets@.len() == 0 ==> r == Err::<Level, LevelError>(LevelError::NoTileset),
            tile_map.tilesets@.len() > 0 && tile_map.layers@.len() == 0 ==> r == Err::<
                Level,
                LevelError,
            >(LevelError::NoLayer),
            tile_map.tilesets@.len() > 0 && tile_map.layers@.len() > 0 ==> (r matches Ok(level) && {
                &&& level.tile_image_name == tileset.image
                &&& level.tile_values@ == tile_map.layers@[0].data@
                &&& level.map_dimensions == Coords { x: tile_map.width, y: tile_map.height }
                &&& level.tile_size == tile_map.tilewidth
                &&& level.tileset_columns == tileset.columns
                &&& level.tileset == tileset
                &&& (level.x_coord, level.y_coord) == spec_map_file_coords(map_name@).unwrap()
            }),
    {
        let coords = map_file_coords(map_name);
        let (x_coord, y_coord) = match coords {
            Some(c) => c,
            None => {
                return Err(LevelError::NoTileset);
            },
        };
        if tile_map.tilesets.len() == 0 {
            return Err(LevelError::NoTileset);
        }
        if tile_map.layers.len() == 0 {
            return Err(LevelError::NoLayer);
        }
        let dimensions = Coords { x: tile_map.width, y: tile_map.height };
        let tile_size = tile_map.tilewidth;
        let mut layers = tile_map.layers;
        let first = layers.swap_remove(0);
        let values = first.data;
        let tile_image_name = tileset.image.clone();
        let tileset_columns = tileset.columns;
        Ok(Level {
            tile_image_name,
            tile_values: values,
            map_dimensions: dimensions,
            tile_size,
            tileset_columns,
            tileset,
            x_coord,
            y_coord,
        })
    }

    /// Whether a cell lies on the map.
    pub open spec fn on_map(&self, c: Coords) -> bool {
        0 <= c.x < self.map_dimensions.x && 0 <= c.y < self.map_dimensions.y
    }

    /// The tile id in cell `c`.
    pub open spec fn tile_at(&self, c: Coords) -> i32 {
        self.tile_values@[spec_coords_to_index(c.x as int, c.y as int, self.map_dimensions.x as int)]
    }

    /// The type that the tileset gives to the tile in cell `c`.
    pub open spec fn type_at(&self, c: Coords) -> Seq<char> {
        self.tileset.tiles@[self.tile_at(c) - 1].tile_type@
    }

    /// Cell `c` can be looked up: a cell on the map has its place in the
    /// list of tiles, and its tile id is one of the tileset's.
    pub open spec fn tile_ok(&self, c: Coords) -> bool {
        &&& (c.x >= 0 && c.y >= 0) ==> self.map_dimensions.x > i32::MIN && (c.x
            <= self.map_dimensions.x - 1 ==> self.map_dimensions.y > i32::MIN)
        &&& self.on_map(c) ==> {
            let i = spec_coords_to_index(c.x as int, c.y as int, self.map_dimensions.x as int);
            &&& i < self.tile_values@.len()
            &&& c.y * self.map_dimensions.x <= i32::MAX
            &&& i <= i32::MAX
            &&& 1 <= self.tile_at(c) <= self.tileset.tiles@.len()
        }
    }

    /// Every cell can be looked up.
    pub open spec fn wf(&self) -> bool {
        forall|c: Coords| #[trigger] self.tile_ok(c)
    }

    /// Every cell on the map can be looked up.
    pub open spec fn cells_ok(&self) -> bool {
        forall|c: Coords| self.on_map(c) ==> #[trigger] self.tile_ok(c)
    }

    /// Whether every cell can be looked up: the check to make once a room
    /// is loaded, before its tiles are read.
    pub fn tiles_valid(&self) -> (r: bool)
        ensures
            r == self.wf(),
    {
        let w = self.map_dimensions.x;
        let h = self.map_dimensions.y;
        if w == i32::MIN || (h == i32::MIN && w > 0) {
            assert(!self.tile_ok(Coords { x: 0, y: 0 }));
            return false;
        }
        let n = self.tile_values.len();
        let tiles = self.tileset.tiles.len();
        let mut y: i32 = 0;
        while y < h
            invariant
                w == self.map_dimensions.x,
                h == self.map_dimensions.y,
                w > i32::MIN,
                w > 0 ==> h > i32::MIN,
                n == self.tile_values@.len(),
                tiles == self.tileset.tiles@.len(),
                0 <= y,
                h > 0 ==> y <= h,
                h <= 0 ==> y == 0,
                forall|c: Coords| c.y < y ==> #[trigger] self.tile_ok(c),
            decreases h - y,
        {
            let mut x: i32 = 0;
            while x < w
                invariant
                    w == self.map_dimensions.x,
                    h == self.map_dimensions.y,
                    w > i32::MIN,
                    w > 0 ==> h > i32::MIN,
                    n == self.tile_values@.len(),
                    tiles == self.tileset.tiles@.len(),
                    0 <= y < h,
                    0 <= x,
                    w > 0 ==> x <= w,
                    w <= 0 ==> x == 0,
                    forall|c: Coords| c.y < y ==> #[trigger] self.tile_ok(c),
                    forall|c: Coords| c.y == y && c.x < x ==> #[trigger] self.tile_ok(c),
                decreases w - x,
            {
                let c = Coords { x, y };
                assert(0 <= (y as int) * (w as int) <= 0x7fff_ffff * 0x7fff_ffff) by (nonlinear_arith)
                    requires
                        0 <= y < 0x8000_0000,
                        0 < w < 0x8000_0000,
                ;
                let row: i64 = (y as i64) * (w as i64);
                let index: i64 = row + x as i64;
                if row > 2147483647 || index > 2147483647 || (index as usize) >= n {
                    assert(!self.tile_ok(c));
                    return false;
                }
                let tile = self.tile_values[index as usize];
                if tile < 1 || (tile as usize) > tiles {
                    assert(!self.tile_ok(c));
                    return false;
                }
                assert(self.tile_ok(c));
                x += 1;
            }
            assert forall|c: Coords| c.y < y + 1 implies #[trigger] self.tile_ok(c) by {
                if c.y == y && c.x >= w {
                    assert(!self.on_map(c));
                }
            }
            y += 1;
        }
        assert forall|c: Coords| #[trigger] self.tile_ok(c) by {
            if c.y >= h {
                assert(!self.on_map(c));
            }
        }
        true
    }

    /// What cell `c` holds: off the map, nothing solid and a ladder; on it,
    /// what the tileset's type for the tile says.
    pub open spec fn spec_tile_info(&self, c: Coords) -> TileInfo {
        if !self.on_map(c) {
            TileInfo { solid: false, ladder: true }
        } else {
            TileInfo { solid: self.type_at(c) == "solid"@, ladder: self.type_at(c) == "ladder"@ }
        }
    }

    /// The cell of the tileset image that the `index`-th tile of the room
    /// is drawn from: tile ids count from 1, row by row over the image,
    /// divided by the column count as integer division does (towards zero).
    pub fn get_tile_texture(&self, index: usize) -> (r: Coords)
        requires
            index < self.tile_values@.len(),
            self.tileset_columns != 0,
            self.tile_values@[index as int] > i32::MIN,
            !(self.tile_values@[index as int] - 1 == i32::MIN && self.tileset_columns == -1),
        ensures
            r.x == trunc_rem(self.tile_values@[index as int] - 1, self.tileset_columns as int),
            r.y == trunc_div(self.tile_values@[index as int] - 1, self.tileset_columns as int),
    {
        let id: i64 = self.tile_values[index] as i64 - 1;
        let cols: i64 = self.tileset_columns as i64;
        let a: i64 = if id < 0 { -id } else { id };
        let b: i64 = if cols < 0 { -cols } else { cols };
        let q: i64 = a / b;
        let m: i64 = a % b;
        proof {
            assert(0 <= m < b);
            assert(0 <= q <= a) by (nonlinear_arith)
                requires q == a / b, b >= 1, a >= 0;
            if a == 0x8000_0000 && cols < 0 {
                assert(b >= 2);
                assert(q <= 0x4000_0000) by (nonlinear_arith)
                    requires q == a / b, b >= 2, a == 0x8000_0000;
            }
        }
        let x: i64 = if id < 0 { -m } else { m };
        let y: i64 = if (id < 0) != (cols < 0) { -q } else { q };
        Coords { x: x as i32, y: y as i32 }
    }

    /// Whether cell `c` holds a hazard: a tile of the map whose type is
    /// `hazard`.
    pub open spec fn spec_is_hazard(&self, c: Coords) -> bool {
        self.on_map(c) && self.type_at(c) == "hazard"@
    }

    /// Whether the tile at `tile_coords` hurts the player who stands on it.
    pub fn is_hazard(&self, tile_coords: Coords) -> (r: bool)
        requires
            self.tile_ok(tile_coords),
        ensures
            r == self.spec_is_hazard(tile_coords),
    {
        if tile_coords.x < 0 || tile_coords.y < 0 {
            return false;
        }
        if tile_coords.x > self.map_dimensions.x - 1 || tile_coords.y > self.map_dimensions.y - 1 {
            return false;
        }
        let index = coords_to_index(tile_coords.x, tile_coords.y, self.map_dimensions.x);
        let tile = self.tile_values[index as usize];
        same_text(self.tileset.tiles[(tile - 1) as usize].tile_type.as_str(), "hazard")
    }

    /// What the tile at `tile_coords` is.
    pub fn get_tile_info(&self, tile_coords: Coords) -> (r: TileInfo)
        requires
            self.tile_ok(tile_coords),
        ensures
            r == self.spec_tile_info(tile_coords),
    {
        if tile_coords.x < 0 || tile_coords.y < 0 {
            return TileInfo { solid: false, ladder: true };
        }
        if tile_coords.x > self.map_dimensions.x - 1 || tile_coords.y > self.map_dimensions.y - 1 {
            return TileInfo { solid: false, ladder: true };
        }
        let index = coords_to_index(tile_coords.x, tile_coords.y, self.map_dimensions.x);
        let tile = self.tile_values[index as usize];
        let kind = self.tileset.tiles[(tile - 1) as usize].tile_type.as_str();
        let solid = same_text(kind, "solid");
        let ladder = same_text(kind, "ladder");
        TileInfo { solid, ladder }
    }
}

} // verus!
