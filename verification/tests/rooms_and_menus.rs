use game_25::hud::{get_map_pixels, map_dot_position, map_shade, MapPixelType, MapShade};
use game_25::level::{
    coords_to_index, tileset_file_name, Coords, Level, LevelError, TileInfo, TiledLayer, TiledMap,
    TiledMapSet, TiledSetTiles, TiledTileSet,
};
use game_25::level_state::{area_colour_code, next_frame, plan_level, LevelStateError};
use game_25::menu::{frame_cell, frame_cells, LabelColour, Menu, MenuInput, MenuItem};
use game_25::resources::{asset_kind, get_text, load_game_text, objects_area, texture_key, AssetKind, Resources};
use game_25::store::Store;

fn tileset() -> TiledTileSet {
    TiledTileSet {
        columns: 4,
        image: "tiles.png".to_string(),
        imageheight: 64,
        imagewidth: 128,
        margin: 0,
        name: "tiles".to_string(),
        spacing: 0,
        tilecount: 3,
        tiledversion: "1.10".to_string(),
        tileheight: 32,
        tiles: vec![
            TiledSetTiles { id: 0, tile_type: "solid".to_string() },
            TiledSetTiles { id: 1, tile_type: "ladder".to_string() },
            TiledSetTiles { id: 2, tile_type: "air".to_string() },
        ],
        tilewidth: 32,
        set_type: "tileset".to_string(),
        version: "1.10".to_string(),
    }
}

fn tile_map(layers: Vec<TiledLayer>, tilesets: Vec<TiledMapSet>) -> TiledMap {
    TiledMap {
        compressionlevel: -1,
        height: 2,
        infinite: false,
        layers,
        nextlayerid: 2,
        nextobjectid: 1,
        orientation: "orthogonal".to_string(),
        renderorder: "right-down".to_string(),
        tiledversion: "1.10".to_string(),
        tileheight: 32,
        tilesets,
        tilewidth: 32,
        map_type: "map".to_string(),
        version: "1.10".to_string(),
        width: 3,
    }
}

fn layer(data: Vec<i32>) -> TiledLayer {
    TiledLayer {
        data,
        height: 2,
        id: 1,
        name: "Tiles".to_string(),
        opacity: 1,
        layer_type: "tilelayer".to_string(),
        visible: true,
        width: 3,
        x: 0,
        y: 0,
    }
}

fn sets() -> Vec<TiledMapSet> {
    vec![TiledMapSet { firstgid: 1, source: "tiles.tsj".to_string() }]
}

/// A room 3 tiles wide and 2 high: solid, ladder, air / air, air, solid.
fn room() -> Level {
    Level::build("assets/maps/a1_0_0.tmj", tile_map(vec![layer(vec![1, 2, 3, 3, 3, 1])], sets()), tileset())
        .ok()
        .unwrap()
}

#[test]
fn building_a_room_from_its_files() {
    let l = room();
    assert_eq!(l.tile_image_name, "tiles.png");
    assert_eq!(l.tile_values, vec![1, 2, 3, 3, 3, 1]);
    assert_eq!(l.map_dimensions, Coords { x: 3, y: 2 });
    assert_eq!(l.tile_size, 32);
    assert_eq!(l.tileset_columns, 4);
    assert_eq!((l.x_coord, l.y_coord), (0, 0));
    let l = Level::build("assets/maps/b_-2_5.tmj", tile_map(vec![layer(vec![1; 6])], sets()), tileset())
        .ok()
        .unwrap();
    assert_eq!((l.x_coord, l.y_coord), (-2, 5));
}

#[test]
fn building_a_room_reports_what_is_missing() {
    let e = Level::build("assets/maps/a1_0_0.tmj", tile_map(vec![layer(vec![1; 6])], vec![]), tileset());
    assert_eq!(e.err(), Some(LevelError::NoTileset));
    let e = Level::build("assets/maps/a1_0_0.tmj", tile_map(vec![], sets()), tileset());
    assert_eq!(e.err(), Some(LevelError::NoLayer));
    let e = Level::build("assets/maps/a1_0_0.tmj", tile_map(vec![], vec![]), tileset());
    assert_eq!(e.err(), Some(LevelError::NoTileset));
    assert_eq!(tileset_file_name(&tile_map(vec![], sets())), Ok("assets/maps/tiles.tsj".to_string()));
    assert_eq!(tileset_file_name(&tile_map(vec![], vec![])), Err(LevelError::NoTileset));
}

#[test]
fn tiles_are_looked_up_by_type() {
    let l = room();
    assert_eq!(coords_to_index(2, 1, 3), 5);
    assert_eq!(l.get_tile_info(Coords { x: 0, y: 0 }), TileInfo { solid: true, ladder: false });
    assert_eq!(l.get_tile_info(Coords { x: 1, y: 0 }), TileInfo { solid: false, ladder: true });
    assert_eq!(l.get_tile_info(Coords { x: 2, y: 0 }), TileInfo { solid: false, ladder: false });
    assert_eq!(l.get_tile_info(Coords { x: 2, y: 1 }), TileInfo { solid: true, ladder: false });
    for c in [Coords { x: -1, y: 0 }, Coords { x: 0, y: -1 }, Coords { x: 3, y: 0 }, Coords { x: 0, y: 2 }] {
        assert_eq!(l.get_tile_info(c), TileInfo { solid: false, ladder: true });
    }
    assert_eq!(l.get_tile_texture(1), Coords { x: 1, y: 0 });
    let mut l2 = room();
    l2.tile_values[0] = 6;
    assert_eq!(l2.get_tile_texture(0), Coords { x: 1, y: 1 });
    l2.tile_values[0] = 0;
    assert_eq!(l2.get_tile_texture(0), Coords { x: -1, y: 0 });
    l2.tile_values[0] = -7;
    assert_eq!(l2.get_tile_texture(0), Coords { x: 0, y: -2 });
    l2.tileset_columns = -5;
    assert_eq!(l2.get_tile_texture(0), Coords { x: -3, y: 1 });
}

fn resources_with_room() -> Resources<u8, u8, u8> {
    let mut res: Resources<u8, u8, u8> = Resources::new();
    res.insert_room("a1_0_0".to_string(), room());
    res.insert_object("a1".to_string(), 7);
    res
}

#[test]
fn minimap_shows_the_rooms_around() {
    let res = resources_with_room();
    let px = get_map_pixels(&res, "a1", "0_0");
    assert_eq!(px.len(), 9);
    assert_eq!(px[4], vec![MapPixelType::Solid, MapPixelType::Ladder, MapPixelType::Air, MapPixelType::Air, MapPixelType::Air, MapPixelType::Solid]);
    for (i, cell) in px.iter().enumerate() {
        if i != 4 {
            assert_eq!(cell.len(), 300);
            assert!(cell.iter().all(|p| *p == MapPixelType::Solid));
        }
    }
    // The room at (0, 0) seen from (1, -1) is in the top-left cell.
    let px = get_map_pixels(&res, "a1", "1_-1");
    assert_eq!(px[0], vec![MapPixelType::Solid, MapPixelType::Ladder, MapPixelType::Air, MapPixelType::Air, MapPixelType::Air, MapPixelType::Solid]);
    assert_eq!(px[4].len(), 300);
}

#[test]
fn entering_a_room_needs_it_stored() {
    let res = resources_with_room();
    let plan = plan_level(&res, "a1_0_0").ok().unwrap();
    assert_eq!(plan.area_name, "a1");
    assert_eq!(plan.room_key, "0_0");
    assert_eq!(plan.map_pixels.len(), 9);
    assert_eq!(plan_level(&res, "a1_5_5").err(), Some(LevelStateError::LevelNotFound));
    assert_eq!(next_frame(0), 1);
    assert_eq!(next_frame(10), 11);
    assert_eq!(next_frame(11), 0);
    assert_eq!(area_colour_code("a1"), Some(0x5398eb));
    assert_eq!(area_colour_code("a2"), None);
}

#[test]
fn texts_and_textures_have_fallbacks() {
    let mut res: Resources<u32, u8, u8> = Resources::new();
    res.insert_text("pause".to_string(), "PAUSED".to_string());
    assert_eq!(get_text(&res, "pause"), "PAUSED");
    assert_eq!(get_text(&res, "resume"), "ERROR, STRING NOT FOUND");
    res.insert_text("pause".to_string(), "Paused".to_string());
    assert_eq!(res.get_text("pause"), "Paused");
    res.insert_texture("missing".to_string(), 0);
    res.insert_texture("player.png".to_string(), 5);
    assert_eq!(*res.get_texture("player.png"), 5);
    assert_eq!(*res.get_texture("star.png"), 0);
    res.insert_cutscene("intro".to_string(), 3);
    assert_eq!(res.get_cutscene("intro"), Some(&3));
    assert_eq!(res.get_cutscene("outro"), None);
    res.insert_npc_dialog("test1".to_string(), vec!["hi".to_string()]);
    assert_eq!(res.get_npc_dialog("test1").unwrap().len(), 1);
    assert!(res.get_room("a1_0_0").is_none());
    assert!(res.get_room_object("a1").is_none());
    assert!(res.background_texture.is_none());
}

#[test]
fn asset_files_are_sorted_by_extension() {
    assert_eq!(asset_kind("png"), AssetKind::Texture);
    assert_eq!(asset_kind("tmj"), AssetKind::RoomMap);
    assert_eq!(asset_kind("roomobj"), AssetKind::RoomObjects);
    assert_eq!(asset_kind("gametext"), AssetKind::GameText);
    assert_eq!(asset_kind("cutscene"), AssetKind::Cutscene);
    assert_eq!(asset_kind("dialog"), AssetKind::Unsupported);
    assert_eq!(asset_kind("txt"), AssetKind::Unsupported);
    assert_eq!(asset_kind(""), AssetKind::Unsupported);
    assert_eq!(texture_key("player"), "player.png");
    assert_eq!(objects_area("a1_objects"), "a1");
    assert_eq!(objects_area("a1"), "a1");
}

#[test]
fn store_keeps_one_value_per_name() {
    let mut s: Store<i32> = Store::new();
    assert!(!s.contains_key("a"));
    s.insert("a".to_string(), 1);
    s.insert("b".to_string(), 2);
    s.insert("a".to_string(), 3);
    assert_eq!(s.get("a"), Some(&3));
    assert_eq!(s.get("b"), Some(&2));
    assert_eq!(s.get("c"), None);
    let mut vals: Vec<i32> = s.values().into_iter().copied().collect();
    vals.sort();
    assert_eq!(vals, vec![2, 3]);
    let mut l: Store<Vec<i32>> = Store::new();
    l.push_to("0_0".to_string(), 1);
    l.push_to("0_0".to_string(), 2);
    l.push_to("1_0".to_string(), 3);
    assert_eq!(l.get("0_0"), Some(&vec![1, 2]));
    assert_eq!(l.get("1_0"), Some(&vec![3]));
}

fn pause_menu() -> Menu<i32> {
    let mut m = Menu::new();
    m.add_item(MenuItem::new("PAUSE", 0, false));
    m.add_item(MenuItem::new("Resume", 1, true));
    m.add_item(MenuItem::new("Quit", 2, true));
    m
}

const NONE: MenuInput = MenuInput { up: false, down: false, enter: false };
const DOWN: MenuInput = MenuInput { up: false, down: true, enter: false };
const UP: MenuInput = MenuInput { up: true, down: false, enter: false };
const ENTER: MenuInput = MenuInput { up: false, down: false, enter: true };

#[test]
fn menu_highlight_skips_the_title() {
    let mut m = pause_menu();
    assert_eq!(m.current_index, 0);
    assert_eq!(m.update(NONE), None);
    assert_eq!(m.current_index, 1);
    assert_eq!(m.update(DOWN), None);
    assert_eq!(m.current_index, 2);
    assert_eq!(m.update(DOWN), None);
    assert_eq!(m.current_index, 2);
    assert_eq!(m.update(UP), None);
    assert_eq!(m.current_index, 1);
    assert_eq!(m.update(UP), None);
    assert_eq!(m.current_index, 1);
    assert!(m.can_update(ENTER));
    let chosen = m.update(ENTER).unwrap();
    assert_eq!(m.menu_items[chosen].action, 1);
    assert_eq!(m.size_in_chars(), (6, 3));
}

#[test]
fn menu_steps_past_an_unselectable_item() {
    let mut m = Menu::new();
    m.add_item(MenuItem::new("a", 'a', true));
    m.add_item(MenuItem::new("--", '-', false));
    m.add_item(MenuItem::new("b", 'b', true));
    m.update(DOWN);
    assert_eq!(m.current_index, 2);
    m.update(UP);
    assert_eq!(m.current_index, 0);
    let mut lone = Menu::new();
    lone.add_item(MenuItem::new("title", 0, false));
    assert!(!lone.can_update(ENTER));
    assert!(lone.can_update(NONE));
    assert!(!Menu::<u8>::new().can_update(NONE));
    assert_eq!(Menu::<u8>::new().size_in_chars(), (0, 0));
}

#[test]
fn rooms_are_checked_once_loaded() {
    assert!(room().tiles_valid());
    let mut bad = room();
    bad.tile_values[5] = 4;
    assert!(!bad.tiles_valid());
    let mut zero = room();
    zero.tile_values[0] = 0;
    assert!(!zero.tiles_valid());
    let mut short = room();
    short.tile_values.pop();
    assert!(!short.tiles_valid());
    let mut empty = room();
    empty.map_dimensions = Coords { x: 0, y: 0 };
    empty.tile_values.clear();
    assert!(empty.tiles_valid());
    let mut wide = room();
    wide.map_dimensions = Coords { x: i32::MIN, y: 1 };
    assert!(!wide.tiles_valid());
}

#[test]
fn store_lists_its_values() {
    let mut s: Store<i32> = Store::new();
    s.insert("a".to_string(), 1);
    s.insert("b".to_string(), 2);
    s.insert("a".to_string(), 3);
    let mut v: Vec<i32> = s.values().into_iter().copied().collect();
    v.sort();
    assert_eq!(v, vec![2, 3]);
}

#[test]
fn menu_frames_and_label_colours() {
    // a box 3 cells wide and 2 high inside its border
    assert_eq!(frame_cell(0, 0, 3, 2), (0, 0));
    assert_eq!(frame_cell(4, 0, 3, 2), (2, 0));
    assert_eq!(frame_cell(0, 3, 3, 2), (0, 2));
    assert_eq!(frame_cell(4, 3, 3, 2), (2, 2));
    assert_eq!(frame_cell(2, 0, 3, 2), (1, 0));
    assert_eq!(frame_cell(2, 3, 3, 2), (1, 2));
    assert_eq!(frame_cell(0, 1, 3, 2), (0, 1));
    assert_eq!(frame_cell(4, 2, 3, 2), (2, 1));
    assert_eq!(frame_cell(3, 1, 3, 2), (1, 1));
    assert_eq!(frame_cell(1, 1, 0, 0), (2, 2));
    let title = MenuItem::new("Pause", 0, false);
    let item = MenuItem::new("Resume", 1, true);
    assert_eq!(title.label_colour(true), LabelColour::Blue);
    assert_eq!(title.label_colour(false), LabelColour::Blue);
    assert_eq!(item.label_colour(true), LabelColour::Yellow);
    assert_eq!(item.label_colour(false), LabelColour::White);
}

#[test]
fn minimap_dots_are_laid_out_room_by_room() {
    assert_eq!(map_dot_position(0, 0), Coords { x: 0, y: 0 });
    assert_eq!(map_dot_position(0, 21), Coords { x: 4, y: 4 });
    assert_eq!(map_dot_position(4, 0), Coords { x: 80, y: 60 });
    assert_eq!(map_dot_position(8, 299), Coords { x: 236, y: 176 });
    assert_eq!(map_shade(MapPixelType::Solid, 4), MapShade::CurrentSolid);
    assert_eq!(map_shade(MapPixelType::Solid, 1), MapShade::OtherSolid);
    assert_eq!(map_shade(MapPixelType::Air, 4), MapShade::CurrentAir);
    assert_eq!(map_shade(MapPixelType::Air, 7), MapShade::OtherAir);
    assert_eq!(map_shade(MapPixelType::Ladder, 4), MapShade::Ladder);
    assert_eq!(map_shade(MapPixelType::Ladder, 0), MapShade::Ladder);
}

#[test]
fn game_text_files_fill_the_text_table() {
    let mut res: Resources<u8, u8, u8> = Resources::new();
    assert_eq!(get_text(&res, "pause"), "ERROR, STRING NOT FOUND");
    res.insert_text("b".to_string(), "old b".to_string());
    res.insert_text("c".to_string(), "old c".to_string());
    assert!(load_game_text(&mut res, r#"{"a": "first", "b": "new b", "pause": "Paused"}"#));
    assert_eq!(get_text(&res, "a"), "first");
    assert_eq!(get_text(&res, "b"), "new b");
    assert_eq!(get_text(&res, "c"), "old c");
    assert_eq!(get_text(&res, "pause"), "Paused");
    assert_eq!(get_text(&res, "d"), "ERROR, STRING NOT FOUND");
    assert!(load_game_text(&mut res, "{}"));
    assert_eq!(get_text(&res, "a"), "first");
    for bad in ["", "not json", r#"{"a": 1}"#, r#"["a", "b"]"#, r#"{"a": "x""#] {
        assert!(!load_game_text(&mut res, bad));
    }
    assert_eq!(get_text(&res, "a"), "first");
    assert_eq!(get_text(&res, "b"), "new b");
}

#[test]
fn menu_boxes_cover_every_cell_once() {
    let cells = frame_cells(3, 2);
    assert_eq!(cells.len(), 20);
    assert_eq!(cells[0], (0, 0, 0, 0));
    assert_eq!(cells[1], (0, 1, 0, 1));
    assert_eq!(cells[3], (0, 3, 0, 2));
    assert_eq!(cells[4], (1, 0, 1, 0));
    assert_eq!(cells[9], (2, 1, 1, 1));
    assert_eq!(cells[19], (4, 3, 2, 2));
    assert_eq!(frame_cells(0, 0), vec![(0, 0, 0, 0), (0, 1, 0, 2), (1, 0, 2, 0), (1, 1, 2, 2)]);
    // six cells wide ("Resume"), two rows for each of three items
    let layout = pause_menu().frame_layout();
    assert_eq!(layout.len(), 8 * 8);
    assert_eq!(layout[0], (0, 0, 0, 0));
    assert_eq!(layout[7 * 8 + 7], (7, 7, 2, 2));
    assert_eq!(layout[3 * 8 + 6], (3, 6, 1, 1));
    assert_eq!(layout[7 * 8], (7, 0, 2, 0));
    let mut seen: Vec<(u32, u32)> = layout.iter().map(|c| (c.0, c.1)).collect();
    seen.sort();
    seen.dedup();
    assert_eq!(seen.len(), 64);
}
