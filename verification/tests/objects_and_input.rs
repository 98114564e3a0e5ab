use game_25::area::{neighbour_room, room_offset, DirectionToMove};
use game_25::controls::Controls;
use game_25::current_game::{CurrentGame, MAX_HEALTH};
use game_25::cutscene::{advance_slide, SlideStep};
use game_25::game_state::StateTransition;
use game_25::level::{Coords, Level, TiledSetTiles, TiledTileSet};
use game_25::obj_checkpoint::{Checkpoint, CheckpointFromFile};
use game_25::obj_door::{DoorAction, DoorDestination, DoorFromFile, DoorInGame, DoorLocation};
use game_25::obj_npc::{npc_function, NpcAction, NpcInGame, TalkState};
use game_25::obj_star::{StarFromFile, StarInGame};
use game_25::player::{
    check_for_ladder, hazard_damage, hazard_hurts, is_tile_solid, over_solid_tile, pixel_to_tile,
    touching_hazard_below, want_to_climb,
    PlayerMovementState, SpeedClass,
};
use game_25::resources::Resources;

#[test]
fn releases_fire_once_when_a_button_is_let_go() {
    let mut c = Controls::new();
    assert!(!c.controls_tertirary_release(false, false));
    assert!(!c.controls_tertirary_release(false, true));
    assert!(c.z_down);
    assert!(!c.controls_tertirary_release(true, true));
    assert!(c.controls_tertirary_release(false, false));
    assert!(!c.controls_tertirary_release(false, false));
    assert!(!c.controls_enter_release(true, false));
    assert!(c.controls_enter_release(false, false));
    assert!(!c.controls_esc_release(false, true));
    assert!(c.controls_esc_release(false, false));
    assert!(!c.controls_up_release(true, false));
    assert!(c.controls_up_release(false, false));
    assert!(!c.controls_down_release(true, false));
    assert!(c.controls_down_release(false, false));
    assert!(!c.controls_quaternary_release(false, true));
    assert!(c.controls_quaternary_release(false, false));
}

#[test]
fn held_buttons_are_either_device() {
    let mut c = Controls::new();
    assert!(c.controls_left(true, false));
    assert!(c.controls_right(false, true));
    assert!(!c.controls_up(false, false));
    assert!(c.controls_down(true, true));
    assert!(c.controls_primary(false, true));
    assert!(!c.controls_secondary(false, false));
}

#[test]
fn button_names_follow_the_device_used_last() {
    let mut c = Controls::new();
    assert_eq!(c.key_string("z"), "Z");
    assert_eq!(c.key_string("esc"), "Escape");
    c.update(Some(3), false);
    assert_eq!(c.active_gamepad, Some(3));
    assert!(c.last_used_controller);
    assert_eq!(c.key_string("z"), "B");
    assert_eq!(c.key_string("space"), "A");
    assert_eq!(c.key_string("shift"), "X");
    assert_eq!(c.key_string("x"), "Y");
    assert_eq!(c.key_string("enter"), "Start");
    assert_eq!(c.key_string("esc"), "Select");
    assert_eq!(c.key_string("q"), "NO KEY");
    c.update(None, false);
    assert!(c.last_used_controller);
    c.update(Some(1), true);
    assert_eq!(c.active_gamepad, Some(1));
    assert!(!c.last_used_controller);
    assert_eq!(c.key_string("space"), "Space");
    assert_eq!(c.key_string("shift"), "Shift");
    assert_eq!(c.key_string("x"), "X");
    assert_eq!(c.key_string("enter"), "Enter");
    assert_eq!(c.key_string("?"), "NO KEY");
}

#[test]
fn touching_a_star_collects_and_hides_it() {
    let mut res: Resources<u8, u8, u8> = Resources::new();
    res.insert_text("obj_star_collected".to_string(), "A star!".to_string());
    let mut g = CurrentGame::new();
    let s = StarFromFile { id: 4, room_x: 1, room_y: 0, pos_x: 2, pos_y: 3 }.to_star("a1");
    assert_eq!(StarFromFile { id: 4, room_x: 1, room_y: 0, pos_x: 2, pos_y: 3 }.room_coords(), Coords { x: 1, y: 0 });
    assert!(s.is_visible(&mut g));
    assert_eq!(s.get_hud_text(&res, &mut g), "A star!");
    assert!(matches!(s.contact::<u8>(&mut g), StateTransition::Stay));
    assert!(g.is_star_collected("a1", 4));
    assert!(!s.is_visible(&mut g));
    assert_eq!(s.get_hud_text(&res, &mut g), "");
    assert!(matches!(s.contact::<u8>(&mut g), StateTransition::Stay));
    assert_eq!(g.get_stars().list().len(), 1);
    assert!(matches!(s.interact::<u8>(), StateTransition::Stay));
    let other = StarInGame::new(5, "a1".to_string());
    assert!(!other.is_collected(&mut g));
}

#[test]
fn touching_a_checkpoint_heals() {
    let mut g = CurrentGame::new();
    g.reduce_health(6);
    let rec = CheckpointFromFile { id: 1, room_x: 2, room_y: -1, pos_x: 5, pos_y: 9 };
    assert_eq!(rec.room_coords(), Coords { x: 2, y: -1 });
    let c = rec.to_checkpoint("a3");
    assert_eq!(c.area, "a3");
    assert_eq!(c.id, 1);
    assert!(matches!(c.contact::<u8>(&mut g), StateTransition::Stay));
    assert_eq!(g.health, MAX_HEALTH);
    let c2 = Checkpoint::new(2, "a1".to_string());
    assert_eq!(c2.id, 2);
}

fn destination() -> DoorDestination {
    DoorDestination { area: "a2".to_string(), room_x: 1, room_y: -1, pos_x: 3, pos_y: 4 }
}

#[test]
fn doors_lead_to_their_destination() {
    let d = DoorInGame::new(destination(), true, false);
    match d.contact() {
        DoorAction::Enter { level, tile } => {
            assert_eq!(level, "a2_1_-1");
            assert_eq!(tile, Coords { x: 3, y: 4 });
        }
        DoorAction::Stay => panic!("a door without interaction opens on contact"),
    }
    let closed = DoorInGame::new(destination(), false, true);
    assert!(matches!(closed.contact(), DoorAction::Stay));
    assert!(matches!(closed.interact(), DoorAction::Enter { .. }));
    assert!(!closed.is_visible());
    let rec = DoorFromFile {
        id: 0,
        location: DoorLocation { room_x: 4, room_y: 5, pos_x: 0, pos_y: 0 },
        destination: destination(),
        visible: true,
        need_interact: true,
    };
    assert_eq!(rec.room_coords(), Coords { x: 4, y: 5 });
    let door = rec.to_door();
    assert_eq!(door.destination.area, "a2");
    assert!(door.need_interact);
    assert_eq!(destination().copy().room_y, -1);
}

#[test]
fn characters_start_their_dialog() {
    match npc_function("Test1") {
        NpcAction::Talk(lines) => assert_eq!(lines, "test1"),
        NpcAction::NoNpc => panic!("Test1 talks"),
    }
    assert!(matches!(npc_function("Nobody"), NpcAction::NoNpc));
    let n = NpcInGame::new("Test1".to_string(), "npc.png".to_string());
    assert!(matches!(n.interact(), NpcAction::Talk(_)));
    assert!(matches!(n.contact::<u8>(), StateTransition::Stay));
    assert!(n.is_visible());
    assert_eq!(n.image, "npc.png");
}

#[test]
fn dialogs_advance_and_run_their_function() {
    let mut res: Resources<u8, u8, u8> = Resources::new();
    let lines: Vec<String> = ["Hello", "fn", "Bye"].iter().map(|s| s.to_string()).collect();
    res.insert_npc_dialog("test1".to_string(), lines);
    let mut t: TalkState<u8> = TalkState::new(&res, "test1", Some(1));
    assert_eq!(t.current_line, 0);
    assert_eq!(t.lines.len(), 3);
    let u = t.update::<u8>(false);
    assert!(matches!(u.transition, StateTransition::Stay) && !u.run_function);
    assert_eq!(t.current_line, 0);
    let u = t.update::<u8>(true);
    assert!(matches!(u.transition, StateTransition::Stay));
    assert!(u.run_function);
    assert_eq!(t.current_line, 2);
    let u = t.update::<u8>(true);
    assert!(matches!(u.transition, StateTransition::Pop(1)));
    assert!(!u.run_function);
    let mut silent: TalkState<u8> = TalkState::new(&res, "test1", None);
    assert!(!silent.update::<u8>(true).run_function);
    assert_eq!(silent.current_line, 2);
}

#[test]
fn leaving_a_room_leads_to_its_neighbour() {
    assert_eq!(neighbour_room("a1", 0, 0, DirectionToMove::Left), "a1_-1_0");
    assert_eq!(neighbour_room("a1", 0, 0, DirectionToMove::Right), "a1_1_0");
    assert_eq!(neighbour_room("a1", 0, 0, DirectionToMove::Up), "a1_0_1");
    assert_eq!(neighbour_room("a1", 0, 0, DirectionToMove::Down), "a1_0_-1");
    assert_eq!(neighbour_room("a1", 2, 3, DirectionToMove::NoMove), "a1_2_3");
    let l = room_offset(DirectionToMove::Left);
    let r = room_offset(DirectionToMove::Right);
    assert_eq!((l.x + r.x, l.y + r.y), (0, 0));
}

#[test]
fn cutscenes_advance_slide_by_slide() {
    assert_eq!(advance_slide(0, 3, false), SlideStep::Stay);
    assert_eq!(advance_slide(0, 3, true), SlideStep::Next(1));
    assert_eq!(advance_slide(1, 3, true), SlideStep::Next(2));
    assert_eq!(advance_slide(2, 3, true), SlideStep::Finished);
    assert_eq!(advance_slide(0, 1, true), SlideStep::Finished);
}

#[test]
fn movement_states_follow_the_ground_and_speed() {
    let s = PlayerMovementState::Walking;
    assert_eq!(s.airborne_check(true, true, false), PlayerMovementState::Standing);
    assert_eq!(s.airborne_check(false, true, false), PlayerMovementState::Falling);
    assert_eq!(s.airborne_check(false, false, true), PlayerMovementState::Jumping);
    assert_eq!(s.airborne_check(false, false, false), PlayerMovementState::Walking);
    assert_eq!(PlayerMovementState::Climbing.airborne_check(true, false, false), PlayerMovementState::Climbing);
    assert_eq!(PlayerMovementState::Standing.after_move(true, true, true), PlayerMovementState::Climbing);
    assert_eq!(PlayerMovementState::Standing.after_move(false, true, true), PlayerMovementState::Standing);
    assert_eq!(PlayerMovementState::Climbing.after_climb(true, true), PlayerMovementState::Standing);
    assert_eq!(PlayerMovementState::Climbing.after_climb(false, true), PlayerMovementState::Climbing);
    assert_eq!(PlayerMovementState::Jumping.after_climb(true, true), PlayerMovementState::Jumping);
    assert_eq!(PlayerMovementState::Standing.by_speed(SpeedClass::Run), PlayerMovementState::Running);
    assert_eq!(PlayerMovementState::Running.by_speed(SpeedClass::Walk), PlayerMovementState::Walking);
    assert_eq!(PlayerMovementState::Walking.by_speed(SpeedClass::Rest), PlayerMovementState::Standing);
    assert_eq!(PlayerMovementState::Walking.by_speed(SpeedClass::Unordered), PlayerMovementState::Walking);
    assert_eq!(PlayerMovementState::Falling.by_speed(SpeedClass::Run), PlayerMovementState::Falling);
    assert!(want_to_climb(true, false, false, false));
    assert!(!want_to_climb(true, false, true, false));
    assert!(!want_to_climb(false, false, false, false));
    assert!(hazard_hurts(true, true, true));
    assert!(!hazard_hurts(false, true, true));
}

fn ladder_room() -> Level {
    // 2 x 2: ladder, solid / ladder, air.
    Level {
        tile_image_name: "t.png".to_string(),
        tile_values: vec![1, 2, 1, 3],
        map_dimensions: Coords { x: 2, y: 2 },
        tile_size: 32,
        tileset_columns: 3,
        tileset: TiledTileSet {
            columns: 3,
            image: "t.png".to_string(),
            imageheight: 32,
            imagewidth: 96,
            margin: 0,
            name: "t".to_string(),
            spacing: 0,
            tilecount: 3,
            tiledversion: "1".to_string(),
            tileheight: 32,
            tiles: vec![
                TiledSetTiles { id: 0, tile_type: "ladder".to_string() },
                TiledSetTiles { id: 1, tile_type: "solid".to_string() },
                TiledSetTiles { id: 2, tile_type: "".to_string() },
            ],
            tilewidth: 32,
            set_type: "tileset".to_string(),
            version: "1".to_string(),
        },
        x_coord: 0,
        y_coord: 0,
    }
}

#[test]
fn pixels_map_to_tiles_towards_zero() {
    assert_eq!(pixel_to_tile(0), 0);
    assert_eq!(pixel_to_tile(31), 0);
    assert_eq!(pixel_to_tile(32), 1);
    assert_eq!(pixel_to_tile(-1), 0);
    assert_eq!(pixel_to_tile(-33), -1);
    assert_eq!(pixel_to_tile(i32::MIN), i32::MIN / 32);
}

#[test]
fn ladders_and_solid_ground_under_the_player() {
    let l = ladder_room();
    let p = |x: i32, y: i32| Coords { x, y };
    assert_eq!(check_for_ladder(&l, [p(5, 20), p(40, 20)], [p(5, 40), p(40, 40)]), Some(p(0, 1)));
    assert_eq!(check_for_ladder(&l, [p(40, 40), p(40, 20)], [p(5, 40), p(40, 40)]), None);
    assert_eq!(check_for_ladder(&l, [p(5, 20), p(40, 20)], [p(40, 40), p(40, 41)]), None);
    assert_eq!(check_for_ladder(&l, [p(5, 20), p(5, 20)], [p(40, 40), p(-40, 40)]), Some(p(-1, 1)));
    assert!(is_tile_solid(&l, 1, 0));
    assert!(!is_tile_solid(&l, 0, 0));
    assert!(!is_tile_solid(&l, 5, 5));
    let air = [p(40, 40); 6];
    assert!(!over_solid_tile(&l, air));
    let mut some = air;
    some[5] = p(40, 10);
    assert!(over_solid_tile(&l, some));
}

#[test]
fn hazards_below_the_feet_cost_one_health() {
    let mut l = ladder_room();
    l.tileset.tiles[2].tile_type = "hazard".to_string();
    let p = |x: i32, y: i32| Coords { x, y };
    assert!(l.is_hazard(p(1, 1)));
    assert!(!l.is_hazard(p(1, 0)));
    assert!(!l.is_hazard(p(2, 1)));
    assert!(touching_hazard_below(&l, [p(5, 40), p(40, 40)]));
    assert!(touching_hazard_below(&l, [p(40, 50), p(5, 40)]));
    assert!(!touching_hazard_below(&l, [p(5, 40), p(40, 10)]));
    assert!(!touching_hazard_below(&l, [p(70, 40), p(40, 70)]));

    let mut game = CurrentGame::new();
    assert!(hazard_damage(&mut game, true, true, true));
    assert_eq!(game.health, MAX_HEALTH - 1);
    assert!(!hazard_damage(&mut game, true, false, true));
    assert!(!hazard_damage(&mut game, false, true, true));
    assert!(!hazard_damage(&mut game, true, true, false));
    assert_eq!(game.health, MAX_HEALTH - 1);
    game.health = 0;
    assert!(hazard_damage(&mut game, true, true, true));
    assert_eq!(game.health, MAX_HEALTH);
}
