use game_25::current_game::{CurrentGame, StarSet, MAX_HEALTH};
use game_25::game_state::{save_start, GameStateStack, NewGameState, NewGameStep, SaveData, StateTransition};
use game_25::item::{item_function, ItemInv};
use game_25::obj_checkpoint::{Checkpoint, CheckpointFromFile};
use game_25::room_obj_from_file::RoomObjectsFromFile;
use game_25::level::Coords;

fn item(name: &str) -> ItemInv {
    ItemInv::new(name.to_string(), "use".to_string(), "drop".to_string(), true)
}

#[test]
fn new_game_starts_full_and_empty() {
    let g = CurrentGame::new();
    assert_eq!(g.health, MAX_HEALTH);
    assert_eq!(g.health, 10);
    assert!(g.get_stars().list().is_empty());
    assert_eq!(g.save_name, "");
    assert_eq!(g.temp_value, 0);
    assert!(g.inventory.is_empty());
}

#[test]
fn damage_lowers_health_and_overkill_refills_it() {
    let mut g = CurrentGame::new();
    g.reduce_health(3);
    assert_eq!(g.health, 7);
    g.reduce_health(7);
    assert_eq!(g.health, 0);
    g.reduce_health(1);
    assert_eq!(g.health, MAX_HEALTH);
    g.reduce_health(0);
    assert_eq!(g.health, MAX_HEALTH);
    g.reduce_health(11);
    assert_eq!(g.health, MAX_HEALTH);
}

#[test]
fn collected_stars_are_found_and_reset_forgets_them() {
    let mut g = CurrentGame::new();
    assert!(!g.is_star_collected("a1", 0));
    g.collect_star("a1", 0);
    g.collect_star("a1", 0);
    g.collect_star("a2", 0);
    assert!(g.is_star_collected("a1", 0));
    assert!(g.is_star_collected("a2", 0));
    assert!(!g.is_star_collected("a1", 1));
    assert_eq!(g.get_stars().list().len(), 2);
    g.reduce_health(4);
    g.edit_temp(9);
    g.reset();
    assert_eq!(g.health, MAX_HEALTH);
    assert!(!g.is_star_collected("a1", 0));
    assert_eq!(g.temp_value, 9);
}

#[test]
fn inventory_counts_items_by_name() {
    let mut g = CurrentGame::new();
    assert_eq!(g.item_in_inv("key"), 0);
    g.add_to_inv(item("key"));
    g.add_to_inv(item("map"));
    g.add_to_inv(item("key"));
    assert_eq!(g.item_in_inv("key"), 2);
    assert_eq!(g.item_in_inv("map"), 1);
    assert_eq!(g.item_in_inv("ke"), 0);
}

#[test]
fn items_keep_what_they_are_made_with() {
    let i = ItemInv::new("lamp".to_string(), "light".to_string(), "put down".to_string(), false);
    assert_eq!(i.name, "lamp");
    assert_eq!(i.use_primary_hint, "light");
    assert_eq!(i.use_second_hint, "put down");
    assert!(!i.can_drop);
    let (t, known) = item_function::<u8>("test_item1");
    assert!(matches!(t, StateTransition::Stay));
    assert!(known);
    let (t, known) = item_function::<u8>("other");
    assert!(matches!(t, StateTransition::Stay));
    assert!(!known);
}

#[test]
fn star_set_holds_each_star_once() {
    let mut s = StarSet::new();
    s.insert("a", 1);
    s.insert("a", 1);
    s.insert("a", 2);
    s.insert("b", 1);
    assert_eq!(s.list().len(), 3);
    assert!(s.contains("b", 1));
    s.clear();
    assert!(!s.contains("b", 1));
}

#[test]
fn stack_push_pop_replace() {
    let mut st = GameStateStack::new(1);
    st.push(2);
    st.push(3);
    assert_eq!(st.states, vec![1, 2, 3]);
    st.replace(4);
    assert_eq!(st.states, vec![1, 2, 4]);
    st.pop();
    assert_eq!(st.states, vec![1, 2]);
    st.pop();
    st.pop();
    assert!(st.is_empty());
    st.pop();
    assert!(st.is_empty());
    st.replace(7);
    assert_eq!(st.states, vec![7]);
}

#[test]
fn stack_update_applies_transitions() {
    let mut st = GameStateStack::new(1);
    st.update(StateTransition::Push(2));
    st.update(StateTransition::Push(3));
    st.update(StateTransition::Stay);
    assert_eq!(st.states, vec![1, 2, 3]);
    st.update(StateTransition::Replace(9));
    assert_eq!(st.states, vec![1, 2, 9]);
    st.update(StateTransition::Pop(-1));
    assert_eq!(st.states, vec![1, 2, 9]);
    st.update(StateTransition::Pop(0));
    assert_eq!(st.states, vec![1, 2, 9]);
    st.update(StateTransition::Pop(2));
    assert_eq!(st.states, vec![1]);
    st.update(StateTransition::Push(5));
    st.update(StateTransition::Pop(5));
    assert!(st.is_empty());
    st.update(StateTransition::Push(6));
    assert!(st.is_empty());
}

#[test]
fn push_then_pop_gives_the_stack_back() {
    let mut st = GameStateStack::new(1);
    st.push(2);
    st.update(StateTransition::Push(3));
    st.update(StateTransition::Pop(1));
    assert_eq!(st.states, vec![1, 2]);
}

#[test]
fn drawing_starts_at_topmost_opaque_state() {
    let mut st = GameStateStack::new(0);
    st.push(1);
    st.push(2);
    st.push(3);
    assert_eq!(st.draw(&vec![false, false, true, true]), 1);
    assert_eq!(st.draw(&vec![false, false, true, false]), 3);
    assert_eq!(st.draw(&vec![true, true, true, true]), 0);
    assert_eq!(st.draw(&vec![false, true, true, true]), 0);
}

#[test]
fn new_game_plays_intro_then_first_room() {
    let mut g = CurrentGame::new();
    g.collect_star("a1", 3);
    g.reduce_health(5);
    let mut s = NewGameState::new(&mut g);
    assert!(!s.cutscene_done);
    assert_eq!(g.health, MAX_HEALTH);
    assert!(!g.is_star_collected("a1", 3));
    match s.update() {
        NewGameStep::PlayCutscene(name) => assert_eq!(name, "intro"),
        NewGameStep::StartLevel(_) => panic!("expected the intro first"),
    }
    assert!(s.cutscene_done);
    match s.update() {
        NewGameStep::StartLevel(level) => assert_eq!(level, "a1_0_0"),
        NewGameStep::PlayCutscene(_) => panic!("expected the first room"),
    }
}

fn checkpoint(id: i32, room_x: i32, room_y: i32, pos_x: i32, pos_y: i32) -> CheckpointFromFile {
    CheckpointFromFile { id, room_x, room_y, pos_x, pos_y }
}

#[test]
fn saves_record_checkpoint_and_stars() {
    let mut g = CurrentGame::new();
    g.collect_star("a1", 1);
    g.collect_star("a2", 4);
    let c = Checkpoint::new(2, "a1".to_string());
    let save = SaveData::from_checkpoint(&c, g.get_stars());
    assert_eq!(save.area, "a1");
    assert_eq!(save.checkpoint, 2);
    let mut stars = save.stars_collected.clone();
    stars.sort();
    assert_eq!(stars, vec![("a1".to_string(), 1), ("a2".to_string(), 4)]);
}

#[test]
fn loading_a_save_starts_at_its_checkpoint() {
    let save = SaveData { area: "a1".to_string(), checkpoint: 2, stars_collected: vec![] };
    let objects: RoomObjectsFromFile<u8> = RoomObjectsFromFile {
        checkpoints: Some(vec![checkpoint(1, 0, 0, 1, 1), checkpoint(2, 3, -1, 4, 5), checkpoint(2, 1, 2, 6, 7)]),
        doors: None,
        npcs: None,
        stars: None,
    };
    let start = save_start(&save, &objects);
    assert_eq!(start.level, "a1_1_2");
    assert_eq!(start.tile, Some(Coords { x: 6, y: 7 }));
    let lost = SaveData { area: "a1".to_string(), checkpoint: 9, stars_collected: vec![] };
    let start = save_start(&lost, &objects);
    assert_eq!(start.level, "a1_0_0");
    assert_eq!(start.tile, None);
    let empty: RoomObjectsFromFile<u8> = RoomObjectsFromFile { checkpoints: None, doors: None, npcs: None, stars: None };
    assert_eq!(save_start(&save, &empty).level, "a1_0_0");
    assert_eq!(objects.find_checkpoint(1).unwrap().room_x, 0);
    assert!(objects.find_checkpoint(5).is_none());
}
