//! Game rules of a small tile-based platformer: the current game's
//! progress, the stack of game states, menus, rooms made of tiles and
//! the names under which rooms are stored.

pub mod strings;
pub mod names;
pub mod store;
pub mod item;
pub mod current_game;
pub mod game_state;
pub mod level;
pub mod resources;
pub mod hud;
pub mod menu;
pub mod controls;
pub mod obj_checkpoint;
pub mod obj_star;
pub mod obj_door;
pub mod obj_npc;
pub mod room_obj_from_file;
pub mod level_state;
pub mod area;
pub mod cutscene;
pub mod player;
pub mod text;
