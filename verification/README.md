# game_25

A small tile-based platformer. The rules of the game live in the verified
library under `src/`; the window, input devices, files and drawing live in
the program under `app/`.

## Library (`src/`)

- `strings`, `names`: reading and writing integers, splitting names, and
  the names rooms are stored under (`area_x_y`, `x_y`, `dir/area_x_y.tmj`).
- `store`, `resources`: tables of assets kept by name, and the game-text
  files read into the text table (parsed with serde_json).
- `current_game`, `item`: health, collected stars and the inventory.
- `game_state`: the stack of game states, starting a new game, saving and
  loading.
- `menu`, `controls`, `text`: menu navigation and the menu box's layout,
  button state and names, text layout.
- `level`, `level_state`, `hud`, `area`: rooms made of tiles, entering a
  room, the minimap and walking from room to room.
- `player`: movement states, the tiles under the player and hazard damage.
- `obj_checkpoint`, `obj_door`, `obj_npc`, `obj_star`, `room_obj_from_file`,
  `cutscene`: the objects placed in rooms, dialogs and cutscenes.

## Program (`app/`)

The main loop, drawing with macroquad, gamepad input with gilrs, file
dialogs with rfd, walking the asset directory with walkdir, reading the
other asset files with serde_json, and the
player's floating-point physics.
