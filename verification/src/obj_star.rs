//! Stars: each can be collected once, by touching it, after which it is
//! no longer shown.

use vstd::prelude::*;
use crate::current_game::CurrentGame;
use crate::game_state::StateTransition;
use crate::level::Coords;
use crate::resources::{get_text, spec_get_text, Resources};

verus! {

/// Star `id` of an area.
pub struct StarInGame {
    pub id: i32,
    pub area: String,
}

impl StarInGame {
    /// Star `id` of `area`.
    pub fn new(id: i32, area: String) -> (r: StarInGame)
        ensures
            r.id == id,
            r.area == area,
    {
        StarInGame { id, area }
    }

    /// Whether the star has been collected in `game`.
    pub fn is_collected(&self, game: &mut CurrentGame) -> (r: bool)
        ensures
            r == old(game).stars_collected@.contains((self.area@, self.id)),
            *final(game) == *old(game),
    {
        game.is_star_collected(self.area.as_str(), self.id)
    }

    /// The hint shown while the player touches the star: nothing once it
    /// is collected, else the text named `obj_star_collected`.
    pub fn get_hud_text<'a, T, O, C>(&self, res: &'a Resources<T, O, C>, game: &mut CurrentGame) -> (r: &'a str)
        ensures
            old(game).stars_collected@.contains((self.area@, self.id)) ==> r@ == ""@,
            !old(game).stars_collected@.contains((self.area@, self.id)) ==> r@ == spec_get_text(
                res,
                "obj_star_collected"@,
            ),
            *final(game) == *old(game),
    {
        if self.is_collected(game) {
            ""
        } else {
            get_text(res, "obj_star_collected")
        }
    }

    /// Touching the star collects it, once.
    pub fn contact<S>(&self, game: &mut CurrentGame) -> (r: StateTransition<S>)
        ensures
            r is Stay,
            final(game).stars_collected@ == old(game).stars_collected@.insert((self.area@, self.id)),
            final(game).health == old(game).health,
            final(game).save_name == old(game).save_name,
            final(game).temp_value == old(game).temp_value,
            final(game).inventory == old(game).inventory,
    {
        let collected = game.is_star_collected(self.area.as_str(), self.id);
        if !collected {
            game.collect_star(self.area.as_str(), self.id);
        } else {
            assert(game.stars_collected@ =~= game.stars_collected@.insert((self.area@, self.id)));
        }
        StateTransition::Stay
    }

    /// Interacting with a star does nothing.
    pub fn interact<S>(&self) -> (r: StateTransition<S>)
        ensures
            r is Stay,
    {
        StateTransition::Stay
    }

    /// A star is shown until it is collected.
    pub fn is_visible(&self, game: &mut CurrentGame) -> (r: bool)
        ensures
            r == !old(game).stars_collected@.contains((self.area@, self.id)),
            *final(game) == *old(game),
    {
        !self.is_collected(game)
    }
}

/// A star as the objects file of an area lists it.
pub struct StarFromFile {
    pub id: i32,
    pub room_x: i32,
    pub room_y: i32,
    pub pos_x: i32,
    pub pos_y: i32,
}

impl StarFromFile {
    /// The room the star is in.
    pub fn room_coords(&self) -> (r: Coords)
        ensures
            r == (Coords { x: self.room_x, y: self.room_y }),
    {
        Coords { x: self.room_x, y: self.room_y }
    }

    /// The star of `area_name` that the record describes.
    pub fn to_star(&self, area_name: &str) -> (r: StarInGame)
        ensures
            r.id == self.id,
            r.area@ == area_name@,
    {
        StarInGame::new(self.id, String::from_str(area_name))
    }
}

/// A star, once touched, is collected and hidden, and touching it again
/// changes nothing.
pub proof fn law_touched_star_hidden(stars: Set<(Seq<char>, i32)>, star: (Seq<char>, i32))
    ensures
        stars.insert(star).contains(star),
        stars.insert(star).insert(star) == stars.insert(star),
{
    assert(stars.insert(star).insert(star) =~= stars.insert(star));
}

} // verus!
