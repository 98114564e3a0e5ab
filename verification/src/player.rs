//! The player's movement states and how they change, and the tiles the
//! player's body is over: ladders to climb, solid ground and hazards.
//!
//! Positions come in as whole pixels; a tile is 32 pixels wide and high.

use vstd::prelude::*;
use crate::current_game::{health_after, CurrentGame};
use crate::level::{Coords, Level};

verus! {

/// What the player is doing.
#[derive(Clone, Copy, PartialEq, Eq, Structural, Debug)]
pub enum PlayerMovementState {
    Standing,
    Walking,
    Running,
    Jumping,
    Falling,
    Climbing,
}

/// How fast the player moves sideways: faster than walking, faster than
/// a standstill, at most a standstill, or none of these (a speed that
/// compares with nothing).
#[derive(Clone, Copy, PartialEq, Eq, Structural, Debug)]
pub enum SpeedClass {
    Run,
    Walk,
    Rest,
    Unordered,
}

impl PlayerMovementState {
    /// Whether the state is one of moving on the ground or through the air,
    /// as opposed to climbing.
    pub open spec fn free(self) -> bool {
        self != PlayerMovementState::Climbing
    }

    /// The state before moving: off the ground, falling or rising as the
    /// vertical speed says; on the ground, standing. Climbing is kept.
    pub open spec fn spec_airborne_check(self, on_ground: bool, moving_down: bool, moving_up: bool) -> Self {
        if !self.free() {
            self
        } else if on_ground {
            PlayerMovementState::Standing
        } else if moving_down {
            PlayerMovementState::Falling
        } else if moving_up {
            PlayerMovementState::Jumping
        } else {
            self
        }
    }

    /// On the ground the state follows the sideways speed: running,
    /// walking or standing. Other states are kept.
    pub open spec fn spec_by_speed(self, speed: SpeedClass) -> Self {
        if self == PlayerMovementState::Standing || self == PlayerMovementState::Walking || self
            == PlayerMovementState::Running {
            match speed {
                SpeedClass::Run => PlayerMovementState::Running,
                SpeedClass::Walk => PlayerMovementState::Walking,
                SpeedClass::Rest => PlayerMovementState::Standing,
                SpeedClass::Unordered => self,
            }
        } else {
            self
        }
    }

    /// The state before moving, as `spec_airborne_check` gives it.
    pub fn airborne_check(self, on_ground: bool, moving_down: bool, moving_up: bool) -> (r: Self)
        ensures
            r == self.spec_airborne_check(on_ground, moving_down, moving_up),
    {
        match self {
            PlayerMovementState::Climbing => self,
            _ => {
                if !on_ground {
                    if moving_down {
                        PlayerMovementState::Falling
                    } else if moving_up {
                        PlayerMovementState::Jumping
                    } else {
                        self
                    }
                } else {
                    PlayerMovementState::Standing
                }
            },
        }
    }

    /// After moving: on the ground, at a ladder, and wanting to climb, the
    /// player starts climbing.
    pub fn after_move(self, on_ground: bool, at_ladder: bool, want_to_climb: bool) -> (r: Self)
        ensures
            r == if self.free() && on_ground && at_ladder && want_to_climb {
                PlayerMovementState::Climbing
            } else {
                self
            },
    {
        match self {
            PlayerMovementState::Climbing => self,
            _ => {
                if on_ground && at_ladder && want_to_climb {
                    PlayerMovementState::Climbing
                } else {
                    self
                }
            },
        }
    }

    /// While climbing: still at a ladder and getting off it, the player
    /// stands.
    pub fn after_climb(self, at_ladder: bool, getting_off: bool) -> (r: Self)
        ensures
            r == if !self.free() && at_ladder && getting_off {
                PlayerMovementState::Standing
            } else {
                self
            },
    {
        match self {
            PlayerMovementState::Climbing => {
                if at_ladder && getting_off {
                    PlayerMovementState::Standing
                } else {
                    self
                }
            },
            _ => self,
        }
    }

    /// The state after a move, as `spec_by_speed` gives it.
    pub fn by_speed(self, speed: SpeedClass) -> (r: Self)
        ensures
            r == self.spec_by_speed(speed),
    {
        match self {
            PlayerMovementState::Standing | PlayerMovementState::Walking
            | PlayerMovementState::Running => match speed {
                SpeedClass::Run => PlayerMovementState::Running,
                SpeedClass::Walk => PlayerMovementState::Walking,
                SpeedClass::Rest => PlayerMovementState::Standing,
                SpeedClass::Unordered => self,
            },
            _ => self,
        }
    }
}

/// The player wants onto a ladder: up or down held, and neither left nor
/// right.
pub fn want_to_climb(up: bool, down: bool, left: bool, right: bool) -> (r: bool)
    ensures
        r == ((up || down) && !(left || right)),
{
    (up || down) && !(left || right)
}

/// The pixel `p` divided by the tile size, rounded towards zero as
/// integer division does.
pub open spec fn spec_pixel_to_tile(p: i32) -> i32 {
    if p >= 0 {
        (p / 32) as i32
    } else {
        (-((-p) / 32)) as i32
    }
}

/// The tile that pixel `p` (a column or a row) lies in.
pub fn pixel_to_tile(p: i32) -> (r: i32)
    ensures
        r == spec_pixel_to_tile(p),
{
    if p >= 0 {
        p / 32
    } else {
        let q: i64 = (-(p as i64)) / 32;
        (-q) as i32
    }
}

/// The tile that the pixel point `p` lies in.
pub open spec fn tile_of(p: Coords) -> Coords {
    Coords { x: spec_pixel_to_tile(p.x), y: spec_pixel_to_tile(p.y) }
}

/// Whether there is a ladder at the tile of pixel point `p`.
pub open spec fn ladder_at(l: Level, p: Coords) -> bool {
    l.spec_tile_info(tile_of(p)).ladder
}

/// Whether the tile at `(tx, ty)` is solid.
pub fn is_tile_solid(level: &Level, tx: i32, ty: i32) -> (r: bool)
    requires
        level.tile_ok(Coords { x: tx, y: ty }),
    ensures
        r == level.spec_tile_info(Coords { x: tx, y: ty }).solid,
{
    level.get_tile_info(Coords { x: tx, y: ty }).solid
}

/// Whether there is a ladder at the tile of pixel point `p`.
fn ladder_at_point(level: &Level, p: Coords) -> (r: bool)
    requires
        level.tile_ok(tile_of(p)),
    ensures
        r == ladder_at(*level, p),
{
    let t = Coords { x: pixel_to_tile(p.x), y: pixel_to_tile(p.y) };
    level.get_tile_info(t).ladder
}

/// The ladder the player is on, if any. `middle` are two points halfway
/// down the player's body, `low` two points at its feet: there must be a
/// ladder at one of each. The ladder found is the tile of the first low
/// point at a ladder.
pub fn check_for_ladder(level: &Level, middle: [Coords; 2], low: [Coords; 2]) -> (r: Option<Coords>)
    requires
        level.tile_ok(tile_of(middle[0])),
        !ladder_at(*level, middle[0]) ==> level.tile_ok(tile_of(middle[1])),
        ladder_at(*level, middle[0]) || ladder_at(*level, middle[1]) ==> level.tile_ok(
            tile_of(low[0]),
        ),
        (ladder_at(*level, middle[0]) || ladder_at(*level, middle[1])) && !ladder_at(
            *level,
            low[0],
        ) ==> level.tile_ok(tile_of(low[1])),
    ensures
        r == if (ladder_at(*level, middle[0]) || ladder_at(*level, middle[1])) && (ladder_at(
            *level,
            low[0],
        ) || ladder_at(*level, low[1])) {
            Some(if ladder_at(*level, low[0]) { tile_of(low[0]) } else { tile_of(low[1]) })
        } else {
            None::<Coords>
        },
{
    let on_middle = ladder_at_point(level, middle[0]) || ladder_at_point(level, middle[1]);
    if !on_middle {
        return None;
    }
    if ladder_at_point(level, low[0]) {
        Some(Coords { x: pixel_to_tile(low[0].x), y: pixel_to_tile(low[0].y) })
    } else if ladder_at_point(level, low[1]) {
        Some(Coords { x: pixel_to_tile(low[1].x), y: pixel_to_tile(low[1].y) })
    } else {
        None
    }
}

/// Whether any of the six points around the player's body is in a solid
/// tile.
pub fn over_solid_tile(level: &Level, points: [Coords; 6]) -> (r: bool)
    requires
        forall|i: int|
            0 <= i < 6 && (forall|j: int| 0 <= j < i ==> !level.spec_tile_info(tile_of(points[j])).solid)
                ==> level.tile_ok(#[trigger] tile_of(points[i])),
    ensures
        r == exists|i: int| 0 <= i < 6 && #[trigger] level.spec_tile_info(tile_of(points[i])).solid,
{
    let mut i: usize = 0;
    while i < 6
        invariant
            forall|i: int|
                0 <= i < 6 && (forall|j: int| 0 <= j < i ==> !level.spec_tile_info(tile_of(points[j])).solid)
                    ==> level.tile_ok(#[trigger] tile_of(points[i])),
            i <= 6,
            forall|j: int| 0 <= j < i ==> !#[trigger] level.spec_tile_info(tile_of(points[j])).solid,
        decreases 6 - i,
    {
        let p = points[i];
        let t = Coords { x: pixel_to_tile(p.x), y: pixel_to_tile(p.y) };
        assert(t == tile_of(points[i as int]));
        if level.get_tile_info(t).solid {
            assert(level.spec_tile_info(tile_of(points[i as int])).solid);
            return true;
        }
        i += 1;
    }
    false
}

/// Whether landing on a hazard hurts now: on the ground, with the time
/// since the last hurt run out, and touching a hazard below.
pub fn hazard_hurts(on_ground: bool, damage_timer_spent: bool, touching_hazard: bool) -> (r: bool)
    ensures
        r == (on_ground && damage_timer_spent && touching_hazard),
{
    on_ground && damage_timer_spent && touching_hazard
}

/// Whether either point just below the player's feet is in a hazard
/// tile.
pub fn touching_hazard_below(level: &Level, feet: [Coords; 2]) -> (r: bool)
    requires
        level.tile_ok(tile_of(feet[0])),
        !level.spec_is_hazard(tile_of(feet[0])) ==> level.tile_ok(tile_of(feet[1])),
    ensures
        r == (level.spec_is_hazard(tile_of(feet[0])) || level.spec_is_hazard(tile_of(feet[1]))),
{
    let a = feet[0];
    if level.is_hazard(Coords { x: pixel_to_tile(a.x), y: pixel_to_tile(a.y) }) {
        return true;
    }
    let b = feet[1];
    level.is_hazard(Coords { x: pixel_to_tile(b.x), y: pixel_to_tile(b.y) })
}

/// The step of a frame in which a hazard may hurt: where it hurts (see
/// `hazard_hurts`) the game loses one health, and the result says so, so
/// that the time until the next hurt can start; otherwise the game is
/// left as it was.
pub fn hazard_damage(
    game: &mut CurrentGame,
    on_ground: bool,
    damage_timer_spent: bool,
    touching_hazard: bool,
) -> (r: bool)
    ensures
        r == (on_ground && damage_timer_spent && touching_hazard),
        r ==> final(game).health == health_after(old(game).health, 1),
        r ==> final(game).stars_collected == old(game).stars_collected,
        r ==> final(game).save_name == old(game).save_name,
        r ==> final(game).temp_value == old(game).temp_value,
        r ==> final(game).inventory == old(game).inventory,
        !r ==> *final(game) == *old(game),
{
    if hazard_hurts(on_ground, damage_timer_spent, touching_hazard) {
        game.reduce_health(1);
        true
    } else {
        false
    }
}

/// A player on the ground is never left jumping or falling by the checks
/// made before moving, and climbing is only ever left by getting off a
/// ladder.
pub proof fn law_ground_and_climb(s: PlayerMovementState, down: bool, up: bool, speed: SpeedClass)
    ensures
        s.free() ==> s.spec_airborne_check(true, down, up) == PlayerMovementState::Standing,
        s == PlayerMovementState::Climbing ==> s.spec_airborne_check(false, down, up) == s
            && s.spec_by_speed(speed) == s,
{
}

/// The sideways speed changes only the state of a player on the ground:
/// one in the air or on a ladder keeps its state whatever the speed.
pub proof fn law_speed_moves_only_the_grounded(s: PlayerMovementState, speed: SpeedClass)
    ensures
        s == PlayerMovementState::Jumping || s == PlayerMovementState::Falling || s
            == PlayerMovementState::Climbing ==> s.spec_by_speed(speed) == s,
        s.spec_by_speed(speed) == PlayerMovementState::Running ==> speed == SpeedClass::Run || s
            == PlayerMovementState::Running,
{
}

} // verus!
