//! The stack of game states: menus, levels and cutscenes on top of each
//! other, the top one running.

use vstd::prelude::*;
use crate::current_game::{star_set, CurrentGame, StarSet, MAX_HEALTH};
use crate::level::Coords;
use crate::names::{room_name, spec_room_name};
use crate::obj_checkpoint::Checkpoint;
use crate::room_obj_from_file::{last_with_id, RoomObjectsFromFile};

verus! {

/// What the running state asks of the stack after an update.
pub enum StateTransition<S> {
    Stay,
    Replace(S),
    Push(S),
    Pop(i32),
}

} // verus!

verus! {

/// The stack after `t` is applied to `states`.
pub open spec fn apply_transition<S>(states: Seq<S>, t: StateTransition<S>) -> Seq<S> {
    match t {
        StateTransition::Stay => states,
        StateTransition::Replace(s) => if states.len() > 0 {
            states.drop_last().push(s)
        } else {
            seq![s]
        },
        StateTransition::Push(s) => states.push(s),
        StateTransition::Pop(n) => if n <= 0 {
            states
        } else if n >= states.len() {
            Seq::empty()
        } else {
            states.take(states.len() - n)
        },
    }
}

/// Where drawing starts: the topmost state that hides what is below it,
/// or the bottom of the stack when every state lets the ones below show.
pub open spec fn first_drawn(transparent: Seq<bool>) -> int
    decreases transparent.len(),
{
    if transparent.len() == 0 {
        0
    } else if !transparent.last() {
        transparent.len() - 1
    } else {
        first_drawn(transparent.drop_last())
    }
}

/// The game states, the last one on top.
pub struct GameStateStack<S> {
    pub states: Vec<S>,
}

impl<S> GameStateStack<S> {
    /// A stack holding `initial` alone.
    pub fn new(initial: S) -> (r: Self)
        ensures
            r.states@ == seq![initial],
    {
        GameStateStack { states: vec![initial] }
    }

    /// Applies what the top state asked for after its update. An empty
    /// stack has no state to ask, and stays as it is.
    pub fn update(&mut self, transition: StateTransition<S>)
        ensures
            old(self).states@.len() == 0 ==> final(self).states@ == old(self).states@,
            old(self).states@.len() > 0 ==> final(self).states@ == apply_transition(
                old(self).states@,
                transition,
            ),
    {
        if self.states.len() == 0 {
            return;
        }
        match transition {
            StateTransition::Stay => {},
            StateTransition::Replace(new_state) => self.replace(new_state),
            StateTransition::Push(new_state) => self.push(new_state),
            StateTransition::Pop(number) => self.pop_many(number),
        }
    }

    /// Takes `number` states off the top, as many as there are at most.
    pub fn pop_many(&mut self, number: i32)
        ensures
            final(self).states@ == apply_transition(old(self).states@, StateTransition::Pop(number)),
    {
        let mut k: i32 = 0;
        while k < number
            invariant
                0 <= k,
                number > 0 ==> k <= number,
                number <= 0 ==> k == 0,
                self.states@ == (if k >= old(self).states@.len() {
                    Seq::<S>::empty()
                } else {
                    old(self).states@.take(old(self).states@.len() - k)
                }),
            decreases number - k,
        {
            self.pop();
            k += 1;
            proof {
                if k < old(self).states@.len() {
                    assert(self.states@ =~= old(self).states@.take(old(self).states@.len() - k));
                }
            }
        }
        proof {
            if number <= 0 {
                assert(old(self).states@.take(old(self).states@.len() as int) =~= old(self).states@);
                if old(self).states@.len() == 0 {
                    assert(old(self).states@ =~= Seq::<S>::empty());
                }
            }
        }
    }

    /// The index from which the states are drawn, bottom to top, given
    /// whether each state lets the ones below it show.
    pub fn draw(&self, transparent: &Vec<bool>) -> (r: usize)
        requires
            transparent@.len() == self.states@.len(),
        ensures
            r == first_drawn(transparent@),
            self.states@.len() > 0 ==> r < self.states@.len(),
            forall|i: int| r < i < transparent@.len() ==> #[trigger] transparent@[i],
            r > 0 ==> !transparent@[r as int],
    {
        let mut i = transparent.len();
        assert(transparent@.take(i as int) =~= transparent@);
        while i > 0
            invariant
                i <= transparent@.len(),
                transparent@.len() == self.states@.len(),
                forall|j: int| i <= j < transparent@.len() ==> #[trigger] transparent@[j],
                first_drawn(transparent@) == first_drawn(transparent@.take(i as int)),
            decreases i,
        {
            assert(transparent@.take(i as int).drop_last() =~= transparent@.take(i - 1));
            if !transparent[i - 1] {
                return i - 1;
            }
            i -= 1;
        }
        assert(transparent@.take(0) =~= Seq::<bool>::empty());
        0
    }

    /// Puts a state on top.
    pub fn push(&mut self, state: S)
        ensures
            final(self).states@ == old(self).states@.push(state),
    {
        self.states.push(state);
    }

    /// Takes the top state off, if there is one.
    pub fn pop(&mut self)
        ensures
            old(self).states@.len() > 0 ==> final(self).states@ == old(self).states@.drop_last(),
            old(self).states@.len() == 0 ==> final(self).states@ == old(self).states@,
    {
        let _ = self.states.pop();
    }

    /// Takes the top state off and puts `state` in its place.
    pub fn replace(&mut self, state: S)
        ensures
            old(self).states@.len() > 0 ==> final(self).states@ == old(self).states@.drop_last().push(
                state,
            ),
            old(self).states@.len() == 0 ==> final(self).states@ == seq![state],
    {
        self.pop();
        self.push(state);
    }

    /// Whether the stack has no state left.
    pub fn is_empty(&self) -> (r: bool)
        ensures
            r == (self.states@.len() == 0),
    {
        self.states.is_empty()
    }
}

/// Pushing a state and then popping one gives the stack back.
pub proof fn law_push_then_pop<S>(states: Seq<S>, s: S)
    ensures
        apply_transition(apply_transition(states, StateTransition::Push(s)), StateTransition::Pop(1))
            == states,
{
    assert(states.push(s).take(states.len() as int) =~= states);
}

/// Popping `n` states leaves the bottom `len - n` of them in order, or
/// none when `n` is the height of the stack or more.
pub proof fn law_pop_keeps_bottom<S>(states: Seq<S>, n: i32, i: int)
    requires
        0 <= n,
        0 <= i < states.len() - n,
    ensures
        apply_transition(states, StateTransition::Pop(n)).len() == states.len() - n,
        apply_transition(states, StateTransition::Pop(n))[i] == states[i],
{
}

/// Replacing the top state keeps the height of a non-empty stack and
/// puts the new state on top.
pub proof fn law_replace_keeps_height<S>(states: Seq<S>, s: S)
    requires
        states.len() > 0,
    ensures
        apply_transition(states, StateTransition::Replace(s)).len() == states.len(),
        apply_transition(states, StateTransition::Replace(s)).last() == s,
{
}

} // verus!

verus! {

/// The state that starts a new game: first the intro cutscene, then the
/// first room.
#[derive(Clone, Copy, PartialEq, Eq, Structural, Debug)]
pub struct NewGameState {
    pub cutscene_done: bool,
}

/// What starting a new game asks for next.
pub enum NewGameStep {
    /// Push the cutscene with this name.
    PlayCutscene(String),
    /// Replace this state with the room stored under this name.
    StartLevel(String),
}

impl NewGameState {
    /// Starts a new game: the game's health and stars are reset.
    pub fn new(game: &mut CurrentGame) -> (r: Self)
        ensures
            !r.cutscene_done,
            final(game).health == MAX_HEALTH,
            final(game).stars_collected@ == Set::<(Seq<char>, i32)>::empty(),
            final(game).save_name == old(game).save_name,
            final(game).temp_value == old(game).temp_value,
            final(game).inventory == old(game).inventory,
    {
        game.reset();
        NewGameState { cutscene_done: false }
    }

    /// The first update plays the intro; the next one starts the first
    /// room, `a1_0_0`.
    pub fn update(&mut self) -> (r: NewGameStep)
        ensures
            final(self).cutscene_done,
            !old(self).cutscene_done ==> (r matches NewGameStep::PlayCutscene(name) && name@
                == "intro"@),
            old(self).cutscene_done ==> (r matches NewGameStep::StartLevel(level) && level@
                == spec_room_name("a1"@, 0, 0)),
    {
        if !self.cutscene_done {
            self.cutscene_done = true;
            NewGameStep::PlayCutscene(String::from_str("intro"))
        } else {
            NewGameStep::StartLevel(room_name("a1", 0, 0))
        }
    }
}

/// What a save file holds: where the game was saved, and the stars.
pub struct SaveData {
    pub area: String,
    pub checkpoint: i32,
    pub stars_collected: Vec<(String, i32)>,
}

impl SaveData {
    /// The save made at `checkpoint` with the stars collected so far.
    pub fn from_checkpoint(checkpoint: &Checkpoint, stars: &StarSet) -> (r: SaveData)
        ensures
            r.area@ == checkpoint.area@,
            r.checkpoint == checkpoint.id,
            star_set(r.stars_collected@) == stars@,
    {
        let list = stars.list();
        let mut copy: Vec<(String, i32)> = Vec::new();
        let n = list.len();
        let mut i: usize = 0;
        while i < n
            invariant
                n == list@.len(),
                i <= n,
                copy@.len() == i,
                forall|j: int| 0 <= j < i ==> #[trigger] copy@[j].0@ == list@[j].0@ && copy@[j].1
                    == list@[j].1,
            decreases n - i,
        {
            copy.push((list[i].0.clone(), list[i].1));
            i += 1;
        }
        assert(star_set(copy@) =~= star_set(list@)) by {
            assert forall|p: (Seq<char>, i32)| star_set(copy@).contains(p) implies star_set(
                list@,
            ).contains(p) by {
                let j = choose|j: int| 0 <= j < copy@.len() && #[trigger] copy@[j].0@ == p.0 && copy@[j].1 == p.1;
                assert(list@[j].0@ == p.0);
            }
            assert forall|p: (Seq<char>, i32)| star_set(list@).contains(p) implies star_set(
                copy@,
            ).contains(p) by {
                let j = choose|j: int| 0 <= j < list@.len() && #[trigger] list@[j].0@ == p.0 && list@[j].1 == p.1;
                assert(copy@[j].0@ == p.0);
            }
        }
        SaveData { area: checkpoint.area.clone(), checkpoint: checkpoint.id, stars_collected: copy }
    }
}

/// Where a loaded save starts: the room to load and, when the saved
/// checkpoint is found in the area's objects, its tile.
pub struct SaveStart {
    pub level: String,
    pub tile: Option<Coords>,
}

/// Where the game saved in `save` resumes, given the objects of the saved
/// area: in the room of the saved checkpoint (the last one listed with its
/// id), on its tile; in room `0_0` of the area when there is none.
pub fn save_start<N>(save: &SaveData, objects: &RoomObjectsFromFile<N>) -> (r: SaveStart)
    ensures
        ({
            let found = match objects.checkpoints {
                Some(list) => match last_with_id(list@, save.checkpoint) {
                    Some(i) => Some(list@[i]),
                    None => None,
                },
                None => None,
            };
            match found {
                Some(c) => r.level@ == spec_room_name(save.area@, c.room_x as int, c.room_y as int)
                    && r.tile == Some(Coords { x: c.pos_x, y: c.pos_y }),
                None => r.level@ == spec_room_name(save.area@, 0, 0) && r.tile is None,
            }
        }),
{
    match objects.find_checkpoint(save.checkpoint) {
        Some(c) => SaveStart {
            level: room_name(save.area.as_str(), c.room_x, c.room_y),
            tile: Some(Coords { x: c.pos_x, y: c.pos_y }),
        },
        None => SaveStart { level: room_name(save.area.as_str(), 0, 0), tile: None },
    }
}

} // verus!
