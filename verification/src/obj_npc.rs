//! Characters to talk to, and the state that shows a dialog line by line.

use vstd::prelude::*;
use crate::game_state::StateTransition;
use crate::resources::Resources;
use crate::strings::same_text;

verus! {

/// What talking to a character starts.
pub enum NpcAction {
    /// Show the dialog named by the string, with the character's function
    /// at its `fn` lines.
    Talk(String),
    /// The character has nothing to say.
    NoNpc,
}

/// What talking to the character `npc_name` starts.
pub fn npc_function(npc_name: &str) -> (r: NpcAction)
    ensures
        npc_name@ == "Test1"@ ==> (r matches NpcAction::Talk(lines) && lines@ == "test1"@),
        npc_name@ != "Test1"@ ==> r is NoNpc,
{
    if same_text(npc_name, "Test1") {
        NpcAction::Talk(String::from_str("test1"))
    } else {
        NpcAction::NoNpc
    }
}

/// A character in a room.
pub struct NpcInGame {
    pub npc_type: String,
    pub image: String,
}

impl NpcInGame {
    /// A character of type `npc_type` drawn with `image`.
    pub fn new(npc_type: String, image: String) -> (r: Self)
        ensures
            r.npc_type == npc_type,
            r.image == image,
    {
        NpcInGame { npc_type, image }
    }

    /// Talking to the character.
    pub fn interact(&self) -> (r: NpcAction)
        ensures
            self.npc_type@ == "Test1"@ ==> (r matches NpcAction::Talk(lines) && lines@ == "test1"@),
            self.npc_type@ != "Test1"@ ==> r is NoNpc,
    {
        npc_function(self.npc_type.as_str())
    }

    /// Touching a character does nothing.
    pub fn contact<S>(&self) -> (r: StateTransition<S>)
        ensures
            r is Stay,
    {
        StateTransition::Stay
    }

    /// Characters are always drawn.
    pub fn is_visible(&self) -> (r: bool)
        ensures
            r,
    {
        true
    }
}

/// A dialog being shown, line by line. `F` is the function run at the
/// lines that read `fn`.
pub struct TalkState<F> {
    pub lines: Vec<String>,
    pub function: Option<F>,
    pub current_line: usize,
}

/// What one frame of a dialog asks for: the change to the state stack,
/// and whether the dialog's function is to run now.
pub struct TalkUpdate<S> {
    pub transition: StateTransition<S>,
    pub run_function: bool,
}

impl<F> TalkState<F> {
    /// The dialog named `lines_name`, from its first line.
    pub fn new<T, O, C>(res: &Resources<T, O, C>, lines_name: &str, fun: Option<F>) -> (r: Self)
        requires
            res.npc_dialogs@.dom().contains(lines_name@),
        ensures
            r.lines@ == res.npc_dialogs@[lines_name@]@,
            r.function == fun,
            r.current_line == 0,
    {
        let lines = res.get_npc_dialog(lines_name).unwrap().clone();
        assert(lines@ =~= res.npc_dialogs@[lines_name@]@);
        TalkState { lines, function: fun, current_line: 0 }
    }

    /// One frame of the dialog. When the interact button was just let go
    /// the dialog moves to its next line, running its function at a line
    /// that reads `fn` and moving past it; after the last line it closes.
    pub fn update<S>(&mut self, released: bool) -> (r: TalkUpdate<S>)
        requires
            released ==> old(self).lines@.len() > 0,
        ensures
            final(self).lines == old(self).lines,
            final(self).function == old(self).function,
            !released ==> r.transition is Stay && !r.run_function && final(self).current_line
                == old(self).current_line,
            released && old(self).current_line >= old(self).lines@.len() - 1 ==> (r.transition
                matches StateTransition::Pop(n) && n == 1 && !r.run_function
                && final(self).current_line == old(self).current_line),
            released && old(self).current_line < old(self).lines@.len() - 1 ==> {
                let next = old(self).current_line + 1;
                let at_fn = old(self).lines@[next]@ == "fn"@;
                &&& r.transition is Stay
                &&& r.run_function == (at_fn && old(self).function is Some)
                &&& final(self).current_line == if at_fn { next + 1 } else { next }
            },
    {
        if released {
            if self.current_line < self.lines.len() - 1 {
                self.current_line += 1;
                let mut run = false;
                if same_text(self.lines[self.current_line].as_str(), "fn") {
                    run = self.function.is_some();
                    self.current_line += 1;
                }
                return TalkUpdate { transition: StateTransition::Stay, run_function: run };
            } else {
                return TalkUpdate { transition: StateTransition::Pop(1), run_function: false };
            }
        }
        TalkUpdate { transition: StateTransition::Stay, run_function: false }
    }
}

} // verus!
