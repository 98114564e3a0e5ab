//! The objects file of an area: its checkpoints, doors, characters and
//! stars, each with the room it is in. `N` is a character's record.

use vstd::prelude::*;
use crate::obj_checkpoint::CheckpointFromFile;
use crate::obj_door::DoorFromFile;
use crate::obj_star::StarFromFile;

verus! {

/// The objects of an area, by kind; a kind that the file leaves out is
/// `None`.
pub struct RoomObjectsFromFile<N> {
    pub checkpoints: Option<Vec<CheckpointFromFile>>,
    pub doors: Option<Vec<DoorFromFile>>,
    pub npcs: Option<Vec<N>>,
    pub stars: Option<Vec<StarFromFile>>,
}

/// The index of the last checkpoint of the list whose id is `id`.
pub open spec fn last_with_id(list: Seq<CheckpointFromFile>, id: i32) -> Option<int>
    decreases list.len(),
{
    if list.len() == 0 {
        None
    } else if list.last().id == id {
        Some(list.len() - 1)
    } else {
        last_with_id(list.drop_last(), id)
    }
}

/// The index found is that of a checkpoint with the id.
pub proof fn lemma_last_with_id(list: Seq<CheckpointFromFile>, id: i32)
    ensures
        last_with_id(list, id) matches Some(i) ==> 0 <= i < list.len() && list[i].id == id,
    decreases list.len(),
{
    if list.len() > 0 && list.last().id != id {
        lemma_last_with_id(list.drop_last(), id);
    }
}

impl<N> RoomObjectsFromFile<N> {
    /// The checkpoint with id `id`; when several have it, the last one.
    pub fn find_checkpoint(&self, id: i32) -> (r: Option<&CheckpointFromFile>)
        ensures
            self.checkpoints is None ==> r is None,
            self.checkpoints matches Some(list) ==> match last_with_id(list@, id) {
                Some(i) => r == Some(&list@[i]),
                None => r is None,
            },
    {
        match &self.checkpoints {
            None => None,
            Some(list) => {
                let mut found: Option<&CheckpointFromFile> = None;
                let n = list.len();
                let mut i: usize = 0;
                while i < n
                    invariant
                        n == list@.len(),
                        i <= n,
                        match last_with_id(list@.take(i as int), id) {
                            Some(j) => found == Some(&list@[j]),
                            None => found is None,
                        },
                    decreases n - i,
                {
                    assert(list@.take(i + 1).drop_last() =~= list@.take(i as int));
                    if list[i].id == id {
                        found = Some(&list[i]);
                    }
                    i += 1;
                    proof {
                        let t = list@.take(i as int);
                        lemma_last_with_id(t, id);
                        match last_with_id(t, id) {
                            Some(j) => {
                                assert(t[j] == list@[j]);
                            },
                            None => {},
                        }
                    }
                }
                assert(list@.take(n as int) =~= list@);
                found
            },
        }
    }
}

} // verus!

verus! {

/// The checkpoint a save resumes at carries the saved id, and no
/// checkpoint listed after it does; when none is found, no listed
/// checkpoint carries the id.
pub proof fn law_resume_at_last_checkpoint_with_id(list: Seq<CheckpointFromFile>, id: i32)
    ensures
        last_with_id(list, id) matches Some(i) ==> 0 <= i < list.len() && list[i].id == id && (
        forall|j: int| i < j < list.len() ==> #[trigger] list[j].id != id),
        last_with_id(list, id) is None ==> forall|j: int| 0 <= j < list.len() ==> #[trigger] list[j].id
            != id,
    decreases list.len(),
{
    if list.len() > 0 && list.last().id != id {
        let t = list.drop_last();
        law_resume_at_last_checkpoint_with_id(t, id);
        assert forall|j: int| 0 <= j < t.len() implies list[j] == t[j] by {}
    }
}

} // verus!
