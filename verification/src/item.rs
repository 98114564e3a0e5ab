//! Items that the player carries.

use vstd::prelude::*;
use crate::game_state::StateTransition;

verus! {

/// An item in the inventory.
pub struct ItemInv {
    pub name: String,
    pub can_drop: bool,
    pub use_primary_hint: String,
    pub use_second_hint: String,
}

impl ItemInv {
    /// An item with a name, two hints and whether it can be dropped.
    pub fn new(name: String, use_primary_hint: String, use_second_hint: String, can_drop: bool) -> (r: Self)
        ensures
            r.name == name,
            r.use_primary_hint == use_primary_hint,
            r.use_second_hint == use_second_hint,
            r.can_drop == can_drop,
    {
        ItemInv { name, use_primary_hint, use_second_hint, can_drop }
    }
}

/// Uses the item named `item_name`. No item changes the game state yet;
/// the second value tells whether the name is that of a known item.
pub fn item_function<S>(item_name: &str) -> (r: (StateTransition<S>, bool))
    ensures
        r.0 is Stay,
        r.1 == (item_name@ == "test_item1"@),
{
    let known = crate::strings::same_text(item_name, "test_item1");
    (StateTransition::Stay, known)
}

} // verus!
