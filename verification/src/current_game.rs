//! The progress of the game being played: health, collected stars and
//! the inventory.

use vstd::prelude::*;
use crate::item::ItemInv;
use crate::strings::same_text;

verus! {

/// The most health the player can have.
pub const MAX_HEALTH: u32 = 10;

/// The stages the story goes through.
pub enum GameStages {
    Day1,
    Evening,
    Normal1,
}

/// The pairs that a list of stars names.
pub open spec fn star_set(s: Seq<(String, i32)>) -> Set<(Seq<char>, i32)> {
    Set::new(|p: (Seq<char>, i32)| exists|i: int| 0 <= i < s.len() && #[trigger] s[i].0@ == p.0 && s[i].1 == p.1)
}

/// A set of stars, each an area's name and the star's number in it.
pub struct StarSet {
    stars: Vec<(String, i32)>,
}

impl View for StarSet {
    type V = Set<(Seq<char>, i32)>;

    closed spec fn view(&self) -> Set<(Seq<char>, i32)> {
        star_set(self.stars@)
    }
}

impl StarSet {
    /// No star is listed twice.
    #[verifier::type_invariant]
    closed spec fn listed_once(&self) -> bool {
        forall|i: int, j: int|
            0 <= i < self.stars@.len() && 0 <= j < self.stars@.len() && i != j ==> !(
            #[trigger] self.stars@[i].0@ == #[trigger] self.stars@[j].0@ && self.stars@[i].1
                == self.stars@[j].1)
    }

    /// The empty set.
    pub fn new() -> (r: Self)
        ensures
            r@ == Set::<(Seq<char>, i32)>::empty(),
    {
        let r = StarSet { stars: Vec::new() };
        assert(r@ =~= Set::<(Seq<char>, i32)>::empty());
        r
    }

    /// Whether star `id` of `area` is in the set.
    pub fn contains(&self, area: &str, id: i32) -> (r: bool)
        ensures
            r == self@.contains((area@, id)),
    {
        let n = self.stars.len();
        let mut i: usize = 0;
        while i < n
            invariant
                n == self.stars@.len(),
                i <= n,
                forall|j: int|
                    0 <= j < i ==> !(#[trigger] self.stars@[j].0@ == area@ && self.stars@[j].1 == id),
            decreases n - i,
        {
            if self.stars[i].1 == id && same_text(self.stars[i].0.as_str(), area) {
                assert(star_set(self.stars@).contains((area@, id)));
                return true;
            }
            i += 1;
        }
        false
    }

    /// Adds star `id` of `area`; a star already there stays once.
    pub fn insert(&mut self, area: &str, id: i32)
        ensures
            final(self)@ == old(self)@.insert((area@, id)),
    {
        proof {
            use_type_invariant(&*self);
        }
        if self.contains(area, id) {
            assert(self@ =~= self@.insert((area@, id)));
            return;
        }
        let mut stars: Vec<(String, i32)> = Vec::new();
        std::mem::swap(&mut stars, &mut self.stars);
        let ghost s = stars@;
        stars.push((String::from_str(area), id));
        proof {
            assert forall|i: int| 0 <= i < s.len() implies #[trigger] stars@[i] == s[i] by {}
            assert forall|i: int, j: int|
                0 <= i < stars@.len() && 0 <= j < stars@.len() && i != j implies !(
                #[trigger] stars@[i].0@ == #[trigger] stars@[j].0@ && stars@[i].1
                    == stars@[j].1) by {
                if i < s.len() && j < s.len() {
                } else if i < s.len() {
                    assert(star_set(s).contains((s[i].0@, s[i].1)));
                } else {
                    assert(star_set(s).contains((s[j].0@, s[j].1)));
                }
            }
            assert(star_set(stars@) =~= star_set(s).insert((area@, id))) by {
                assert(stars@[s.len() as int].0@ == area@);
                assert forall|p: (Seq<char>, i32)| star_set(s).contains(p) implies star_set(
                    stars@,
                ).contains(p) by {
                    let i = choose|i: int| 0 <= i < s.len() && #[trigger] s[i].0@ == p.0 && s[i].1 == p.1;
                    assert(stars@[i] == s[i]);
                }
                assert forall|p: (Seq<char>, i32)| star_set(stars@).contains(p) && p != (area@, id) implies star_set(
                    s,
                ).contains(p) by {
                    let i = choose|i: int| 0 <= i < stars@.len() && #[trigger] stars@[i].0@ == p.0 && stars@[i].1 == p.1;
                    assert(i < s.len());
                    assert(s[i] == stars@[i]);
                }
            }
        }
        self.stars = stars;
    }

    /// Empties the set.
    pub fn clear(&mut self)
        ensures
            final(self)@ == Set::<(Seq<char>, i32)>::empty(),
    {
        self.stars = Vec::new();
        assert(self@ =~= Set::<(Seq<char>, i32)>::empty());
    }

    /// The stars of the set, each listed once.
    pub fn list(&self) -> (r: &Vec<(String, i32)>)
        ensures
            star_set(r@) == self@,
            forall|i: int, j: int|
                0 <= i < r@.len() && 0 <= j < r@.len() && i != j ==> !(#[trigger] r@[i].0@
                    == #[trigger] r@[j].0@ && r@[i].1 == r@[j].1),
    {
        proof {
            use_type_invariant(self);
        }
        &self.stars
    }
}

/// How many items of the inventory carry the name `name`.
pub open spec fn count_named(inv: Seq<ItemInv>, name: Seq<char>) -> int
    decreases inv.len(),
{
    if inv.len() == 0 {
        0
    } else {
        count_named(inv.drop_last(), name) + if inv.last().name@ == name { 1int } else { 0int }
    }
}

/// Counting over a prefix of the inventory finds no more than over all
/// of it.
pub proof fn lemma_count_prefix(inv: Seq<ItemInv>, name: Seq<char>, k: int)
    requires
        0 <= k <= inv.len(),
    ensures
        0 <= count_named(inv.take(k), name) <= count_named(inv, name),
        count_named(inv.take(k), name) <= k,
    decreases inv.len(),
{
    if inv.len() > 0 {
        let t = inv.drop_last();
        if k < inv.len() {
            assert(inv.take(k) =~= t.take(k));
            lemma_count_prefix(t, name, k);
        } else {
            assert(inv.take(k) =~= inv);
            lemma_count_prefix(t, name, t.len() as int);
            assert(t.take(t.len() as int) =~= t);
        }
    } else {
        assert(inv.take(k) =~= inv);
    }
}

/// The health left after taking `damage`: a blow that is more than the
/// health left restores it to the full `MAX_HEALTH`.
pub open spec fn health_after(health: u32, damage: u32) -> u32 {
    if health < damage {
        MAX_HEALTH
    } else {
        (health - damage) as u32
    }
}

/// The game being played.
pub struct CurrentGame {
    pub save_name: String,
    pub health: u32,
    pub stars_collected: StarSet,
    pub temp_value: i32,
    pub inventory: Vec<ItemInv>,
}

impl CurrentGame {
    /// A game at its start: full health, no stars, an empty inventory.
    pub fn new() -> (r: Self)
        ensures
            r.health == MAX_HEALTH,
            r.stars_collected@ == Set::<(Seq<char>, i32)>::empty(),
            r.save_name@ == Seq::<char>::empty(),
            r.temp_value == 0,
            r.inventory@.len() == 0,
    {
        CurrentGame {
            health: MAX_HEALTH,
            stars_collected: StarSet::new(),
            save_name: String::new(),
            temp_value: 0,
            inventory: Vec::new(),
        }
    }

    /// Sets the scratch value.
    pub fn edit_temp(&mut self, new_value: i32)
        ensures
            final(self).temp_value == new_value,
            final(self).health == old(self).health,
            final(self).stars_collected == old(self).stars_collected,
            final(self).save_name == old(self).save_name,
            final(self).inventory == old(self).inventory,
    {
        self.temp_value = new_value;
    }

    /// Restores full health and forgets the collected stars.
    pub fn reset(&mut self)
        ensures
            final(self).health == MAX_HEALTH,
            final(self).stars_collected@ == Set::<(Seq<char>, i32)>::empty(),
            final(self).save_name == old(self).save_name,
            final(self).temp_value == old(self).temp_value,
            final(self).inventory == old(self).inventory,
    {
        self.health = MAX_HEALTH;
        self.stars_collected.clear();
    }

    /// Takes `damage` off the health; a blow bigger than the health left
    /// restores it to full instead.
    pub fn reduce_health(&mut self, damage: u32)
        ensures
            final(self).health == health_after(old(self).health, damage),
            final(self).stars_collected == old(self).stars_collected,
            final(self).save_name == old(self).save_name,
            final(self).temp_value == old(self).temp_value,
            final(self).inventory == old(self).inventory,
    {
        if self.health < damage {
            self.health = MAX_HEALTH;
        } else {
            self.health -= damage;
        }
    }

    /// Records star `id` of `area` as collected.
    pub fn collect_star(&mut self, area: &str, id: i32)
        ensures
            final(self).stars_collected@ == old(self).stars_collected@.insert((area@, id)),
            final(self).health == old(self).health,
            final(self).save_name == old(self).save_name,
            final(self).temp_value == old(self).temp_value,
            final(self).inventory == old(self).inventory,
    {
        self.stars_collected.insert(area, id);
    }

    /// Whether star `id` of `area` has been collected.
    pub fn is_star_collected(&mut self, area: &str, id: i32) -> (r: bool)
        ensures
            r == old(self).stars_collected@.contains((area@, id)),
            *final(self) == *old(self),
    {
        self.stars_collected.contains(area, id)
    }

    /// The collected stars.
    pub fn get_stars(&self) -> (r: &StarSet)
        ensures
            r == &self.stars_collected,
    {
        &self.stars_collected
    }

    /// Puts an item into the inventory.
    pub fn add_to_inv(&mut self, item: ItemInv)
        ensures
            final(self).inventory@ == old(self).inventory@.push(item),
            final(self).health == old(self).health,
            final(self).stars_collected == old(self).stars_collected,
            final(self).save_name == old(self).save_name,
            final(self).temp_value == old(self).temp_value,
    {
        self.inventory.push(item);
    }

    /// How many items named `item_name` are in the inventory.
    pub fn item_in_inv(&self, item_name: &str) -> (r: i32)
        requires
            count_named(self.inventory@, item_name@) <= i32::MAX,
        ensures
            r == count_named(self.inventory@, item_name@),
    {
        let mut count: i32 = 0;
        let n = self.inventory.len();
        let mut i: usize = 0;
        while i < n
            invariant
                n == self.inventory@.len(),
                count_named(self.inventory@, item_name@) <= i32::MAX,
                i <= n,
                count == count_named(self.inventory@.take(i as int), item_name@),
                0 <= count,
            decreases n - i,
        {
            assert(self.inventory@.take(i + 1).drop_last() =~= self.inventory@.take(i as int));
            proof {
                lemma_count_prefix(self.inventory@, item_name@, i + 1);
            }
            if same_text(self.inventory[i].name.as_str(), item_name) {
                count += 1;
            }
            i += 1;
        }
        assert(self.inventory@.take(n as int) =~= self.inventory@);
        count
    }
}

/// Once a star is collected it is found collected, and the other stars
/// keep their state.
pub proof fn law_collected_star_is_found(
    before: Set<(Seq<char>, i32)>,
    after: Set<(Seq<char>, i32)>,
    area: Seq<char>,
    id: i32,
    other: (Seq<char>, i32),
)
    requires
        after == before.insert((area, id)),
    ensures
        after.contains((area, id)),
        other != (area, id) ==> (after.contains(other) == before.contains(other)),
{
}

/// Health never goes above `MAX_HEALTH`: no blow takes it there from
/// below, and a blow never leaves it at zero unless it was exactly spent.
pub proof fn law_health_bounded(health: u32, damage: u32)
    requires
        health <= MAX_HEALTH,
    ensures
        health_after(health, damage) <= MAX_HEALTH,
        health_after(health, damage) == 0 <==> health == damage,
{
}

/// Adding an item raises the count of its name by one and leaves the
/// count of every other name as it was.
pub proof fn law_add_then_count(inv: Seq<ItemInv>, item: ItemInv, name: Seq<char>)
    ensures
        count_named(inv.push(item), item.name@) == count_named(inv, item.name@) + 1,
        name != item.name@ ==> count_named(inv.push(item), name) == count_named(inv, name),
{
    assert(inv.push(item).drop_last() =~= inv);
}

/// A blow no bigger than the health left takes exactly its damage off,
/// so two such blows in a row leave the health that one blow of both
/// their damages leaves.
pub proof fn law_damage_taken_off(health: u32, a: u32, b: u32)
    ensures
        health >= a ==> health_after(health, a) == health - a,
        health_after(health, 0) == health,
        health >= a + b ==> health_after(health_after(health, a), b) == health_after(
            health,
            (a + b) as u32,
        ),
{
}

} // verus!
