//! The shared arena of live entities: an explicit slot arena keyed by a
//! generation-checked index. Systems mark entities for removal during a
//! tick; the marks are applied in one sweep after every system has run,
//! so no system observes a partially destroyed entity.

use vstd::prelude::*;
use crate::components::{CLifespan, CShape};
use crate::kinematics::CTransform;

verus! {

/// The closed set of entity categories of the arena game.
#[derive(Clone, Copy, Debug, PartialEq, Eq, Structural)]
pub enum Category {
    Player,
    Enemy,
    Bullet,
}

/// One live thing in the arena: its category tag and its component set.
#[derive(Clone, Copy, Debug, PartialEq, Eq, Structural)]
pub struct Entity {
    pub category: Category,
    pub transform: CTransform,
    pub shape: CShape,
    pub collision_radius: i64,
    pub lifespan: Option<CLifespan>,
}

/// A slot of the arena: its reuse generation, its occupant if any, and
/// whether the occupant is marked for removal at the end of the tick.
#[derive(Clone, Copy, Debug, PartialEq, Eq, Structural)]
pub struct Slot {
    pub generation: u64,
    pub occupant: Option<Entity>,
    pub doomed: bool,
}

/// A handle to a spawned entity: stale handles are detected because the
/// slot's generation moves on when the occupant is destroyed.
#[derive(Clone, Copy, Debug, PartialEq, Eq, Structural)]
pub struct EntityId {
    pub index: usize,
    pub generation: u64,
}

/// The entity store.
#[derive(Clone, Debug)]
pub struct Store {
    pub slots: Vec<Slot>,
}

/// The slot holds an entity of the given category (marked or not).
pub open spec fn live_cat(slot: Slot, cat: Category) -> bool {
    match slot.occupant {
        Some(e) => e.category == cat,
        None => false,
    }
}

/// The first free slot at or after `i`, if any.
pub open spec fn first_free_from(s: Seq<Slot>, i: int) -> Option<int>
    decreases s.len() - i,
{
    if i < 0 || i >= s.len() {
        None
    } else if s[i].occupant is None {
        Some(i)
    } else {
        first_free_from(s, i + 1)
    }
}

/// A found free index is in range and free.
pub proof fn lemma_first_free_from_props(s: Seq<Slot>, i: int)
    ensures
        match first_free_from(s, i) {
            Some(j) => i <= j < s.len() && s[j].occupant is None,
            None => true,
        },
    decreases s.len() - i,
{
    if 0 <= i < s.len() && !(s[i].occupant is None) {
        lemma_first_free_from_props(s, i + 1);
    }
}

/// Where `spawn` puts a new entity: the first free slot, reusing its
/// generation, or a fresh slot pushed at the end.
pub open spec fn spawn_slot_spec(s: Seq<Slot>, e: Entity) -> Seq<Slot> {
    match first_free_from(s, 0) {
        Some(i) => s.update(
            i,
            Slot { generation: s[i].generation, occupant: Some(e), doomed: false },
        ),
        None => s.push(Slot { generation: 0, occupant: Some(e), doomed: false }),
    }
}

/// What the end-of-tick sweep does to one slot: a marked slot is emptied
/// and its generation moves on; every other slot is untouched.
pub open spec fn sweep_slot_spec(slot: Slot) -> Slot {
    if slot.doomed {
        Slot {
            generation: if slot.generation == u64::MAX {
                0
            } else {
                (slot.generation + 1) as u64
            },
            occupant: None,
            doomed: false,
        }
    } else {
        slot
    }
}

/// How many slots hold an entity of the given category.
pub open spec fn count_cat_from(s: Seq<Slot>, cat: Category, i: int) -> int
    decreases s.len() - i,
{
    if i < 0 || i >= s.len() {
        0
    } else {
        (if live_cat(s[i], cat) {
            1int
        } else {
            0int
        }) + count_cat_from(s, cat, i + 1)
    }
}

/// The first slot holding an entity of the given category at or after
/// `i`, if any.
pub open spec fn first_cat_from(s: Seq<Slot>, cat: Category, i: int) -> Option<int>
    decreases s.len() - i,
{
    if i < 0 || i >= s.len() {
        None
    } else if live_cat(s[i], cat) {
        Some(i)
    } else {
        first_cat_from(s, cat, i + 1)
    }
}

/// A found first-category index is in range and holds the category.
pub proof fn lemma_first_cat_from_props(s: Seq<Slot>, cat: Category, i: int)
    ensures
        match first_cat_from(s, cat, i) {
            Some(j) => i <= j < s.len() && live_cat(s[j], cat),
            None => true,
        },
    decreases s.len() - i,
{
    if 0 <= i < s.len() && !live_cat(s[i], cat) {
        lemma_first_cat_from_props(s, cat, i + 1);
    }
}

/// The single slot of the given category — `None` when there is none or
/// more than one, mirroring a singleton query that fails on both.
pub open spec fn unique_cat(s: Seq<Slot>, cat: Category) -> Option<int> {
    if count_cat_from(s, cat, 0) == 1 {
        first_cat_from(s, cat, 0)
    } else {
        None
    }
}

impl Store {
    /// An empty store.
    pub fn new() -> (store: Store)
        ensures
            store.slots@.len() == 0,
    {
        Store { slots: Vec::new() }
    }

    /// Create an entity in the first free slot (or a fresh one) and hand
    /// back its generation-checked id.
    pub fn spawn(&mut self, e: Entity) -> (id: EntityId)
        requires
            old(self).slots@.len() < usize::MAX,
        ensures
            final(self).slots@ == spawn_slot_spec(old(self).slots@, e),
            id.index < final(self).slots@.len(),
            final(self).slots@[id.index as int].occupant == Some(e),
            final(self).slots@[id.index as int].generation == id.generation,
    {
        let n = self.slots.len();
        let mut i: usize = 0;
        while i < n
            invariant
                0 <= i <= n,
                self.slots@ == old(self).slots@,
                n == self.slots@.len() < usize::MAX,
                first_free_from(self.slots@, 0) == first_free_from(self.slots@, i as int),
                forall|j: int| 0 <= j < i ==> (#[trigger] self.slots@[j]).occupant is Some,
            decreases n - i,
        {
            if self.slots[i].occupant.is_none() {
                let generation = self.slots[i].generation;
                self.slots.set(i, Slot { generation, occupant: Some(e), doomed: false });
                return EntityId { index: i, generation };
            }
            i = i + 1;
        }
        self.slots.push(Slot { generation: 0, occupant: Some(e), doomed: false });
        EntityId { index: n, generation: 0 }
    }

    /// Look an entity up by id; a stale or out-of-range id yields `None`.
    pub fn get(&self, id: EntityId) -> (r: Option<Entity>)
        ensures
            r == (if id.index < self.slots@.len() && self.slots@[id.index as int].generation
                == id.generation {
                self.slots@[id.index as int].occupant
            } else {
                None::<Entity>
            }),
    {
        if id.index < self.slots.len() {
            let slot = self.slots[id.index];
            if slot.generation == id.generation {
                slot.occupant
            } else {
                None
            }
        } else {
            None
        }
    }

    /// Mark the entity in slot `i` for removal at the end of the tick.
    pub fn mark_doomed(&mut self, i: usize)
        requires
            i < old(self).slots@.len(),
        ensures
            final(self).slots@ == old(self).slots@.update(
                i as int,
                Slot { doomed: true, ..old(self).slots@[i as int] },
            ),
    {
        let slot = self.slots[i];
        self.slots.set(i, Slot { doomed: true, ..slot });
    }

    /// Apply the deferred removals: every marked slot is emptied and its
    /// generation moves on.
    pub fn sweep(&mut self)
        ensures
            final(self).slots@ == old(self).slots@.map_values(|slot: Slot| sweep_slot_spec(slot)),
    {
        let n = self.slots.len();
        let mut i: usize = 0;
        while i < n
            invariant
                0 <= i <= n,
                n == self.slots@.len(),
                forall|j: int|
                    0 <= j < i ==> self.slots@[j] == sweep_slot_spec(#[trigger] old(
                        self,
                    ).slots@[j]),
                forall|j: int| i <= j < n ==> self.slots@[j] == old(self).slots@[j],
            decreases n - i,
        {
            let slot = self.slots[i];
            if slot.doomed {
                let generation = if slot.generation == u64::MAX {
                    0
                } else {
                    slot.generation + 1
                };
                self.slots.set(i, Slot { generation, occupant: None, doomed: false });
            }
            i = i + 1;
        }
        proof {
            assert(self.slots@ =~= old(self).slots@.map_values(
                |slot: Slot| sweep_slot_spec(slot),
            ));
        }
    }

    /// Find the slot of the single entity of `cat`, or `None` when there
    /// is none or more than one.
    pub fn find_unique(&self, cat: Category) -> (r: Option<usize>)
        ensures
            match r {
                Some(i) => unique_cat(self.slots@, cat) == Some(i as int),
                None => unique_cat(self.slots@, cat) is None,
            },
    {
        let n = self.slots.len();
        let mut i: usize = 0;
        let mut count: usize = 0;
        let mut found: Option<usize> = None;
        while i < n
            invariant
                0 <= i <= n,
                n == self.slots@.len(),
                count <= i,
                count_cat_from(self.slots@, cat, 0) == count + count_cat_from(
                    self.slots@,
                    cat,
                    i as int,
                ),
                match found {
                    Some(f) => count >= 1 && first_cat_from(self.slots@, cat, 0) == Some(f as int),
                    None => count == 0 && first_cat_from(self.slots@, cat, 0) == first_cat_from(
                        self.slots@,
                        cat,
                        i as int,
                    ),
                },
            decreases n - i,
        {
            let slot = self.slots[i];
            let matches_cat = match slot.occupant {
                Some(e) => e.category == cat,
                None => false,
            };
            if matches_cat {
                count = count + 1;
                if found.is_none() {
                    found = Some(i);
                }
            }
            i = i + 1;
        }
        if count == 1 {
            found
        } else {
            None
        }
    }
}

} // verus!
