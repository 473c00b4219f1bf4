//! The registry of who is who in the arena: the player, the floor, and the
//! objects that can be absorbed. It owns no entity; it records roles under
//! the handles its caller hands in.

use crate::vector::FixedVec3;
use vstd::prelude::*;

verus! {

/// The identity of a simulation object. Two handles name the same object
/// exactly when they are equal.
#[derive(Clone, Copy, Debug, PartialEq, Eq, Hash, Structural)]
pub struct EntityHandle {
    pub id: u64,
}

/// The part an entity plays.
#[derive(Clone, Copy, Debug, PartialEq, Eq, Structural)]
pub enum Role {
    Player,
    Floor,
    /// An object that still has its collider.
    FreeObject,
    /// An object that has been absorbed.
    AttachedObject,
}

/// Why the registry turned a registration down.
#[derive(Clone, Copy, Debug, PartialEq, Eq, Structural)]
pub enum RegistryError {
    /// There is a player, or a floor, already.
    AlreadyPresent,
    /// The handle has a role already.
    HandleInUse,
}

/// What the registry keeps of one object.
#[derive(Debug)]
pub struct ObjectRecord {
    handle: EntityHandle,
    name: String,
    category: String,
    attached: bool,
    position: FixedVec3,
}

/// An object record as plain values.
pub struct ObjectView {
    pub handle: EntityHandle,
    pub name: Seq<char>,
    pub category: Seq<char>,
    /// Whether the object has been absorbed, and its collider is gone.
    pub attached: bool,
    /// Where the object was last known to be: in the arena while it is
    /// free, relative to the player once it is attached.
    pub position: FixedVec3,
}

impl View for ObjectRecord {
    type V = ObjectView;

    closed spec fn view(&self) -> ObjectView {
        ObjectView {
            handle: self.handle,
            name: self.name@,
            category: self.category@,
            attached: self.attached,
            position: self.position,
        }
    }
}

impl ObjectRecord {
    pub fn handle(&self) -> (handle: EntityHandle)
        ensures
            handle == self@.handle,
    {
        self.handle
    }

    pub fn name(&self) -> (name: &String)
        ensures
            name@ == self@.name,
    {
        &self.name
    }

    pub fn category(&self) -> (category: &String)
        ensures
            category@ == self@.category,
    {
        &self.category
    }

    pub fn is_attached(&self) -> (attached: bool)
        ensures
            attached == self@.attached,
    {
        self.attached
    }

    pub fn position(&self) -> (position: FixedVec3)
        ensures
            position == self@.position,
    {
        self.position
    }
}

/// The registry as plain values: the two singletons, and the objects by
/// handle.
pub struct RegistryView {
    pub player: Option<EntityHandle>,
    pub floor: Option<EntityHandle>,
    pub objects: Map<EntityHandle, ObjectView>,
}

impl RegistryView {
    /// Every object is filed under its own handle, and no handle plays two
    /// parts.
    pub open spec fn valid(self) -> bool {
        &&& forall|h: EntityHandle| #[trigger]
            self.objects.contains_key(h) ==> self.objects[h].handle == h
        &&& self.player is Some ==> !self.objects.contains_key(self.player->0)
        &&& self.floor is Some ==> !self.objects.contains_key(self.floor->0)
        &&& self.player is Some && self.floor is Some ==> self.player != self.floor
    }

    /// The registry that knows nobody.
    pub open spec fn empty() -> RegistryView {
        RegistryView { player: None, floor: None, objects: Map::empty() }
    }

    /// Whether `h` has a role.
    pub open spec fn knows(self, h: EntityHandle) -> bool {
        self.player == Some(h) || self.floor == Some(h) || self.objects.contains_key(h)
    }

    /// Whether `h` is an object that has not been absorbed yet.
    pub open spec fn is_free(self, h: EntityHandle) -> bool {
        self.objects.contains_key(h) && !self.objects[h].attached
    }

    /// The role of `h`, if it has one. In a valid registry no handle has
    /// two.
    pub open spec fn role_of(self, h: EntityHandle) -> Option<Role> {
        if self.player == Some(h) {
            Some(Role::Player)
        } else if self.floor == Some(h) {
            Some(Role::Floor)
        } else if self.objects.contains_key(h) {
            if self.objects[h].attached {
                Some(Role::AttachedObject)
            } else {
                Some(Role::FreeObject)
            }
        } else {
            None
        }
    }

    /// The registry once the object `h` has been absorbed at `position`.
    pub open spec fn attach(self, h: EntityHandle, position: FixedVec3) -> RegistryView {
        RegistryView {
            objects: self.objects.insert(
                h,
                ObjectView { attached: true, position, ..self.objects[h] },
            ),
            ..self
        }
    }
}

/// The records file no handle twice.
spec fn distinct_handles(records: Seq<ObjectRecord>) -> bool {
    forall|i: int, j: int|
        0 <= i < records.len() && 0 <= j < records.len() && i != j ==> (#[trigger] records[i]@).handle
            != (#[trigger] records[j]@).handle
}

/// Whether some record is filed under `h`.
spec fn filed(records: Seq<ObjectRecord>, h: EntityHandle) -> bool {
    exists|i: int| 0 <= i < records.len() && (#[trigger] records[i]@).handle == h
}

/// Where the record of `h` stands, for a handle that is filed.
spec fn place_of(records: Seq<ObjectRecord>, h: EntityHandle) -> int {
    choose|i: int| 0 <= i < records.len() && (#[trigger] records[i]@).handle == h
}

/// The records as a map from handle to object.
spec fn by_handle(records: Seq<ObjectRecord>) -> Map<EntityHandle, ObjectView> {
    Map::new(|h: EntityHandle| filed(records, h), |h: EntityHandle| records[place_of(records, h)]@)
}

/// Among records with distinct handles, each is found where it stands.
proof fn lemma_place_of(records: Seq<ObjectRecord>, i: int)
    requires
        distinct_handles(records),
        0 <= i < records.len(),
    ensures
        filed(records, records[i]@.handle),
        place_of(records, records[i]@.handle) == i,
        by_handle(records)[records[i]@.handle] == records[i]@,
{
    let h = records[i]@.handle;
    assert(filed(records, h));
    let j = place_of(records, h);
    assert(0 <= j < records.len() && records[j]@.handle == h);
}

/// The roles of the arena's entities.
#[derive(Debug)]
pub struct EntityRegistry {
    player: Option<EntityHandle>,
    floor: Option<EntityHandle>,
    objects: Vec<ObjectRecord>,
}

impl View for EntityRegistry {
    type V = RegistryView;

    closed spec fn view(&self) -> RegistryView {
        RegistryView { player: self.player, floor: self.floor, objects: by_handle(self.objects@) }
    }
}

impl EntityRegistry {
    /// No handle is filed twice.
    pub closed spec fn records_distinct(&self) -> bool {
        distinct_handles(self.objects@)
    }

    /// The registry is sound.
    pub open spec fn wf(&self) -> bool {
        self.records_distinct() && self@.valid()
    }

    /// A registry that knows nobody.
    pub fn new() -> (registry: EntityRegistry)
        ensures
            registry.wf(),
            registry@ == RegistryView::empty(),
    {
        let registry = EntityRegistry { player: None, floor: None, objects: Vec::new() };
        assert(registry@.objects =~= Map::<EntityHandle, ObjectView>::empty());
        registry
    }

    /// Where the record of `h` stands, if there is one.
    fn find(&self, h: EntityHandle) -> (found: Option<usize>)
        requires
            self.wf(),
        ensures
            found is Some <==> self@.objects.contains_key(h),
            found matches Some(i) ==> i < self.objects@.len() && self.objects@[i as int]@
                == self@.objects[h] && self.objects@[i as int]@.handle == h,
    {
        let mut i: usize = 0;
        while i < self.objects.len()
            invariant
                self.wf(),
                i <= self.objects@.len(),
                forall|j: int| 0 <= j < i ==> (#[trigger] self.objects@[j]@).handle != h,
            decreases self.objects@.len() - i,
        {
            if self.objects[i].handle == h {
                proof {
                    lemma_place_of(self.objects@, i as int);
                }
                return Some(i);
            }
            i += 1;
        }
        None
    }

    /// Whether `h` has a role.
    pub fn knows(&self, h: EntityHandle) -> (known: bool)
        requires
            self.wf(),
        ensures
            known == self@.knows(h),
    {
        if self.player == Some(h) || self.floor == Some(h) {
            true
        } else {
            self.find(h).is_some()
        }
    }

    /// Records `h` as the player.
    pub fn set_player(&mut self, h: EntityHandle) -> (done: Result<(), RegistryError>)
        requires
            old(self).wf(),
        ensures
            final(self).wf(),
            old(self)@.player is Some ==> done == Err::<(), RegistryError>(
                RegistryError::AlreadyPresent,
            ),
            old(self)@.player is None && old(self)@.knows(h) ==> done == Err::<(), RegistryError>(
                RegistryError::HandleInUse,
            ),
            old(self)@.player is None && !old(self)@.knows(h) ==> done is Ok,
            done is Ok ==> final(self)@ == (RegistryView { player: Some(h), ..old(self)@ }),
            done is Err ==> final(self)@ == old(self)@,
    {
        if self.player.is_some() {
            Err(RegistryError::AlreadyPresent)
        } else if self.knows(h) {
            Err(RegistryError::HandleInUse)
        } else {
            self.player = Some(h);
            Ok(())
        }
    }

    /// Records `h` as the floor.
    pub fn set_floor(&mut self, h: EntityHandle) -> (done: Result<(), RegistryError>)
        requires
            old(self).wf(),
        ensures
            final(self).wf(),
            old(self)@.floor is Some ==> done == Err::<(), RegistryError>(
                RegistryError::AlreadyPresent,
            ),
            old(self)@.floor is None && old(self)@.knows(h) ==> done == Err::<(), RegistryError>(
                RegistryError::HandleInUse,
            ),
            old(self)@.floor is None && !old(self)@.knows(h) ==> done is Ok,
            done is Ok ==> final(self)@ == (RegistryView { floor: Some(h), ..old(self)@ }),
            done is Err ==> final(self)@ == old(self)@,
    {
        if self.floor.is_some() {
            Err(RegistryError::AlreadyPresent)
        } else if self.knows(h) {
            Err(RegistryError::HandleInUse)
        } else {
            self.floor = Some(h);
            Ok(())
        }
    }

    /// Records `h` as a free object with a display name, a category and a
    /// place in the arena.
    pub fn register_object(
        &mut self,
        h: EntityHandle,
        name: String,
        category: String,
        position: FixedVec3,
    ) -> (done: Result<(), RegistryError>)
        requires
            old(self).wf(),
        ensures
            final(self).wf(),
            old(self)@.knows(h) <==> done == Err::<(), RegistryError>(RegistryError::HandleInUse),
            !old(self)@.knows(h) <==> done is Ok,
            done is Ok ==> final(self)@ == (RegistryView {
                objects: old(self)@.objects.insert(
                    h,
                    ObjectView { handle: h, name: name@, category: category@, attached: false, position },
                ),
                ..old(self)@
            }),
            done is Err ==> final(self)@ == old(self)@,
    {
        if self.knows(h) {
            return Err(RegistryError::HandleInUse);
        }
        let record = ObjectRecord { handle: h, name, category, attached: false, position };
        self.objects.push(record);
        proof {
            let before = old(self).objects@;
            let after = self.objects@;
            assert(!filed(before, h));
            assert(distinct_handles(after));
            assert forall|k: EntityHandle| #[trigger]
                by_handle(after).contains_key(k) == by_handle(before).insert(
                    h,
                    record@,
                ).contains_key(k) by {
                if filed(before, k) {
                    let j = place_of(before, k);
                    assert(after[j]@.handle == k);
                }
                if k == h {
                    assert(after[before.len() as int]@.handle == k);
                }
            }
            assert forall|k: EntityHandle| #[trigger]
                by_handle(after).contains_key(k) implies by_handle(after)[k] == by_handle(
                before,
            ).insert(h, record@)[k] by {
                let j = place_of(after, k);
                lemma_place_of(after, j);
                if k != h {
                    lemma_place_of(before, j);
                }
            }
            assert(by_handle(after) =~= by_handle(before).insert(h, record@));
        }
        Ok(())
    }

    /// The player, if one is recorded.
    pub fn player(&self) -> (player: Option<EntityHandle>)
        ensures
            player == self@.player,
    {
        self.player
    }

    /// The floor, if one is recorded.
    pub fn floor(&self) -> (floor: Option<EntityHandle>)
        ensures
            floor == self@.floor,
    {
        self.floor
    }

    /// The role of `h`, if it has one.
    pub fn role_of(&self, h: EntityHandle) -> (role: Option<Role>)
        requires
            self.wf(),
        ensures
            role == self@.role_of(h),
    {
        if self.player == Some(h) {
            Some(Role::Player)
        } else if self.floor == Some(h) {
            Some(Role::Floor)
        } else {
            match self.find(h) {
                Some(i) => if self.objects[i].attached {
                    Some(Role::AttachedObject)
                } else {
                    Some(Role::FreeObject)
                },
                None => None,
            }
        }
    }

    /// The record of the object `h`, if there is one.
    pub fn object(&self, h: EntityHandle) -> (record: Option<&ObjectRecord>)
        requires
            self.wf(),
        ensures
            record is Some <==> self@.objects.contains_key(h),
            record matches Some(r) ==> r@ == self@.objects[h],
    {
        match self.find(h) {
            Some(i) => Some(&self.objects[i]),
            None => None,
        }
    }

    /// Whether `h` is an object that has not been absorbed yet.
    pub fn is_free(&self, h: EntityHandle) -> (free: bool)
        requires
            self.wf(),
        ensures
            free == self@.is_free(h),
    {
        match self.find(h) {
            Some(i) => !self.objects[i].attached,
            None => false,
        }
    }

    /// Replaces the record at `i` by one with the same handle.
    proof fn lemma_update(before: Seq<ObjectRecord>, after: Seq<ObjectRecord>, i: int)
        requires
            distinct_handles(before),
            0 <= i < before.len(),
            after.len() == before.len(),
            after[i]@.handle == before[i]@.handle,
            forall|j: int| 0 <= j < before.len() && j != i ==> after[j] == before[j],
        ensures
            distinct_handles(after),
            by_handle(after) == by_handle(before).insert(after[i]@.handle, after[i]@),
    {
        let h = after[i]@.handle;
        assert(distinct_handles(after)) by {
            assert forall|a: int, b: int|
                0 <= a < after.len() && 0 <= b < after.len() && a != b implies (
            #[trigger] after[a]@).handle != (#[trigger] after[b]@).handle by {
                assert(after[a]@.handle == before[a]@.handle);
                assert(after[b]@.handle == before[b]@.handle);
            }
        }
        assert forall|k: EntityHandle| #[trigger]
            by_handle(after).contains_key(k) == by_handle(before).insert(h, after[i]@).contains_key(
                k,
            ) by {
            if filed(before, k) {
                let j = place_of(before, k);
                assert(after[j]@.handle == k);
            }
            if filed(after, k) {
                let j = place_of(after, k);
                assert(before[j]@.handle == k);
            }
        }
        assert forall|k: EntityHandle| #[trigger]
            by_handle(after).contains_key(k) implies by_handle(after)[k] == by_handle(before).insert(
            h,
            after[i]@,
        )[k] by {
            let j = place_of(after, k);
            lemma_place_of(after, j);
            if k != h {
                assert(before[j]@.handle == k);
                lemma_place_of(before, j);
            }
        }
        assert(by_handle(after) =~= by_handle(before).insert(h, after[i]@));
    }

    /// Notes where the free object `h` now is. An attached object's place is
    /// no longer the registry's to move.
    pub fn move_object(&mut self, h: EntityHandle, position: FixedVec3) -> (moved: bool)
        requires
            old(self).wf(),
        ensures
            final(self).wf(),
            moved == old(self)@.is_free(h),
            moved ==> final(self)@ == (RegistryView {
                objects: old(self)@.objects.insert(
                    h,
                    ObjectView { position, ..old(self)@.objects[h] },
                ),
                ..old(self)@
            }),
            !moved ==> final(self)@ == old(self)@,
    {
        match self.find(h) {
            Some(i) => {
                if self.objects[i].attached {
                    false
                } else {
                    self.objects[i].position = position;
                    proof {
                        Self::lemma_update(old(self).objects@, self.objects@, i as int);
                    }
                    true
                }
            },
            None => false,
        }
    }

    /// Marks the free object `h` as absorbed, at `position` relative to the
    /// player.
    pub(crate) fn attach(&mut self, h: EntityHandle, position: FixedVec3)
        requires
            old(self).wf(),
            old(self)@.is_free(h),
        ensures
            final(self).wf(),
            final(self)@ == old(self)@.attach(h, position),
    {
        match self.find(h) {
            Some(i) => {
                let record = &mut self.objects[i];
                record.attached = true;
                record.position = position;
                proof {
                    Self::lemma_update(old(self).objects@, self.objects@, i as int);
                }
            },
            None => {},
        }
    }

    /// Forgets the object `h`, attached or not, when it leaves the arena.
    pub fn despawn(&mut self, h: EntityHandle) -> (gone: bool)
        requires
            old(self).wf(),
        ensures
            final(self).wf(),
            gone == old(self)@.objects.contains_key(h),
            final(self)@ == (RegistryView { objects: old(self)@.objects.remove(h), ..old(self)@ }),
    {
        match self.find(h) {
            Some(i) => {
                let _ = self.objects.remove(i);
                proof {
                    let before = old(self).objects@;
                    let after = self.objects@;
                    assert forall|a: int, b: int|
                        0 <= a < after.len() && 0 <= b < after.len() && a != b implies (
                    #[trigger] after[a]@).handle != (#[trigger] after[b]@).handle by {
                        let a0 = if a < i { a } else { a + 1 };
                        let b0 = if b < i { b } else { b + 1 };
                        assert(after[a] == before[a0]);
                        assert(after[b] == before[b0]);
                    }
                    assert forall|k: EntityHandle| #[trigger]
                        by_handle(after).contains_key(k) == by_handle(before).remove(h).contains_key(
                            k,
                        ) by {
                        if filed(before, k) && k != h {
                            let j = place_of(before, k);
                            let j1 = if j < i { j } else { j - 1 };
                            assert(after[j1] == before[j]);
                            assert(after[j1]@.handle == k);
                        }
                        if filed(after, k) {
                            let j = place_of(after, k);
                            let j0 = if j < i { j } else { j + 1 };
                            assert(after[j] == before[j0]);
                            assert(before[j0]@.handle == k);
                        }
                    }
                    assert forall|k: EntityHandle| #[trigger]
                        by_handle(after).contains_key(k) implies by_handle(after)[k] == by_handle(
                        before,
                    ).remove(h)[k] by {
                        let j = place_of(after, k);
                        let j0 = if j < i { j } else { j + 1 };
                        assert(after[j] == before[j0]);
                        lemma_place_of(after, j);
                        lemma_place_of(before, j0);
                    }
                    assert(by_handle(after) =~= by_handle(before).remove(h));
                }
                true
            },
            None => {
                assert(old(self)@.objects.remove(h) =~= old(self)@.objects);
                false
            },
        }
    }
}

} // verus!
