//! The scene store: the objects that the sandbox has put into the world.
//!
//! The store hands out the identifiers itself, counting upwards, so an
//! identifier names one object for as long as the store lives and is never
//! given to a second one. Each entry keeps what the object was made from and
//! the body that stands for it in the physics world.
//!
//! The store belongs to the main loop alone. The physics loop never sees
//! it: what that loop moves is the engine's own record of each body, which
//! the engine guards itself.

use crate::backend::Body;
use let_engine::objects::{Color, Transform};
use let_engine::Vec2;
use vstd::prelude::*;

verus! {

/// The name of an object in the store.
#[derive(Clone, Copy, PartialEq, Eq, Structural, Debug, Hash)]
pub struct ObjectId(pub u64);

/// Whether a body takes part in the simulation or stays where it is.
#[derive(Clone, Copy, PartialEq, Eq, Structural, Debug)]
pub enum BodyKind {
    /// Never moves.
    Fixed,
    /// Moved by gravity, contacts and joints.
    Dynamic,
}

/// The rule by which the restitution of two touching colliders is combined.
#[derive(Clone, Copy, PartialEq, Eq, Structural, Debug)]
pub enum CombineRule {
    Average,
    Min,
    Multiply,
    Max,
}

/// What an object was made from.
#[derive(Clone, Copy, Debug)]
pub struct Description {
    /// Where it was put.
    pub position: Vec2,
    /// Its size and rotation. The position inside is not used.
    pub shape: Transform,
    /// The colour it is drawn in.
    pub color: Color,
    /// Whether it is anchored or moves.
    pub kind: BodyKind,
    /// How its restitution, which is zero, combines with that of a collider
    /// it touches.
    pub restitution_rule: CombineRule,
}

/// One object of the scene.
pub struct SimulationObject {
    /// Its name in the store.
    pub id: ObjectId,
    /// The number under which the physics world knows it.
    pub engine_id: usize,
    /// What it was made from.
    pub description: Description,
    /// What stands for it in the physics world.
    pub body: Body,
}

/// Why the store did not do what it was asked.
#[derive(Clone, Copy, PartialEq, Eq, Structural, Debug)]
pub enum SceneError {
    /// The store holds no object of that name.
    NotFound,
}

/// The names of the entries, in the order of the entries.
pub open spec fn names(entries: Seq<SimulationObject>) -> Seq<ObjectId> {
    Seq::new(entries.len(), |i: int| entries[i].id)
}

/// No two entries have the same name.
pub open spec fn distinct(entries: Seq<SimulationObject>) -> bool {
    forall|i: int, j: int| 0 <= i < j < entries.len() ==> entries[i].id != entries[j].id
}

/// Some entry has the name `id`.
pub open spec fn named(entries: Seq<SimulationObject>, id: ObjectId) -> bool {
    exists|i: int| 0 <= i < entries.len() && entries[i].id == id
}

/// The place of the entry with the name `id`.
pub open spec fn slot(entries: Seq<SimulationObject>, id: ObjectId) -> int {
    choose|i: int| 0 <= i < entries.len() && entries[i].id == id
}

/// The entries as a mapping from names to objects.
pub open spec fn as_map(entries: Seq<SimulationObject>) -> Map<ObjectId, SimulationObject> {
    Map::new(|id: ObjectId| named(entries, id), |id: ObjectId| entries[slot(entries, id)])
}

/// The place of the first entry that the physics world knows as
/// `engine_id`, or the number of entries where there is none.
pub open spec fn first_known_as(entries: Seq<SimulationObject>, engine_id: usize) -> int
    decreases entries.len(),
{
    if entries.len() == 0 {
        0
    } else if entries[0].engine_id == engine_id {
        0
    } else {
        1 + first_known_as(entries.drop_first(), engine_id)
    }
}

/// What a store amounts to: the objects it holds under their names, and how
/// many names it has given out.
pub struct SceneModel {
    pub objects: Map<ObjectId, SimulationObject>,
    pub issued: nat,
}

/// Something that is done to a store.
pub enum SceneOp {
    /// A new object is filed.
    Insert { engine_id: usize, description: Description, body: Body },
    /// The object of that name is taken out.
    Remove { id: ObjectId },
}

/// Every name in use was given out before, and each object is filed under
/// its own name.
pub open spec fn model_wf(model: SceneModel) -> bool {
    &&& model.issued <= u64::MAX
    &&& model.objects.dom().finite()
    &&& forall|id: ObjectId| #[trigger]
        model.objects.contains_key(id) ==> id.0 < model.issued && model.objects[id].id == id
}

/// The name that the next object gets.
pub open spec fn next_name(model: SceneModel) -> ObjectId {
    ObjectId(model.issued as u64)
}

/// The store after a new object was filed. A store that has given out all
/// its names files nothing.
pub open spec fn inserted(
    model: SceneModel,
    engine_id: usize,
    description: Description,
    body: Body,
) -> SceneModel {
    if model.issued < u64::MAX {
        SceneModel {
            objects: model.objects.insert(
                next_name(model),
                SimulationObject { id: next_name(model), engine_id, description, body },
            ),
            issued: model.issued + 1,
        }
    } else {
        model
    }
}

/// The store after the object of that name was taken out.
pub open spec fn removed(model: SceneModel, id: ObjectId) -> SceneModel {
    SceneModel { objects: model.objects.remove(id), issued: model.issued }
}

/// The store after one thing was done to it.
pub open spec fn applied(model: SceneModel, op: SceneOp) -> SceneModel {
    match op {
        SceneOp::Insert { engine_id, description, body } => inserted(
            model,
            engine_id,
            description,
            body,
        ),
        SceneOp::Remove { id } => removed(model, id),
    }
}

/// The store after a sequence of things was done to it, the first first.
pub open spec fn applied_all(model: SceneModel, ops: Seq<SceneOp>) -> SceneModel
    decreases ops.len(),
{
    if ops.len() == 0 {
        model
    } else {
        applied(applied_all(model, ops.drop_last()), ops.last())
    }
}

/// Whatever is done to a store, it stays in order and gives out no name a
/// second time: the count of names only grows.
pub proof fn lemma_applied_all_keeps_order(model: SceneModel, ops: Seq<SceneOp>)
    requires
        model_wf(model),
    ensures
        model_wf(applied_all(model, ops)),
        model.issued <= applied_all(model, ops).issued,
    decreases ops.len(),
{
    if ops.len() > 0 {
        lemma_applied_all_keeps_order(model, ops.drop_last());
    }
}

/// Filing an object and then taking it out leaves the store with the
/// objects it had before, and so with as many.
pub proof fn lemma_insert_then_remove_restores(
    model: SceneModel,
    engine_id: usize,
    description: Description,
    body: Body,
)
    requires
        model_wf(model),
    ensures
        removed(inserted(model, engine_id, description, body), next_name(model)).objects
            == model.objects,
        removed(inserted(model, engine_id, description, body), next_name(model)).objects.dom().len()
            == model.objects.dom().len(),
        model.issued < u64::MAX ==> inserted(model, engine_id, description, body).objects.dom().len()
            == model.objects.dom().len() + 1,
{
}

/// A name that was given out and whose object is gone is never found
/// again: whatever is done to the store afterwards, no lookup finds an
/// object under it, and no new object gets it.
pub proof fn lemma_retired_name_is_never_found_again(
    model: SceneModel,
    id: ObjectId,
    ops: Seq<SceneOp>,
)
    requires
        model_wf(model),
        id.0 < model.issued,
        !model.objects.contains_key(id),
    ensures
        !applied_all(model, ops).objects.contains_key(id),
        id.0 < applied_all(model, ops).issued,
        next_name(applied_all(model, ops)) != id,
    decreases ops.len(),
{
    if ops.len() > 0 {
        lemma_retired_name_is_never_found_again(model, id, ops.drop_last());
    }
}

/// The name of an object that was filed and taken out again is never found
/// again, whatever is done to the store afterwards.
pub proof fn lemma_spawned_then_removed_stays_gone(
    model: SceneModel,
    engine_id: usize,
    description: Description,
    body: Body,
    ops: Seq<SceneOp>,
)
    requires
        model_wf(model),
        model.issued < u64::MAX,
    ensures
        !applied_all(
            removed(inserted(model, engine_id, description, body), next_name(model)),
            ops,
        ).objects.contains_key(next_name(model)),
{
    let name = next_name(model);
    let after = removed(inserted(model, engine_id, description, body), name);
    lemma_retired_name_is_never_found_again(after, name, ops);
}

proof fn lemma_map_after_push(entries: Seq<SimulationObject>, object: SimulationObject)
    requires
        distinct(entries),
        !named(entries, object.id),
    ensures
        distinct(entries.push(object)),
        as_map(entries.push(object)) == as_map(entries).insert(object.id, object),
{
    let longer = entries.push(object);
    assert forall|id: ObjectId| named(longer, id) <==> (id == object.id || named(entries, id)) by {
        if named(entries, id) {
            let k = slot(entries, id);
            assert(0 <= k < longer.len() && longer[k].id == id);
        }
        if id == object.id {
            let k = entries.len() as int;
            assert(0 <= k < longer.len() && longer[k].id == id);
        }
    }
}

proof fn lemma_map_after_remove(entries: Seq<SimulationObject>, at: int)
    requires
        distinct(entries),
        0 <= at < entries.len(),
    ensures
        distinct(entries.remove(at)),
        as_map(entries.remove(at)) == as_map(entries).remove(entries[at].id),
        !named(entries.remove(at), entries[at].id),
{
    let shorter = entries.remove(at);
    let gone = entries[at].id;
    assert forall|id: ObjectId| named(shorter, id) <==> (id != gone && named(entries, id)) by {
        if id != gone && named(entries, id) {
            let k0 = slot(entries, id);
            let k = if k0 < at { k0 } else { k0 - 1 };
            assert(0 <= k < shorter.len() && shorter[k].id == id);
        }
    }
}

proof fn lemma_domain_size(entries: Seq<SimulationObject>)
    requires
        distinct(entries),
    ensures
        as_map(entries).dom().finite(),
        as_map(entries).dom().len() == entries.len(),
    decreases entries.len(),
{
    if entries.len() == 0 {
        assert(as_map(entries).dom() =~= Set::<ObjectId>::empty());
    } else {
        let front = entries.drop_last();
        let last = entries.last();
        lemma_domain_size(front);
        assert(front.push(last) == entries);
        assert(as_map(entries).dom() == as_map(front).dom().insert(last.id));
    }
}

proof fn lemma_first_known_as(entries: Seq<SimulationObject>, engine_id: usize)
    ensures
        0 <= first_known_as(entries, engine_id) <= entries.len(),
        first_known_as(entries, engine_id) < entries.len() ==> entries[first_known_as(
            entries,
            engine_id,
        )].engine_id == engine_id,
        forall|i: int|
            0 <= i < first_known_as(entries, engine_id) ==> entries[i].engine_id != engine_id,
    decreases entries.len(),
{
    if entries.len() > 0 && entries[0].engine_id != engine_id {
        let rest = entries.drop_first();
        lemma_first_known_as(rest, engine_id);
        assert forall|i: int| 0 <= i < first_known_as(entries, engine_id) implies entries[i].engine_id
            != engine_id by {
            if i > 0 {
                assert(rest[i - 1].engine_id != engine_id);
            }
        }
    }
}

/// The objects of the scene, each under its own name.
pub struct SceneStore {
    entries: Vec<SimulationObject>,
    next: u64,
}

impl View for SceneStore {
    type V = Map<ObjectId, SimulationObject>;

    /// The store as a mapping from names to objects.
    closed spec fn view(&self) -> Map<ObjectId, SimulationObject> {
        as_map(self.entries@)
    }
}

impl SceneStore {
    /// The entries in the order in which they came.
    pub closed spec fn entries(&self) -> Seq<SimulationObject> {
        self.entries@
    }

    /// The number that the next name will carry.
    pub closed spec fn issued(&self) -> nat {
        self.next as nat
    }

    /// What holds of every store: no name occurs twice, each entry is filed
    /// under its own name, and every name in use was issued before.
    pub closed spec fn wf(&self) -> bool {
        &&& distinct(self.entries@)
        &&& forall|i: int| 0 <= i < self.entries@.len() ==> (#[trigger] self.entries@[i]).id.0 < self.next
    }

    /// The store has a name left to give.
    pub open spec fn has_room(&self) -> bool {
        self.issued() < u64::MAX
    }

    /// What the store amounts to.
    pub open spec fn model(&self) -> SceneModel {
        SceneModel { objects: self@, issued: self.issued() }
    }

    /// What the view says, said of the entries.
    pub proof fn lemma_view(&self)
        requires
            self.wf(),
        ensures
            self@ == as_map(self.entries()),
            distinct(self.entries()),
            self@.dom().finite(),
            self@.dom().len() == self.entries().len(),
            forall|id: ObjectId| self@.contains_key(id) <==> named(self.entries(), id),
            forall|id: ObjectId| #[trigger] self@.contains_key(id) ==> self@[id].id == id && id.0 < self.issued(),
            model_wf(self.model()),
    {
        lemma_domain_size(self.entries@);
        assert forall|id: ObjectId| #[trigger] self@.contains_key(id) implies self@[id].id == id && id.0
            < self.issued() by {
        }
    }

    /// An empty store.
    pub fn new() -> (store: SceneStore)
        ensures
            store.wf(),
            store@ == Map::<ObjectId, SimulationObject>::empty(),
            store.entries() == Seq::<SimulationObject>::empty(),
            store.issued() == 0,
    {
        let store = SceneStore { entries: Vec::new(), next: 0 };
        store
    }

    /// An empty store that gives out its names from `first` on.
    pub fn starting_at(first: u64) -> (store: SceneStore)
        ensures
            store.wf(),
            store@ == Map::<ObjectId, SimulationObject>::empty(),
            store.entries() == Seq::<SimulationObject>::empty(),
            store.issued() == first,
    {
        let store = SceneStore { entries: Vec::new(), next: first };
        store
    }

    /// How many objects the store holds.
    pub fn len(&self) -> (count: usize)
        requires
            self.wf(),
        ensures
            count == self@.dom().len(),
            count == self.entries().len(),
    {
        proof {
            self.lemma_view();
        }
        self.entries.len()
    }

    /// Whether the store holds nothing.
    pub fn is_empty(&self) -> (empty: bool)
        requires
            self.wf(),
        ensures
            empty == (self@.dom().len() == 0),
    {
        proof {
            self.lemma_view();
        }
        self.entries.len() == 0
    }

    /// Whether a name is left to give.
    pub fn can_insert(&self) -> (room: bool)
        ensures
            room == self.has_room(),
    {
        self.next < u64::MAX
    }

    fn find(&self, id: ObjectId) -> (at: Option<usize>)
        requires
            self.wf(),
        ensures
            at is Some <==> self@.contains_key(id),
            at matches Some(i) ==> i < self.entries@.len() && self.entries@[i as int].id == id
                && self@[id] == self.entries@[i as int],
    {
        let mut i: usize = 0;
        while i < self.entries.len()
            invariant
                self.wf(),
                i <= self.entries@.len(),
                forall|k: int| 0 <= k < i ==> self.entries@[k].id != id,
            decreases self.entries@.len() - i,
        {
            if self.entries[i].id == id {
                return Some(i);
            }
            i = i + 1;
        }
        None
    }

    /// Whether the store holds an object of that name.
    pub fn contains(&self, id: ObjectId) -> (held: bool)
        requires
            self.wf(),
        ensures
            held == self@.contains_key(id),
    {
        self.find(id).is_some()
    }

    /// The object of that name, if the store holds one.
    pub fn get(&self, id: ObjectId) -> (found: Option<&SimulationObject>)
        requires
            self.wf(),
        ensures
            found is Some <==> self@.contains_key(id),
            found matches Some(object) ==> *object == self@[id] && object.id == id,
    {
        match self.find(id) {
            Some(i) => Some(&self.entries[i]),
            None => None,
        }
    }

    /// The object at place `i`, counted from the oldest. Going through the
    /// places from 0 up to the length visits every object once.
    pub fn nth(&self, i: usize) -> (found: Option<&SimulationObject>)
        requires
            self.wf(),
        ensures
            found is Some <==> i < self.entries().len(),
            found matches Some(object) ==> *object == self.entries()[i as int] && self@.contains_key(
                object.id,
            ) && self@[object.id] == *object,
    {
        if i < self.entries.len() {
            Some(&self.entries[i])
        } else {
            None
        }
    }

    /// The names of all objects, oldest first.
    pub fn ids(&self) -> (all: Vec<ObjectId>)
        requires
            self.wf(),
        ensures
            all@ == names(self.entries()),
            forall|id: ObjectId| all@.contains(id) <==> self@.contains_key(id),
            all@.no_duplicates(),
    {
        let mut all: Vec<ObjectId> = Vec::new();
        let mut i: usize = 0;
        while i < self.entries.len()
            invariant
                i <= self.entries@.len(),
                all@ == names(self.entries@.take(i as int)),
            decreases self.entries@.len() - i,
        {
            all.push(self.entries[i].id);
            i = i + 1;
        }
        proof {
            let entries = self.entries@;
            assert forall|id: ObjectId| named(entries, id) implies all@.contains(id) by {
                assert(all@[slot(entries, id)] == id);
            }
        }
        all
    }

    /// The oldest object that the physics world knows under `engine_id`.
    pub fn find_engine(&self, engine_id: usize) -> (found: Option<ObjectId>)
        requires
            self.wf(),
        ensures
            found is None <==> forall|id: ObjectId| #[trigger]
                self@.contains_key(id) ==> self@[id].engine_id != engine_id,
            found is Some <==> first_known_as(self.entries(), engine_id) < self.entries().len(),
            found matches Some(id) ==> {
                &&& self@.contains_key(id)
                &&& self@[id].engine_id == engine_id
                &&& first_known_as(self.entries(), engine_id) < self.entries().len()
                &&& id == self.entries()[first_known_as(self.entries(), engine_id)].id
            },
    {
        proof {
            lemma_first_known_as(self.entries@, engine_id);
        }
        let mut i: usize = 0;
        while i < self.entries.len()
            invariant
                self.wf(),
                i <= self.entries@.len(),
                i <= first_known_as(self.entries@, engine_id),
                first_known_as(self.entries@, engine_id) <= self.entries@.len(),
                first_known_as(self.entries@, engine_id) < self.entries@.len()
                    ==> self.entries@[first_known_as(self.entries@, engine_id)].engine_id == engine_id,
                forall|k: int|
                    0 <= k < first_known_as(self.entries@, engine_id) ==> self.entries@[k].engine_id
                        != engine_id,
            decreases self.entries@.len() - i,
        {
            if self.entries[i].engine_id == engine_id {
                proof {
                    let id = self.entries@[i as int].id;
                    assert(self@.contains_key(id) && self@[id].engine_id == engine_id);
                }
                return Some(self.entries[i].id);
            }
            i = i + 1;
        }
        None
    }

    /// Files a new object under the next name and gives that name back.
    pub fn insert(&mut self, engine_id: usize, description: Description, body: Body) -> (id:
        ObjectId)
        requires
            old(self).wf(),
            old(self).has_room(),
        ensures
            final(self).wf(),
            id.0 == old(self).issued(),
            !old(self)@.contains_key(id),
            final(self)@.contains_key(id),
            final(self)@ == old(self)@.insert(id, final(self)@[id]),
            final(self)@[id] == (SimulationObject { id, engine_id, description, body }),
            final(self).entries() == old(self).entries().push(final(self)@[id]),
            final(self).issued() == old(self).issued() + 1,
            final(self).model() == inserted(old(self).model(), engine_id, description, body),
    {
        let id = ObjectId(self.next);
        let object = SimulationObject { id, engine_id, description, body };
        proof {
            lemma_map_after_push(self.entries@, object);
        }
        self.entries.push(object);
        self.next = self.next + 1;
        id
    }

    /// Takes the object of that name out of the store and hands it over.
    pub fn remove(&mut self, id: ObjectId) -> (taken: Result<SimulationObject, SceneError>)
        requires
            old(self).wf(),
        ensures
            final(self).wf(),
            final(self).issued() == old(self).issued(),
            !final(self)@.contains_key(id),
            old(self)@.contains_key(id) ==> taken == Ok::<SimulationObject, SceneError>(old(self)@[id])
                && final(self)@ == old(self)@.remove(id),
            !old(self)@.contains_key(id) ==> taken == Err::<SimulationObject, SceneError>(
                SceneError::NotFound,
            ) && final(self)@ == old(self)@ && final(self).entries() == old(self).entries(),
            forall|other: ObjectId| #[trigger]
                final(self)@.contains_key(other) ==> old(self)@.contains_key(other) && final(self)@[other]
                    == old(self)@[other],
            final(self).model() == removed(old(self).model(), id),
    {
        match self.find(id) {
            Some(i) => {
                proof {
                    lemma_map_after_remove(self.entries@, i as int);
                }
                let object = self.entries.remove(i);
                Ok(object)
            },
            None => {
                assert(self@.remove(id) =~= self@);
                Err(SceneError::NotFound)
            },
        }
    }
}

} // verus!
