//! Making objects and taking them out again.
//!
//! An object is made from a description: the physics world is asked for a
//! box, and what it hands back is filed in the store. An object that leaves
//! takes its joints with it and is forgotten by the interaction state.

use crate::backend::{
    average_rule, despawn, dynamic_type, engine_id, fixed_type, max_rule, min_rule, multiply_rule,
    spawn_box, Body,
};
use crate::game::{binds, description_at, Game, SpawnError};
use crate::interaction::{forgetting, forgetting_all};
use crate::joints::{
    lemma_without, lemma_without_all_by_members, lemma_without_none, lemma_without_one_more, touches,
    without, without_all,
};
use crate::scene::{
    inserted, removed, BodyKind, CombineRule, Description, ObjectId, SceneError,
};
use let_engine::Vec2;
use vstd::prelude::*;

verus! {

impl Game {
    /// Files an object that the physics world has made, or says why there
    /// is none to file: the world refused it, or the store has no name left
    /// for it. An object that cannot be filed is taken out of the world
    /// again.
    pub fn enroll(&mut self, description: Description, spawned: Option<Body>) -> (made: Result<
        ObjectId,
        SpawnError,
    >)
        requires
            old(self).wf(),
        ensures
            final(self).wf(),
            final(self).same_setup(old(self)),
            final(self).state() == old(self).state(),
            final(self).links() == old(self).links(),
            made is Ok <==> spawned is Some && old(self).scene().has_room(),
            made == Err::<ObjectId, SpawnError>(SpawnError::Refused) <==> spawned is None,
            made == Err::<ObjectId, SpawnError>(SpawnError::Exhausted) <==> spawned is Some && !old(
                self,
            ).scene().has_room(),
            made is Err ==> final(self).scene() == old(self).scene(),
            made matches Ok(id) ==> {
                &&& id.0 == old(self).scene().issued()
                &&& final(self).scene().issued() == old(self).scene().issued() + 1
                &&& !old(self).scene()@.contains_key(id)
                &&& final(self).scene()@.contains_key(id)
                &&& final(self).scene()@ == old(self).scene()@.insert(id, final(self).scene()@[id])
                &&& final(self).scene()@[id].id == id
                &&& final(self).scene()@[id].description == description
                &&& final(self).scene()@[id].body == spawned->0
                &&& final(self).scene().model() == inserted(
                    old(self).scene().model(),
                    final(self).scene()@[id].engine_id,
                    description,
                    spawned->0,
                )
            },
    {
        match spawned {
            Some(body) => {
                if !self.store.can_insert() {
                    despawn(body);
                    return Err(SpawnError::Exhausted);
                }
                let engine = engine_id(&body);
                let id = self.store.insert(engine, description, body);
                proof {
                    assert forall|i: int| 0 <= i < self.links().len() implies binds(
                        #[trigger] self.links()[i],
                        self.scene()@,
                    ) by {
                        assert(binds(old(self).links()[i], old(self).scene()@));
                    }
                }
                Ok(id)
            },
            None => Err(SpawnError::Refused),
        }
    }

    /// Makes an object from the description and files it.
    ///
    /// No object is made where the store has no name left, and none where
    /// the physics world refuses it.
    pub fn spawn_with(&mut self, description: Description) -> (made: Result<ObjectId, SpawnError>)
        requires
            old(self).wf(),
        ensures
            final(self).wf(),
            final(self).same_setup(old(self)),
            final(self).state() == old(self).state(),
            final(self).links() == old(self).links(),
            made == Err::<ObjectId, SpawnError>(SpawnError::Exhausted) <==> !old(self).scene().has_room(),
            made is Err ==> final(self).scene() == old(self).scene(),
            made matches Ok(id) ==> {
                &&& id.0 == old(self).scene().issued()
                &&& final(self).scene().issued() == old(self).scene().issued() + 1
                &&& !old(self).scene()@.contains_key(id)
                &&& final(self).scene()@.contains_key(id)
                &&& final(self).scene()@ == old(self).scene()@.insert(id, final(self).scene()@[id])
                &&& final(self).scene()@[id].id == id
                &&& final(self).scene()@[id].description == description
            },
    {
        if !self.store.can_insert() {
            return Err(SpawnError::Exhausted);
        }
        let rule = match description.restitution_rule {
            CombineRule::Average => average_rule(),
            CombineRule::Min => min_rule(),
            CombineRule::Multiply => multiply_rule(),
            CombineRule::Max => max_rule(),
        };
        let body_type = match description.kind {
            BodyKind::Fixed => fixed_type(),
            BodyKind::Dynamic => dynamic_type(),
        };
        let spawned = spawn_box(
            &self.layer,
            description.position,
            description.shape,
            &self.template.look,
            description.color,
            rule,
            body_type,
        );
        self.enroll(description, spawned)
    }

    /// What an object made from the template at `at` is made from.
    pub fn describe(&self, at: Vec2) -> (description: Description)
        ensures
            description == description_at(self.pattern(), at),
    {
        Description {
            position: at,
            shape: self.template.shape,
            color: self.template.color,
            kind: if self.template.anchored {
                BodyKind::Fixed
            } else {
                BodyKind::Dynamic
            },
            restitution_rule: CombineRule::Min,
        }
    }

    /// Makes an object from the template at the point `at`.
    pub fn spawn(&mut self, at: Vec2) -> (made: Result<ObjectId, SpawnError>)
        requires
            old(self).wf(),
        ensures
            final(self).wf(),
            final(self).same_setup(old(self)),
            final(self).state() == old(self).state(),
            final(self).links() == old(self).links(),
            made == Err::<ObjectId, SpawnError>(SpawnError::Exhausted) <==> !old(self).scene().has_room(),
            made is Err ==> final(self).scene() == old(self).scene(),
            made matches Ok(id) ==> {
                &&& id.0 == old(self).scene().issued()
                &&& final(self).scene().issued() == old(self).scene().issued() + 1
                &&& !old(self).scene()@.contains_key(id)
                &&& final(self).scene()@.contains_key(id)
                &&& final(self).scene()@ == old(self).scene()@.insert(id, final(self).scene()@[id])
                &&& final(self).scene()@[id].id == id
                &&& final(self).scene()@[id].description == description_at(old(self).pattern(), at)
            },
    {
        let description = self.describe(at);
        self.spawn_with(description)
    }

    /// Takes the object out of the scene and out of the physics world. With
    /// it go the joints that were attached to it, and it is no longer
    /// selected or targeted.
    pub fn remove(&mut self, id: ObjectId) -> (done: Result<(), SceneError>)
        requires
            old(self).wf(),
        ensures
            final(self).wf(),
            final(self).same_setup(old(self)),
            final(self).scene().issued() == old(self).scene().issued(),
            done is Ok <==> old(self).scene()@.contains_key(id),
            done is Err ==> {
                &&& done == Err::<(), SceneError>(SceneError::NotFound)
                &&& final(self).scene()@ == old(self).scene()@
                &&& final(self).state() == old(self).state()
                &&& final(self).links() == old(self).links()
            },
            done is Ok ==> {
                &&& final(self).scene()@ == old(self).scene()@.remove(id)
                &&& final(self).state() == forgetting(old(self).state(), id)
                &&& final(self).links() == without(old(self).links(), id)
            },
            final(self).scene().model() == removed(old(self).scene().model(), id),
    {
        match self.store.remove(id) {
            Ok(object) => {
                despawn(object.body);
                self.interaction.forget(id);
                proof {
                    lemma_without(self.joints@, id);
                }
                self.joints.retract(id);
                proof {
                    let before = old(self).links();
                    assert forall|i: int| 0 <= i < self.links().len() implies binds(
                        #[trigger] self.links()[i],
                        self.scene()@,
                    ) by {
                        let joint = self.links()[i];
                        assert(!touches(joint, id));
                        assert(before.contains(joint));
                        let k = choose|k: int| 0 <= k < before.len() && before[k] == joint;
                        assert(binds(before[k], old(self).scene()@));
                    }
                }
                Ok(())
            },
            Err(error) => Err(error),
        }
    }

    /// Takes the named objects out of the scene, each with its joints, and
    /// tells which of them the scene held. A name that the scene does not
    /// hold, or that comes a second time, is passed over.
    pub fn remove_all(&mut self, ids: &Vec<ObjectId>) -> (removed: Vec<ObjectId>)
        requires
            old(self).wf(),
        ensures
            final(self).wf(),
            final(self).same_setup(old(self)),
            final(self).scene().issued() == old(self).scene().issued(),
            forall|id: ObjectId| #[trigger]
                final(self).scene()@.contains_key(id) <==> old(self).scene()@.contains_key(id)
                    && !ids@.contains(id),
            forall|id: ObjectId| #[trigger]
                final(self).scene()@.contains_key(id) ==> final(self).scene()@[id] == old(
                    self,
                ).scene()@[id],
            final(self).state() == forgetting_all(old(self).state(), ids@),
            final(self).links() == without_all(old(self).links(), ids@),
            removed@.no_duplicates(),
            forall|id: ObjectId| #[trigger]
                removed@.contains(id) <==> old(self).scene()@.contains_key(id) && ids@.contains(id),
    {
        let mut removed: Vec<ObjectId> = Vec::new();
        let mut i: usize = 0;
        proof {
            lemma_without_none(self.links());
            assert(ids@.take(0) == Seq::<ObjectId>::empty());
        }
        while i < ids.len()
            invariant
                self.wf(),
                i <= ids@.len(),
                self.same_setup(old(self)),
                self.scene().issued() == old(self).scene().issued(),
                forall|id: ObjectId| #[trigger]
                    self.scene()@.contains_key(id) <==> old(self).scene()@.contains_key(id)
                        && !ids@.take(i as int).contains(id),
                forall|id: ObjectId| #[trigger]
                    self.scene()@.contains_key(id) ==> self.scene()@[id] == old(self).scene()@[id],
                self.state() == forgetting_all(old(self).state(), ids@.take(i as int)),
                self.links() == without_all(old(self).links(), ids@.take(i as int)),
                removed@.no_duplicates(),
                forall|id: ObjectId| #[trigger]
                    removed@.contains(id) <==> old(self).scene()@.contains_key(id) && ids@.take(
                        i as int,
                    ).contains(id),
            decreases ids@.len() - i,
        {
            let id = ids[i];
            let ghost before = *self;
            let ghost seen = ids@.take(i as int);
            let ghost upto = ids@.take(i as int + 1);
            proof {
                assert(upto.drop_last() == seen);
                assert(upto.last() == id);
                assert(upto == seen.push(id));
                assert forall|other: ObjectId| upto.contains(other) <==> seen.contains(other) || other
                    == id by {
                    if seen.contains(other) {
                        let k = choose|k: int| 0 <= k < seen.len() && seen[k] == other;
                        assert(upto[k] == other);
                    }
                    if other == id {
                        assert(upto[i as int] == other);
                    }
                }
                lemma_without_one_more(old(self).links(), seen, id);
            }
            let done = self.remove(id);
            match done {
                Ok(_) => {
                    proof {
                        assert(!removed@.contains(id));
                        let longer = removed@.push(id);
                        assert forall|other: ObjectId| longer.contains(other) <==> removed@.contains(
                            other,
                        ) || other == id by {
                            if removed@.contains(other) {
                                let k = choose|k: int| 0 <= k < removed@.len() && removed@[k] == other;
                                assert(longer[k] == other);
                            }
                            if other == id {
                                assert(longer[removed@.len() as int] == other);
                            }
                        }
                    }
                    removed.push(id);
                },
                Err(_) => {
                    proof {
                        lemma_without(before.links(), id);
                        assert forall|k: int| 0 <= k < before.links().len() implies !touches(
                            #[trigger] before.links()[k],
                            id,
                        ) by {
                            assert(binds(before.links()[k], before.scene()@));
                        }
                    }
                },
            }
            i = i + 1;
        }
        proof {
            assert(ids@.take(i as int) == ids@);
        }
        removed
    }

    /// Takes every object whose collider holds the point `at` out of the
    /// scene and tells which they were.
    pub fn clear_at(&mut self, at: Vec2) -> (removed: Vec<ObjectId>)
        requires
            old(self).wf(),
        ensures
            final(self).wf(),
            final(self).same_setup(old(self)),
            final(self).scene().issued() == old(self).scene().issued(),
            removed@.no_duplicates(),
            forall|id: ObjectId| #[trigger]
                final(self).scene()@.contains_key(id) <==> old(self).scene()@.contains_key(id)
                    && !removed@.contains(id),
            forall|id: ObjectId| #[trigger]
                final(self).scene()@.contains_key(id) ==> final(self).scene()@[id] == old(
                    self,
                ).scene()@[id],
            final(self).state() == forgetting_all(old(self).state(), removed@),
            final(self).links() == without_all(old(self).links(), removed@),
    {
        let ids = self.hits(at);
        let removed = self.remove_all(&ids);
        proof {
            assert forall|id: ObjectId| ids@.contains(id) <==> removed@.contains(id) by {
                if ids@.contains(id) {
                    let k = choose|k: int| 0 <= k < ids@.len() && ids@[k] == id;
                    assert(old(self).scene()@.contains_key(ids@[k]));
                }
            }
            lemma_without_all_by_members(old(self).links(), ids@, removed@);
        }
        removed
    }
}

} // verus!
