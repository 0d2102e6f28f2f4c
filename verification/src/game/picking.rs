//! Asking the physics world what lies at a point, and where an object is.
//!
//! The world answers with its own numbers. They are looked up in the store:
//! an answer that names an object of the store is that object, any other is
//! a foreign collider.

use crate::backend::{
    cast_in_place, intersections_in_place, live_transform, origin, position_of,
};
use crate::game::{resolved, resolved_all, Game};
use crate::interaction::Pick;
use crate::scene::ObjectId;
use let_engine::objects::Transform;
use let_engine::Vec2;
use vstd::prelude::*;

verus! {

impl Game {
    /// What the pointer is over, given what the physics world answered.
    pub fn resolve(&self, hit: Option<usize>) -> (pick: Pick)
        requires
            self.wf(),
        ensures
            pick == resolved(self.scene(), hit),
            pick matches Pick::Object(id) ==> self.scene()@.contains_key(id) && hit == Some(
                self.scene()@[id].engine_id,
            ),
            pick is Nothing <==> hit is None,
            pick is Foreign <==> hit is Some && forall|id: ObjectId| #[trigger]
                self.scene()@.contains_key(id) ==> self.scene()@[id].engine_id != hit->0,
    {
        match hit {
            None => Pick::Nothing,
            Some(engine) => match self.store.find_engine(engine) {
                Some(id) => Pick::Object(id),
                None => Pick::Foreign,
            },
        }
    }

    /// What lies under the point `at`: the physics world is asked for the
    /// collider that holds the point, and the answer is looked up in the
    /// store.
    pub fn pick(&self, at: Vec2) -> (pick: Pick)
        requires
            self.wf(),
        ensures
            pick matches Pick::Object(id) ==> self.scene()@.contains_key(id),
    {
        let hit = cast_in_place(&self.layer, at, origin(), true);
        self.resolve(hit)
    }

    /// The objects of the store among the answers of the physics world.
    pub fn resolve_all(&self, hits: &Vec<usize>) -> (ids: Vec<ObjectId>)
        requires
            self.wf(),
        ensures
            ids@ == resolved_all(self.scene(), hits@),
            forall|i: int| 0 <= i < ids@.len() ==> self.scene()@.contains_key(#[trigger] ids@[i]),
    {
        let mut ids: Vec<ObjectId> = Vec::new();
        let mut i: usize = 0;
        while i < hits.len()
            invariant
                self.wf(),
                i <= hits@.len(),
                ids@ == resolved_all(self.scene(), hits@.take(i as int)),
                forall|k: int| 0 <= k < ids@.len() ==> self.scene()@.contains_key(#[trigger] ids@[k]),
            decreases hits@.len() - i,
        {
            let pick = self.resolve(Some(hits[i]));
            proof {
                let upto = hits@.take(i as int + 1);
                assert(upto.drop_last() == hits@.take(i as int));
                assert(upto.last() == hits@[i as int]);
            }
            if let Pick::Object(id) = pick {
                ids.push(id);
            }
            i = i + 1;
        }
        proof {
            assert(hits@.take(i as int) == hits@);
        }
        ids
    }

    /// The objects whose colliders hold the point `at`: the physics world is
    /// asked for all of them, and the answers are looked up in the store.
    pub fn hits(&self, at: Vec2) -> (ids: Vec<ObjectId>)
        requires
            self.wf(),
        ensures
            forall|i: int| 0 <= i < ids@.len() ==> self.scene()@.contains_key(#[trigger] ids@[i]),
    {
        let answers = intersections_in_place(&self.layer, at, origin(), true);
        self.resolve_all(&answers)
    }

    /// Where the object is now.
    pub fn transform_of(&self, id: ObjectId) -> (transform: Option<Transform>)
        requires
            self.wf(),
        ensures
            transform is Some <==> self.scene()@.contains_key(id),
    {
        match self.store.get(id) {
            Some(object) => Some(live_transform(&object.body)),
            None => None,
        }
    }

    /// Where the object is now, as a point.
    pub fn position_of(&self, id: ObjectId) -> (position: Option<Vec2>)
        requires
            self.wf(),
        ensures
            position is Some <==> self.scene()@.contains_key(id),
    {
        match self.store.get(id) {
            Some(object) => Some(position_of(live_transform(&object.body))),
            None => None,
        }
    }
}

} // verus!
