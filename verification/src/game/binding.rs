//! Linking two objects with a fixed joint.

use crate::backend::{add_fixed_joint, live_transform, offset, origin, position_of};
use crate::game::{binds, Game};
use crate::joints::Joint;
use crate::scene::ObjectId;
use vstd::prelude::*;

verus! {

impl Game {
    /// Binds the object `from` to the object `to` with a fixed joint and
    /// puts the joint on record. The joint holds `from` at the offset that
    /// leads to `to` at this moment, and `to` at its origin.
    ///
    /// No joint is made of an object with itself, none with an object that
    /// the store does not hold, and none where the physics world refuses it.
    pub fn link(&mut self, from: ObjectId, to: ObjectId) -> (made: Option<Joint>)
        requires
            old(self).wf(),
        ensures
            final(self).wf(),
            final(self).same_setup(old(self)),
            final(self).scene() == old(self).scene(),
            final(self).state() == old(self).state(),
            made is None ==> final(self).links() == old(self).links(),
            made matches Some(joint) ==> {
                &&& joint.first == from
                &&& joint.second == to
                &&& from != to
                &&& old(self).scene()@.contains_key(from)
                &&& old(self).scene()@.contains_key(to)
                &&& final(self).links() == old(self).links().push(joint)
            },
            from == to || !old(self).scene()@.contains_key(from) || !old(self).scene()@.contains_key(to)
                ==> made is None,
    {
        if from == to {
            return None;
        }
        let first = match self.store.get(from) {
            Some(object) => object,
            None => {
                return None;
            },
        };
        let second = match self.store.get(to) {
            Some(object) => object,
            None => {
                return None;
            },
        };
        let source = position_of(live_transform(&first.body));
        let target = position_of(live_transform(&second.body));
        let anchor1 = offset(source, target);
        let anchor2 = origin();
        let made = add_fixed_joint(&self.layer, &first.body, &second.body, anchor1, anchor2, true);
        self.file_joint(Joint { first: from, second: to, anchor1, anchor2 }, made)
    }

    /// Puts a joint on record if the physics world has made it and it binds
    /// two different objects of the scene.
    pub fn file_joint(&mut self, joint: Joint, made: bool) -> (filed: Option<Joint>)
        requires
            old(self).wf(),
        ensures
            final(self).wf(),
            final(self).same_setup(old(self)),
            final(self).scene() == old(self).scene(),
            final(self).state() == old(self).state(),
            filed == if made && binds(joint, old(self).scene()@) {
                Some(joint)
            } else {
                None
            },
            final(self).links() == if made && binds(joint, old(self).scene()@) {
                old(self).links().push(joint)
            } else {
                old(self).links()
            },
    {
        if made && joint.first != joint.second && self.store.contains(joint.first)
            && self.store.contains(joint.second) {
            self.joints.record(joint);
            proof {
                assert forall|i: int| 0 <= i < self.links().len() implies binds(
                    #[trigger] self.links()[i],
                    self.scene()@,
                ) by {
                    if i < old(self).links().len() {
                        assert(binds(old(self).links()[i], old(self).scene()@));
                    }
                }
            }
            Some(joint)
        } else {
            None
        }
    }
}

} // verus!
