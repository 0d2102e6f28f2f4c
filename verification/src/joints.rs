//! The joints that the sandbox has made.
//!
//! A joint binds two objects of the scene. When one of them leaves the
//! scene the physics world drops the joints that were attached to it, and
//! the book does the same with its records: no record ever names an object
//! that is gone.

use crate::scene::ObjectId;
use let_engine::Vec2;
use vstd::prelude::*;

verus! {

/// A fixed joint between two objects.
#[derive(Clone, Copy, Debug)]
pub struct Joint {
    /// The object that was selected when the joint was made.
    pub first: ObjectId,
    /// The object that the drag ended on.
    pub second: ObjectId,
    /// Where the joint holds the first object, in that object's own frame:
    /// the offset that led from the first object to the second when the
    /// joint was made.
    pub anchor1: Vec2,
    /// Where the joint holds the second object, in that object's own frame:
    /// its origin.
    pub anchor2: Vec2,
}

/// The joint is attached to the object.
pub open spec fn touches(joint: Joint, id: ObjectId) -> bool {
    joint.first == id || joint.second == id
}

/// The joints that are not attached to the object, in their order.
pub open spec fn without(joints: Seq<Joint>, id: ObjectId) -> Seq<Joint>
    decreases joints.len(),
{
    if joints.len() == 0 {
        joints
    } else if touches(joints.last(), id) {
        without(joints.drop_last(), id)
    } else {
        without(joints.drop_last(), id).push(joints.last())
    }
}

/// The joint is attached to one of the objects.
pub open spec fn touches_any(joint: Joint, gone: Seq<ObjectId>) -> bool {
    gone.contains(joint.first) || gone.contains(joint.second)
}

/// The joints that are attached to none of the objects, in their order.
pub open spec fn without_all(joints: Seq<Joint>, gone: Seq<ObjectId>) -> Seq<Joint>
    decreases joints.len(),
{
    if joints.len() == 0 {
        joints
    } else if touches_any(joints.last(), gone) {
        without_all(joints.drop_last(), gone)
    } else {
        without_all(joints.drop_last(), gone).push(joints.last())
    }
}

/// Taking one more object away from what is left after some went is the
/// same as taking all of them away at once.
pub proof fn lemma_without_one_more(joints: Seq<Joint>, gone: Seq<ObjectId>, id: ObjectId)
    ensures
        without(without_all(joints, gone), id) == without_all(joints, gone.push(id)),
    decreases joints.len(),
{
    let more = gone.push(id);
    if joints.len() > 0 {
        let front = joints.drop_last();
        let last = joints.last();
        lemma_without_one_more(front, gone, id);
        assert forall|other: ObjectId| more.contains(other) <==> gone.contains(other) || other == id by {
            if gone.contains(other) {
                let k = choose|k: int| 0 <= k < gone.len() && gone[k] == other;
                assert(more[k] == other);
            }
            if other == id {
                assert(more[gone.len() as int] == other);
            }
        }
        assert(touches_any(last, more) <==> touches_any(last, gone) || touches(last, id));
        if !touches_any(last, gone) {
            let kept = without_all(front, gone).push(last);
            assert(kept.drop_last() == without_all(front, gone));
            assert(kept.last() == last);
        }
    }
}

/// Which joints are left depends on which objects went, not on the order
/// in which they were named or on how often.
pub proof fn lemma_without_all_by_members(joints: Seq<Joint>, gone: Seq<ObjectId>, other: Seq<ObjectId>)
    requires
        forall|id: ObjectId| gone.contains(id) <==> other.contains(id),
    ensures
        without_all(joints, gone) == without_all(joints, other),
    decreases joints.len(),
{
    if joints.len() > 0 {
        lemma_without_all_by_members(joints.drop_last(), gone, other);
    }
}

/// Where no object went, every joint is left.
pub proof fn lemma_without_none(joints: Seq<Joint>)
    ensures
        without_all(joints, Seq::<ObjectId>::empty()) == joints,
    decreases joints.len(),
{
    if joints.len() > 0 {
        lemma_without_none(joints.drop_last());
    }
}

/// What is left when an object goes: every joint that is left was there
/// before and is not attached to the object, and every joint that was there
/// and is not attached to it is left.
pub proof fn lemma_without(joints: Seq<Joint>, id: ObjectId)
    ensures
        without(joints, id).len() <= joints.len(),
        forall|i: int|
            0 <= i < without(joints, id).len() ==> !touches(#[trigger] without(joints, id)[i], id)
                && joints.contains(without(joints, id)[i]),
        forall|i: int|
            0 <= i < joints.len() && !touches(#[trigger] joints[i], id) ==> without(joints, id).contains(
                joints[i],
            ),
        (forall|i: int| 0 <= i < joints.len() ==> !touches(#[trigger] joints[i], id)) ==> without(
            joints,
            id,
        ) == joints,
    decreases joints.len(),
{
    if joints.len() > 0 {
        let front = joints.drop_last();
        let last = joints.last();
        let kept = without(joints, id);
        lemma_without(front, id);
        assert forall|i: int| 0 <= i < kept.len() implies !touches(#[trigger] kept[i], id)
            && joints.contains(kept[i]) by {
            if i < without(front, id).len() {
                let k = choose|k: int| 0 <= k < front.len() && front[k] == without(front, id)[i];
                assert(joints[k] == kept[i]);
            } else {
                assert(joints[joints.len() - 1] == kept[i]);
            }
        }
        assert forall|i: int| 0 <= i < joints.len() && !touches(#[trigger] joints[i], id) implies kept.contains(
            joints[i],
        ) by {
            if i < front.len() {
                assert(front[i] == joints[i]);
                let k = choose|k: int|
                    0 <= k < without(front, id).len() && without(front, id)[k] == front[i];
                assert(kept[k] == joints[i]);
            } else {
                assert(kept[kept.len() - 1] == joints[i]);
            }
        }
        if forall|i: int| 0 <= i < joints.len() ==> !touches(#[trigger] joints[i], id) {
            assert forall|i: int| 0 <= i < front.len() implies !touches(#[trigger] front[i], id) by {
                assert(front[i] == joints[i]);
            }
            assert(!touches(joints[joints.len() - 1], id));
            assert(kept =~= joints);
        }
    }
}

/// The record of the joints, oldest first.
pub struct JointBook {
    joints: Vec<Joint>,
}

impl View for JointBook {
    type V = Seq<Joint>;

    closed spec fn view(&self) -> Seq<Joint> {
        self.joints@
    }
}

impl JointBook {
    /// A book without records.
    pub fn new() -> (book: JointBook)
        ensures
            book@ == Seq::<Joint>::empty(),
    {
        JointBook { joints: Vec::new() }
    }

    /// How many joints are on record.
    pub fn len(&self) -> (count: usize)
        ensures
            count == self@.len(),
    {
        self.joints.len()
    }

    /// The record at place `i`, counted from the oldest.
    pub fn get(&self, i: usize) -> (joint: Option<Joint>)
        ensures
            joint == if i < self@.len() {
                Some(self@[i as int])
            } else {
                None
            },
    {
        if i < self.joints.len() {
            Some(self.joints[i])
        } else {
            None
        }
    }

    /// Whether some joint on record is attached to the object.
    pub fn holds(&self, id: ObjectId) -> (held: bool)
        ensures
            held == exists|i: int| 0 <= i < self@.len() && touches(#[trigger] self@[i], id),
    {
        let mut i: usize = 0;
        while i < self.joints.len()
            invariant
                i <= self.joints@.len(),
                forall|k: int| 0 <= k < i ==> !touches(#[trigger] self.joints@[k], id),
            decreases self.joints@.len() - i,
        {
            if self.joints[i].first == id || self.joints[i].second == id {
                assert(touches(self@[i as int], id));
                return true;
            }
            i = i + 1;
        }
        false
    }

    /// Puts a joint on record.
    pub fn record(&mut self, joint: Joint)
        ensures
            final(self)@ == old(self)@.push(joint),
    {
        self.joints.push(joint);
    }

    /// Strikes the joints that are attached to the object and tells how many
    /// they were.
    pub fn retract(&mut self, id: ObjectId) -> (struck: usize)
        ensures
            final(self)@ == without(old(self)@, id),
            struck == old(self)@.len() - final(self)@.len(),
    {
        let mut kept: Vec<Joint> = Vec::new();
        let mut i: usize = 0;
        while i < self.joints.len()
            invariant
                i <= self.joints@.len(),
                kept@ == without(self.joints@.take(i as int), id),
                kept@.len() <= i,
            decreases self.joints@.len() - i,
        {
            let joint = self.joints[i];
            proof {
                let upto = self.joints@.take(i as int + 1);
                assert(upto.drop_last() == self.joints@.take(i as int));
            }
            if !(joint.first == id || joint.second == id) {
                kept.push(joint);
            }
            i = i + 1;
        }
        proof {
            assert(self.joints@.take(i as int) == self.joints@);
        }
        let struck = self.joints.len() - kept.len();
        self.joints = kept;
        struck
    }
}

} // verus!
