//! What the pointer does: the rules that turn button levels and the object
//! under the pointer into spawning, removing, selecting and linking.
//!
//! The rules are a function from the state before a frame, the levels of the
//! left and right button on that frame and what lies under the pointer to the
//! state after the frame and a plan of what to do. Nothing here touches the
//! physics world; [`crate::game`] carries the plan out.

use crate::input::{level_after, level_before, rises_at, rising_edges, Button};
use crate::scene::ObjectId;
use vstd::prelude::*;

verus! {

/// What the left button stands for.
#[derive(Clone, Copy, PartialEq, Eq, Structural, Debug)]
pub enum Mode {
    /// The left button puts a new object under the pointer, the right button
    /// removes the object under it.
    Place,
    /// The left button selects an object and, dragged to another, links the
    /// two.
    Select,
}

/// What lies under the pointer.
#[derive(Clone, Copy, PartialEq, Eq, Structural, Debug)]
pub enum Pick {
    /// No collider.
    Nothing,
    /// A collider that belongs to no object of the store.
    Foreign,
    /// An object of the store.
    Object(ObjectId),
}

/// Where the placement marker, a ghost of the object to come, goes on a
/// frame.
#[derive(Clone, Copy, PartialEq, Eq, Structural, Debug)]
pub enum MarkerPlan {
    /// Not shown.
    Hidden,
    /// At the pointer, shaped like the template.
    AtPointer,
    /// Around the selected object.
    Around(ObjectId),
}

/// Where the link arrow goes on a frame.
#[derive(Clone, Copy, PartialEq, Eq, Structural, Debug)]
pub enum ArrowPlan {
    /// Not shown.
    Hidden,
    /// From the object to the pointer.
    ToPointer(ObjectId),
    /// From the first object to the second.
    ToObject(ObjectId, ObjectId),
}

/// Two objects to be linked.
#[derive(Clone, Copy, PartialEq, Eq, Structural, Debug)]
pub struct Link {
    /// The object that was selected.
    pub from: ObjectId,
    /// The object that the drag ended on.
    pub to: ObjectId,
}

/// What a frame asks of the world.
#[derive(Clone, Copy, PartialEq, Eq, Structural, Debug)]
pub struct Plan {
    /// Put a new object under the pointer.
    pub spawn: bool,
    /// Take this object out of the scene.
    pub remove: Option<ObjectId>,
    /// Link the first object to the second.
    pub joint: Option<Link>,
    /// Where the placement marker goes.
    pub marker: MarkerPlan,
    /// Where the link arrow goes.
    pub arrow: ArrowPlan,
}

/// What the sandbox remembers between two frames.
#[derive(Clone, Copy, PartialEq, Eq, Structural, Debug)]
pub struct Interaction {
    /// What the left button stands for.
    pub mode: Mode,
    /// The left button as the last frame saw it.
    pub left: Button,
    /// The right button as the last frame saw it.
    pub right: Button,
    /// The object that the last press in `Select` mode chose.
    pub selected: Option<ObjectId>,
    /// The object that the drag is over.
    pub targeted: Option<ObjectId>,
}

/// The object that a pick names, if it names one.
pub open spec fn picked_object(pick: Pick) -> Option<ObjectId> {
    match pick {
        Pick::Object(id) => Some(id),
        _ => None,
    }
}

/// `kept`, unless it is the object `gone`.
pub open spec fn unless_gone(kept: Option<ObjectId>, gone: Option<ObjectId>) -> Option<ObjectId> {
    if kept is Some && kept == gone {
        None
    } else {
        kept
    }
}

/// The state that no longer knows the object `gone`: it is neither selected
/// nor the target.
pub open spec fn forgetting(state: Interaction, gone: ObjectId) -> Interaction {
    Interaction {
        selected: unless_gone(state.selected, Some(gone)),
        targeted: unless_gone(state.targeted, Some(gone)),
        ..state
    }
}

/// The state in the other mode. The target does not outlive the change; the
/// selection and the button memory do.
pub open spec fn toggled(state: Interaction) -> Interaction {
    Interaction {
        mode: match state.mode {
            Mode::Place => Mode::Select,
            Mode::Select => Mode::Place,
        },
        targeted: None,
        ..state
    }
}

/// `kept`, unless it is one of the objects `gone`.
pub open spec fn unless_among(kept: Option<ObjectId>, gone: Seq<ObjectId>) -> Option<ObjectId> {
    if kept is Some && gone.contains(kept->0) {
        None
    } else {
        kept
    }
}

/// The state that no longer knows any of the objects `gone`.
pub open spec fn forgetting_all(state: Interaction, gone: Seq<ObjectId>) -> Interaction {
    Interaction {
        selected: unless_among(state.selected, gone),
        targeted: unless_among(state.targeted, gone),
        ..state
    }
}

/// The frame puts a new object under the pointer: the left button goes down
/// in `Place` mode.
pub open spec fn spawns(state: Interaction, left: bool) -> bool {
    state.mode == Mode::Place && left && !state.left.down
}

/// The frame has to know what lies under the pointer: the right button goes
/// down in `Place` mode, or the left button is down in `Select` mode.
pub open spec fn needs_pick(state: Interaction, left: bool, right: bool) -> bool {
    match state.mode {
        Mode::Place => right && !state.right.down,
        Mode::Select => left,
    }
}

/// The selection after a frame in `Select` mode: a press on an object of the
/// store selects it, a press on a foreign collider selects nothing, and
/// everything else leaves the selection as it was.
pub open spec fn selection_after(state: Interaction, left: bool, pick: Pick) -> Option<ObjectId> {
    if left && !state.left.down {
        match pick {
            Pick::Nothing => state.selected,
            Pick::Foreign => None,
            Pick::Object(id) => Some(id),
        }
    } else {
        state.selected
    }
}

/// The target while the frame is looked at in `Select` mode, before a
/// release clears it: during a drag from a selected object it is the object
/// under the pointer.
pub open spec fn target_during(state: Interaction, left: bool, pick: Pick) -> Option<ObjectId> {
    if left && selection_after(state, left, pick) is Some {
        picked_object(pick)
    } else {
        state.targeted
    }
}

/// The two ends of the joint that a frame asks for: the left button is
/// released in `Select` mode while an object is selected and another one is
/// the target.
pub open spec fn joint_on(state: Interaction, left: bool, pick: Pick) -> Option<Link> {
    let selected = selection_after(state, left, pick);
    let targeted = target_during(state, left, pick);
    if state.mode == Mode::Select && !left && state.left.down && selected is Some && targeted is Some
        && selected != targeted {
        Some(Link { from: selected->0, to: targeted->0 })
    } else {
        None
    }
}

/// What a frame asks of the world.
pub open spec fn plan_of(state: Interaction, left: bool, right: bool, pick: Pick) -> Plan {
    match state.mode {
        Mode::Place => Plan {
            spawn: spawns(state, left),
            remove: if right && !state.right.down {
                picked_object(pick)
            } else {
                None
            },
            joint: None,
            marker: MarkerPlan::AtPointer,
            arrow: ArrowPlan::Hidden,
        },
        Mode::Select => {
            let selected = selection_after(state, left, pick);
            let targeted = target_during(state, left, pick);
            Plan {
                spawn: false,
                remove: None,
                joint: joint_on(state, left, pick),
                marker: match selected {
                    Some(id) => MarkerPlan::Around(id),
                    None => MarkerPlan::Hidden,
                },
                arrow: if left && selected is Some {
                    match targeted {
                        Some(target) => ArrowPlan::ToObject(selected->0, target),
                        None => ArrowPlan::ToPointer(selected->0),
                    }
                } else {
                    ArrowPlan::Hidden
                },
            }
        },
    }
}

/// The state after a frame.
pub open spec fn state_after(state: Interaction, left: bool, right: bool, pick: Pick) -> Interaction {
    match state.mode {
        Mode::Place => {
            let gone = plan_of(state, left, right, pick).remove;
            Interaction {
                mode: state.mode,
                left: Button { down: left },
                right: Button { down: right },
                selected: unless_gone(state.selected, gone),
                targeted: unless_gone(state.targeted, gone),
            }
        },
        Mode::Select => Interaction {
            mode: state.mode,
            left: Button { down: left },
            right: Button { down: right },
            selected: selection_after(state, left, pick),
            targeted: if !left && state.left.down {
                None
            } else {
                target_during(state, left, pick)
            },
        },
    }
}

/// What one frame brings: the levels of the two buttons and what lies
/// under the pointer.
#[derive(Clone, Copy, PartialEq, Eq, Structural, Debug)]
pub struct Frame {
    /// Whether the left button is down.
    pub left: bool,
    /// Whether the right button is down.
    pub right: bool,
    /// What lies under the pointer.
    pub pick: Pick,
}

/// The state after a run of frames, the first first.
pub open spec fn state_after_all(state: Interaction, frames: Seq<Frame>) -> Interaction
    decreases frames.len(),
{
    if frames.len() == 0 {
        state
    } else {
        let last = frames.last();
        state_after(state_after_all(state, frames.drop_last()), last.left, last.right, last.pick)
    }
}

/// On how many frames of a run a new object is asked for.
pub open spec fn spawns_asked(state: Interaction, frames: Seq<Frame>) -> nat
    decreases frames.len(),
{
    if frames.len() == 0 {
        0
    } else {
        let last = frames.last();
        let before = state_after_all(state, frames.drop_last());
        spawns_asked(state, frames.drop_last()) + if plan_of(
            before,
            last.left,
            last.right,
            last.pick,
        ).spawn {
            1nat
        } else {
            0nat
        }
    }
}

/// The levels of the left button over a run of frames.
pub open spec fn left_levels(frames: Seq<Frame>) -> Seq<bool> {
    Seq::new(frames.len(), |i: int| frames[i].left)
}

impl Pick {
    /// The object that the pick names, if it names one.
    pub fn object(&self) -> (id: Option<ObjectId>)
        ensures
            id == picked_object(*self),
    {
        match self {
            Pick::Object(id) => Some(*id),
            _ => None,
        }
    }
}

impl Interaction {
    /// The state at the start: `Place` mode, no button seen down, nothing
    /// selected.
    pub fn new() -> (state: Interaction)
        ensures
            state == (Interaction {
                mode: Mode::Place,
                left: Button { down: false },
                right: Button { down: false },
                selected: None,
                targeted: None,
            }),
    {
        Interaction {
            mode: Mode::Place,
            left: Button::new(),
            right: Button::new(),
            selected: None,
            targeted: None,
        }
    }

    /// Changes to the other mode. The target does not outlive the change;
    /// the selection and the button memory do.
    pub fn toggle_mode(&mut self)
        ensures
            *final(self) == toggled(*old(self)),
    {
        self.mode = match self.mode {
            Mode::Place => Mode::Select,
            Mode::Select => Mode::Place,
        };
        self.targeted = None;
    }

    /// Forgets an object that left the scene.
    pub fn forget(&mut self, id: ObjectId)
        ensures
            *final(self) == forgetting(*old(self), id),
    {
        if self.selected == Some(id) {
            self.selected = None;
        }
        if self.targeted == Some(id) {
            self.targeted = None;
        }
    }

    /// Whether this frame puts a new object under the pointer.
    pub fn wants_spawn(&self, left: bool) -> (wanted: bool)
        ensures
            wanted == spawns(*self, left),
    {
        self.mode == Mode::Place && left && !self.left.is_down()
    }

    /// Whether this frame has to know what lies under the pointer.
    pub fn wants_pick(&self, left: bool, right: bool) -> (wanted: bool)
        ensures
            wanted == needs_pick(*self, left, right),
    {
        match self.mode {
            Mode::Place => right && !self.right.is_down(),
            Mode::Select => left,
        }
    }

    /// Takes one frame: the levels of the two buttons and what lies under
    /// the pointer. Gives back what the frame asks of the world.
    pub fn step(&mut self, left: bool, right: bool, pick: Pick) -> (plan: Plan)
        ensures
            *final(self) == state_after(*old(self), left, right, pick),
            plan == plan_of(*old(self), left, right, pick),
    {
        let left_edge = self.left.sample(left);
        let right_edge = self.right.sample(right);
        let pressed = left_edge == crate::input::Edge::Pressed;
        let released = left_edge == crate::input::Edge::Released;
        match self.mode {
            Mode::Place => {
                let remove = if right_edge == crate::input::Edge::Pressed {
                    pick.object()
                } else {
                    None
                };
                if let Some(gone) = remove {
                    self.forget(gone);
                }
                Plan {
                    spawn: pressed,
                    remove,
                    joint: None,
                    marker: MarkerPlan::AtPointer,
                    arrow: ArrowPlan::Hidden,
                }
            },
            Mode::Select => {
                if pressed {
                    match pick {
                        Pick::Nothing => {},
                        Pick::Foreign => {
                            self.selected = None;
                        },
                        Pick::Object(id) => {
                            self.selected = Some(id);
                        },
                    }
                }
                if left && self.selected.is_some() {
                    self.targeted = pick.object();
                }
                let mut joint: Option<Link> = None;
                let mut marker = MarkerPlan::Hidden;
                let mut arrow = ArrowPlan::Hidden;
                if let Some(selected) = self.selected {
                    marker = MarkerPlan::Around(selected);
                    match self.targeted {
                        Some(target) => {
                            if released && selected != target {
                                joint = Some(Link { from: selected, to: target });
                            }
                            if left {
                                arrow = ArrowPlan::ToObject(selected, target);
                            }
                        },
                        None => {
                            if left {
                                arrow = ArrowPlan::ToPointer(selected);
                            }
                        },
                    }
                }
                if released {
                    self.targeted = None;
                }
                Plan { spawn: false, remove: None, joint, marker, arrow }
            },
        }
    }
}

/// A joint is asked for exactly when the left button is released in `Select`
/// mode while an object is selected, an object is the target and the two
/// differ; it then leads from the selected object to the target.
pub proof fn lemma_joint_iff_two_distinct_ends(
    state: Interaction,
    left: bool,
    right: bool,
    pick: Pick,
)
    ensures
        plan_of(state, left, right, pick).joint is Some <==> {
            &&& state.mode == Mode::Select
            &&& state.left.down
            &&& !left
            &&& state.selected is Some
            &&& state.targeted is Some
            &&& state.selected != state.targeted
        },
        plan_of(state, left, right, pick).joint is Some ==> plan_of(state, left, right, pick).joint == Some(
            Link { from: state.selected->0, to: state.targeted->0 },
        ),
{
}

/// A release ends the drag: whatever the frame saw, no target is left after
/// it, and the same release cannot ask for a joint a second time.
pub proof fn lemma_release_clears_target(state: Interaction, left: bool, right: bool, pick: Pick)
    requires
        state.mode == Mode::Select,
        state.left.down,
        !left,
    ensures
        state_after(state, left, right, pick).targeted is None,
        forall|next_left: bool, next_right: bool, next_pick: Pick|
            (#[trigger] plan_of(
                state_after(state, left, right, pick),
                next_left,
                next_right,
                next_pick,
            )).joint is None,
{
}

/// One object per press: over any run of frames in `Place` mode, a new
/// object is asked for as often as the left button goes from up to down, no
/// matter how many frames it is then held, and whatever the right button and
/// the pointer do.
pub proof fn lemma_one_spawn_per_press(state: Interaction, frames: Seq<Frame>)
    requires
        state.mode == Mode::Place,
    ensures
        spawns_asked(state, frames) == rising_edges(state.left.down, left_levels(frames)),
        state_after_all(state, frames).left.down == level_after(state.left.down, left_levels(frames)),
        state_after_all(state, frames).mode == Mode::Place,
    decreases frames.len(),
{
    if frames.len() > 0 {
        let front = frames.drop_last();
        let levels = left_levels(frames);
        lemma_one_spawn_per_press(state, front);
        assert(levels.drop_last() == left_levels(front));
    }
}

/// An object that a frame removes is neither selected nor the target after
/// that frame.
pub proof fn lemma_removed_object_is_forgotten(
    state: Interaction,
    left: bool,
    right: bool,
    pick: Pick,
)
    ensures
        plan_of(state, left, right, pick).remove matches Some(gone) ==> {
            &&& state_after(state, left, right, pick).selected != Some(gone)
            &&& state_after(state, left, right, pick).targeted != Some(gone)
        },
{
}

/// Presses spawn: in `Place` mode a frame asks for a new object exactly when
/// the left button is down on it and was up on the frame before.
pub proof fn lemma_spawn_on_press_only(state: Interaction, left: bool, right: bool, pick: Pick)
    ensures
        plan_of(state, left, right, pick).spawn <==> (state.mode == Mode::Place && left && !state.left.down),
        state_after(state, left, right, pick).left.down == left,
        state_after(state, left, right, pick).right.down == right,
        state_after(state, left, right, pick).mode == state.mode,
{
}

} // verus!
