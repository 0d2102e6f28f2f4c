//! The game: the scene, the interaction state and the physics world in one
//! value, and the frame that drives them.
//!
//! What a frame decides is [`crate::interaction`]'s; here the decision meets
//! the world. The world answers as it likes: it may refuse an object or a
//! joint, and what lies under the pointer is for it to say. So each function
//! states what holds for every answer, and the functions that take an answer
//! as an argument state what becomes of it exactly.

mod binding;
mod controls;
mod lifecycle;
mod picking;

use crate::backend::live_transform;
use crate::camera::{pan_after, pan_followed, Pan, PanAnchor};
use crate::interaction::{
    needs_pick, plan_of, state_after, toggled, ArrowPlan, Interaction, Link, MarkerPlan, Mode, Pick,
    Plan,
};
use crate::joints::{without, Joint, JointBook};
use crate::scene::{BodyKind, CombineRule, Description, ObjectId, SceneStore, SimulationObject};
use crate::ticker::{cap_for, FrameCap};
use let_engine::objects::scenes::Layer;
use let_engine::objects::{Appearance, Color, Transform};
use let_engine::Vec2;
use std::sync::Arc;
use vstd::prelude::*;

verus! {

/// What the next object is made from.
#[derive(Debug)]
pub struct Template {
    /// Size and rotation. The position inside is not used: an object is put
    /// where the pointer is.
    pub shape: Transform,
    /// The colour.
    pub color: Color,
    /// Whether the object is anchored, that is fixed in place.
    pub anchored: bool,
    /// Geometry and material for the renderer.
    pub look: Appearance,
}

/// Why no object was made.
#[derive(Clone, Copy, PartialEq, Eq, Structural, Debug)]
pub enum SpawnError {
    /// The store has given out all its names.
    Exhausted,
    /// The physics world refused the object.
    Refused,
}

/// What the frame is told.
#[derive(Clone, Copy, Debug)]
pub struct FrameInput {
    /// The pointer in world coordinates.
    pub pointer: Vec2,
    /// Whether the left button is down.
    pub left: bool,
    /// Whether the right button is down.
    pub right: bool,
    /// Whether the middle button is down.
    pub middle: bool,
    /// The pointer in coordinates that do not change with the zoom.
    pub pan_pointer: Vec2,
    /// Where the camera is.
    pub camera: Vec2,
}

/// What one pass of the overlay leaves behind: the values that its widgets
/// show after the pass, and what was clicked or moved in it.
#[derive(Clone, Copy, Debug)]
pub struct PanelChanges {
    /// Whether the next object is anchored.
    pub anchored: bool,
    /// Size and rotation of the next object.
    pub shape: Transform,
    /// The colour of the next object, if the colour picker was used.
    pub color: Option<Color>,
    /// Whether the button that changes the mode was clicked.
    pub toggle_mode: bool,
    /// The frame rate asked for, if the slider was moved.
    pub fps_cap: Option<u64>,
    /// Whether the overlay has the pointer or the keyboard now.
    pub captured: bool,
}

/// The template after a pass of the overlay.
pub open spec fn template_after(template: Template, changes: PanelChanges) -> Template {
    Template {
        shape: changes.shape,
        color: match changes.color {
            Some(color) => color,
            None => template.color,
        },
        anchored: changes.anchored,
        look: template.look,
    }
}

/// The interaction state after a pass of the overlay: the other mode and no
/// target if the mode was changed, and as before if not.
pub open spec fn mode_after(state: Interaction, changes: PanelChanges) -> Interaction {
    if changes.toggle_mode {
        toggled(state)
    } else {
        state
    }
}

/// The cap on the frame rate that a pass of the overlay asks for, if it
/// asks for one.
pub open spec fn cap_asked(changes: PanelChanges) -> Option<FrameCap> {
    match changes.fps_cap {
        Some(asked) => Some(cap_for(asked)),
        None => None,
    }
}

/// Where the placement marker is to be drawn.
#[derive(Clone, Copy, Debug)]
pub enum Marker {
    /// Nowhere.
    Hidden,
    /// At the pointer, as the next object would look.
    Template { position: Vec2, shape: Transform, color: Color },
    /// Around the selected object, where it is now.
    Around { id: ObjectId, pose: Transform, shape: Transform },
}

/// Where the link arrow is to be drawn.
#[derive(Clone, Copy, Debug)]
pub enum Arrow {
    /// Nowhere.
    Hidden,
    /// From one point to another. An arrow of no length is not drawn.
    Shown { from: Vec2, to: Vec2 },
}

/// What a frame did and what is to be drawn after it.
#[derive(Clone, Copy, Debug)]
pub struct FrameReport {
    /// The frame was skipped; nothing changed and nothing is to be redrawn.
    pub skipped: bool,
    /// What lay under the pointer, where the frame had to know.
    pub picked: Pick,
    /// What the frame asked for.
    pub plan: Plan,
    /// The object that the frame made.
    pub spawned: Option<ObjectId>,
    /// Why the frame made no object although it asked for one.
    pub spawn_failed: Option<SpawnError>,
    /// The object that the frame removed.
    pub removed: Option<ObjectId>,
    /// The joint that the frame made.
    pub joint: Option<Joint>,
    /// Where the placement marker is to be drawn.
    pub marker: Marker,
    /// Where the link arrow is to be drawn.
    pub arrow: Arrow,
    /// The pair that the camera follows on this frame.
    pub pan: Option<PanAnchor>,
}

/// What an object made from the template at the point `at` is made from: a
/// box of the template's shape and colour, fixed if the template is
/// anchored and dynamic if not, whose restitution combines by the smaller
/// of two.
pub open spec fn description_at(template: Template, at: Vec2) -> Description {
    Description {
        position: at,
        shape: template.shape,
        color: template.color,
        kind: if template.anchored {
            BodyKind::Fixed
        } else {
            BodyKind::Dynamic
        },
        restitution_rule: CombineRule::Min,
    }
}

/// What the pointer is over, given what the physics world answered: nothing
/// where it named no collider, the oldest object that it knows under the
/// number it named, and a foreign collider where the store has no such
/// object.
pub open spec fn resolved(scene: SceneStore, hit: Option<usize>) -> Pick {
    match hit {
        None => Pick::Nothing,
        Some(engine_id) => {
            let at = crate::scene::first_known_as(scene.entries(), engine_id);
            if at < scene.entries().len() {
                Pick::Object(scene.entries()[at].id)
            } else {
                Pick::Foreign
            }
        },
    }
}

/// The marker is drawn as the plan says: hidden where the plan hides it,
/// like the template at the pointer, or around the planned object with that
/// object's shape.
pub open spec fn marker_follows(
    plan: MarkerPlan,
    marker: Marker,
    scene: SceneStore,
    template: Template,
    pointer: Vec2,
) -> bool {
    match plan {
        MarkerPlan::Hidden => marker is Hidden,
        MarkerPlan::AtPointer => marker == (Marker::Template {
            position: pointer,
            shape: template.shape,
            color: template.color,
        }),
        MarkerPlan::Around(planned) => marker matches Marker::Around { id, shape, .. } && id == planned
            && shape == scene@[planned].description.shape,
    }
}

/// The arrow is drawn as the plan says: hidden where the plan hides it,
/// shown where the plan shows it, and ending at the pointer where the plan
/// leads it there.
pub open spec fn arrow_follows(plan: ArrowPlan, arrow: Arrow, pointer: Vec2) -> bool {
    match plan {
        ArrowPlan::Hidden => arrow is Hidden,
        ArrowPlan::ToPointer(_) => arrow matches Arrow::Shown { to, .. } && to == pointer,
        ArrowPlan::ToObject(_, _) => arrow is Shown,
    }
}

/// The scene holds the object, if one is named.
pub open spec fn known_or_none(id: Option<ObjectId>, scene: Map<ObjectId, SimulationObject>) -> bool {
    id is Some ==> scene.contains_key(id->0)
}

/// The joint binds two different objects of the scene.
pub open spec fn binds(joint: Joint, scene: Map<ObjectId, SimulationObject>) -> bool {
    &&& joint.first != joint.second
    &&& scene.contains_key(joint.first)
    &&& scene.contains_key(joint.second)
}

/// Every joint binds two different objects of the scene.
pub open spec fn joints_bind(links: Seq<Joint>, scene: Map<ObjectId, SimulationObject>) -> bool {
    forall|i: int| 0 <= i < links.len() ==> binds(#[trigger] links[i], scene)
}

/// The objects of the store among the answers of the physics world, in the
/// order of the answers. An answer that names no object of the store is
/// passed over.
pub open spec fn resolved_all(scene: SceneStore, hits: Seq<usize>) -> Seq<ObjectId>
    decreases hits.len(),
{
    if hits.len() == 0 {
        Seq::empty()
    } else {
        let front = resolved_all(scene, hits.drop_last());
        match resolved(scene, Some(hits.last())) {
            Pick::Object(id) => front.push(id),
            _ => front,
        }
    }
}

/// The joints after an object left, or the same joints where none left.
pub open spec fn links_without(links: Seq<Joint>, gone: Option<ObjectId>) -> Seq<Joint> {
    match gone {
        Some(id) => without(links, id),
        None => links,
    }
}

/// The scene, the interaction state and the physics world.
pub struct Game {
    layer: Arc<Layer>,
    store: SceneStore,
    joints: JointBook,
    interaction: Interaction,
    pan: Pan,
    template: Template,
    text: String,
    captured: bool,
    closing: bool,
}

impl Game {
    /// The objects of the scene.
    pub closed spec fn scene(&self) -> SceneStore {
        self.store
    }

    /// The joints on record, oldest first.
    pub closed spec fn links(&self) -> Seq<Joint> {
        self.joints@
    }

    /// What is remembered of the pointer.
    pub closed spec fn state(&self) -> Interaction {
        self.interaction
    }

    /// What is remembered of the pan.
    pub closed spec fn panning(&self) -> Pan {
        self.pan
    }

    /// What the next object is made from.
    pub closed spec fn pattern(&self) -> Template {
        self.template
    }

    /// The layer of the physics world that the game plays in.
    pub closed spec fn world(&self) -> Arc<Layer> {
        self.layer
    }

    /// The text that the labels show.
    pub closed spec fn label(&self) -> Seq<char> {
        self.text@
    }

    /// Whether the overlay has the pointer or the keyboard.
    pub closed spec fn is_captured(&self) -> bool {
        self.captured
    }

    /// Whether the game was asked to end.
    pub closed spec fn is_closing(&self) -> bool {
        self.closing
    }

    /// What holds of every game: the store is in order, what is selected
    /// or targeted is in the store, and every joint binds two different
    /// objects of the store.
    pub open spec fn wf(&self) -> bool {
        &&& self.scene().wf()
        &&& self.panning().wf()
        &&& known_or_none(self.state().selected, self.scene()@)
        &&& known_or_none(self.state().targeted, self.scene()@)
        &&& joints_bind(self.links(), self.scene()@)
    }

    /// What the scene does not touch is as in `before`: the layer, the
    /// template, the pan, the text and the two flags.
    pub open spec fn same_setup(&self, before: &Game) -> bool {
        &&& self.world() == before.world()
        &&& self.pattern() == before.pattern()
        &&& self.panning() == before.panning()
        &&& self.same_controls(before)
    }

    /// The text and the two flags are as in `before`.
    pub open spec fn same_controls(&self, before: &Game) -> bool {
        &&& self.label() == before.label()
        &&& self.is_captured() == before.is_captured()
        &&& self.is_closing() == before.is_closing()
    }

    /// The scene, the joints and the interaction state are as in `before`.
    pub open spec fn same_play(&self, before: &Game) -> bool {
        &&& self.scene() == before.scene()
        &&& self.links() == before.links()
        &&& self.state() == before.state()
    }

    /// A game in the given layer: no objects, no joints, `Place` mode, no
    /// button seen down.
    pub fn new(layer: Arc<Layer>, template: Template, text: String) -> (game: Game)
        ensures
            game.wf(),
            game.world() == layer,
            game.pattern() == template,
            game.label() == text@,
            !game.is_captured(),
            !game.is_closing(),
            game.scene()@ == Map::<ObjectId, SimulationObject>::empty(),
            game.scene().issued() == 0,
            game.links() == Seq::<Joint>::empty(),
            game.state() == (Interaction {
                mode: Mode::Place,
                left: crate::input::Button { down: false },
                right: crate::input::Button { down: false },
                selected: None,
                targeted: None,
            }),
            !game.panning().middle.down,
            game.panning().anchor is None,
    {
        Game {
            layer,
            store: SceneStore::new(),
            joints: JointBook::new(),
            interaction: Interaction::new(),
            pan: Pan::new(),
            template,
            text,
            captured: false,
            closing: false,
        }
    }

    /// A game like a new one, whose store gives out its names from `first`
    /// on.
    pub fn starting_at(layer: Arc<Layer>, template: Template, text: String, first: u64) -> (game:
        Game)
        ensures
            game.wf(),
            game.world() == layer,
            game.pattern() == template,
            game.label() == text@,
            !game.is_captured(),
            !game.is_closing(),
            game.scene()@ == Map::<ObjectId, SimulationObject>::empty(),
            game.scene().issued() == first,
            game.links() == Seq::<Joint>::empty(),
            game.state() == (Interaction {
                mode: Mode::Place,
                left: crate::input::Button { down: false },
                right: crate::input::Button { down: false },
                selected: None,
                targeted: None,
            }),
            !game.panning().middle.down,
            game.panning().anchor is None,
    {
        Game {
            layer,
            store: SceneStore::starting_at(first),
            joints: JointBook::new(),
            interaction: Interaction::new(),
            pan: Pan::new(),
            template,
            text,
            captured: false,
            closing: false,
        }
    }

    /// The objects of the scene.
    pub fn store(&self) -> (store: &SceneStore)
        ensures
            *store == self.scene(),
    {
        &self.store
    }

    /// The joints on record.
    pub fn joints(&self) -> (joints: &JointBook)
        ensures
            joints@ == self.links(),
    {
        &self.joints
    }

    /// What is remembered of the pointer.
    pub fn interaction(&self) -> (state: Interaction)
        ensures
            state == self.state(),
    {
        self.interaction
    }

    /// What the next object is made from.
    pub fn template(&self) -> (template: &Template)
        ensures
            *template == self.pattern(),
    {
        &self.template
    }

    /// The layer of the physics world that the game plays in.
    pub fn layer(&self) -> (layer: &Arc<Layer>)
        ensures
            *layer == self.world(),
    {
        &self.layer
    }

    /// Where the placement marker is to be drawn for a plan.
    fn place_marker(&self, plan: MarkerPlan, pointer: Vec2) -> (marker: Marker)
        requires
            self.wf(),
            plan matches MarkerPlan::Around(id) ==> self.scene()@.contains_key(id),
        ensures
            marker_follows(plan, marker, self.scene(), self.pattern(), pointer),
    {
        match plan {
            MarkerPlan::Hidden => Marker::Hidden,
            MarkerPlan::AtPointer => Marker::Template {
                position: pointer,
                shape: self.template.shape,
                color: self.template.color,
            },
            MarkerPlan::Around(id) => match self.store.get(id) {
                Some(object) => Marker::Around {
                    id,
                    pose: live_transform(&object.body),
                    shape: object.description.shape,
                },
                None => Marker::Hidden,
            },
        }
    }

    /// Where the link arrow is to be drawn for a plan.
    fn place_arrow(&self, plan: ArrowPlan, pointer: Vec2) -> (arrow: Arrow)
        requires
            self.wf(),
            plan matches ArrowPlan::ToPointer(from) ==> self.scene()@.contains_key(from),
            plan matches ArrowPlan::ToObject(from, to) ==> self.scene()@.contains_key(from)
                && self.scene()@.contains_key(to),
        ensures
            arrow_follows(plan, arrow, pointer),
    {
        match plan {
            ArrowPlan::Hidden => Arrow::Hidden,
            ArrowPlan::ToPointer(from) => match self.position_of(from) {
                Some(start) => Arrow::Shown { from: start, to: pointer },
                None => Arrow::Hidden,
            },
            ArrowPlan::ToObject(from, to) => match self.position_of(from) {
                Some(start) => match self.position_of(to) {
                    Some(end) => Arrow::Shown { from: start, to: end },
                    None => Arrow::Hidden,
                },
                None => Arrow::Hidden,
            },
        }
    }

    /// Takes one frame.
    ///
    /// A frame on which the overlay has the pointer changes nothing. On any
    /// other frame, in this order: a press of the left button in `Place` mode
    /// makes an object under the pointer; the physics world is asked what
    /// lies under the pointer, if the frame has to know; the interaction
    /// state moves on; the object that the frame removes leaves the scene;
    /// the joint that the frame asks for is made; the marker and the arrow
    /// are placed; the pan is tracked.
    pub fn update(&mut self, input: FrameInput) -> (report: FrameReport)
        requires
            old(self).wf(),
        ensures
            final(self).wf(),
            final(self).world() == old(self).world(),
            final(self).pattern() == old(self).pattern(),
            final(self).same_controls(old(self)),
            report.skipped == old(self).is_captured(),
            old(self).is_captured() ==> {
                &&& final(self).same_play(old(self))
                &&& final(self).panning() == old(self).panning()
                &&& report.spawned is None
                &&& report.spawn_failed is None
                &&& report.removed is None
                &&& report.joint is None
                &&& report.pan is None
            },
            !old(self).is_captured() ==> {
                &&& report.plan == plan_of(old(self).state(), input.left, input.right, report.picked)
                &&& final(self).state() == state_after(
                    old(self).state(),
                    input.left,
                    input.right,
                    report.picked,
                )
                &&& !needs_pick(old(self).state(), input.left, input.right) ==> report.picked is Nothing
                &&& report.picked matches Pick::Object(id) ==> old(self).scene()@.contains_key(id)
                    || report.spawned == Some(id)
                &&& final(self).panning() == pan_after(
                    old(self).panning(),
                    input.middle,
                    input.pan_pointer,
                    input.camera,
                )
                &&& report.pan == pan_followed(
                    old(self).panning(),
                    input.middle,
                    input.pan_pointer,
                    input.camera,
                )
                &&& report.removed == report.plan.remove
                &&& report.plan.spawn <==> report.spawned is Some || report.spawn_failed is Some
                &&& !(report.spawned is Some && report.spawn_failed is Some)
                &&& report.spawn_failed == Some(SpawnError::Exhausted) <==> report.plan.spawn && !old(
                    self,
                ).scene().has_room()
                &&& report.spawned matches Some(id) ==> id.0 == old(self).scene().issued()
                    && !old(self).scene()@.contains_key(id)
                &&& forall|id: ObjectId| #[trigger]
                    final(self).scene()@.contains_key(id) <==> (old(self).scene()@.contains_key(id)
                        || report.spawned == Some(id)) && report.removed != Some(id)
                &&& forall|id: ObjectId|
                    old(self).scene()@.contains_key(id) && #[trigger] final(self).scene()@.contains_key(
                        id,
                    ) ==> final(self).scene()@[id] == old(self).scene()@[id]
                &&& report.spawned matches Some(id) ==> (final(self).scene()@.contains_key(id) ==> {
                    final(self).scene()@[id].description == description_at(
                        old(self).pattern(),
                        input.pointer,
                    )
                })
                &&& report.joint matches Some(joint) ==> report.plan.joint == Some(
                    Link { from: joint.first, to: joint.second },
                )
                &&& final(self).links() == match report.joint {
                    Some(joint) => links_without(old(self).links(), report.removed).push(joint),
                    None => links_without(old(self).links(), report.removed),
                }
                &&& marker_follows(
                    report.plan.marker,
                    report.marker,
                    final(self).scene(),
                    old(self).pattern(),
                    input.pointer,
                )
                &&& arrow_follows(report.plan.arrow, report.arrow, input.pointer)
            },
    {
        if self.captured {
            return FrameReport {
                skipped: true,
                picked: Pick::Nothing,
                plan: Plan {
                    spawn: false,
                    remove: None,
                    joint: None,
                    marker: MarkerPlan::Hidden,
                    arrow: ArrowPlan::Hidden,
                },
                spawned: None,
                spawn_failed: None,
                removed: None,
                joint: None,
                marker: Marker::Hidden,
                arrow: Arrow::Hidden,
                pan: None,
            };
        }
        let mut spawned: Option<ObjectId> = None;
        let mut spawn_failed: Option<SpawnError> = None;
        if self.interaction.wants_spawn(input.left) {
            match self.spawn(input.pointer) {
                Ok(id) => {
                    spawned = Some(id);
                },
                Err(error) => {
                    spawn_failed = Some(error);
                },
            }
        }
        let picked = if self.interaction.wants_pick(input.left, input.right) {
            self.pick(input.pointer)
        } else {
            Pick::Nothing
        };
        let plan = self.interaction.step(input.left, input.right, picked);
        if let Some(gone) = plan.remove {
            let _ = self.remove(gone);
        }
        let joint = match plan.joint {
            Some(link) => self.link(link.from, link.to),
            None => None,
        };
        let marker = self.place_marker(plan.marker, input.pointer);
        let arrow = self.place_arrow(plan.arrow, input.pointer);
        let pan = self.pan.track(input.middle, input.pan_pointer, input.camera);
        FrameReport {
            skipped: false,
            picked,
            plan,
            spawned,
            spawn_failed,
            removed: plan.remove,
            joint,
            marker,
            arrow,
            pan,
        }
    }
}

} // verus!
