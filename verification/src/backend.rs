//! The physics world of `let_engine`, as far as the sandbox calls it.
//!
//! Nothing in this file is proved. The types are declared so that their
//! values can be carried through verified code, which never looks inside
//! them. Each function calls into the engine and says in its doc comment
//! what it calls and what is assumed of the answer; most often that is
//! nothing, and the callers are proved for every answer.

use let_engine::prelude::{ColliderBuilder, FixedJointBuilder, NewObject, RigidBodyBuilder};
use std::sync::Arc;
use vstd::prelude::*;

verus! {

/// A point or an offset in the plane, `glam::Vec2`.
#[verifier::external_type_specification]
#[verifier::external_body]
pub struct ExVec2(let_engine::Vec2);

/// Position, size and rotation of an object.
#[verifier::external_type_specification]
#[verifier::external_body]
pub struct ExTransform(let_engine::objects::Transform);

/// A colour with alpha.
#[verifier::external_type_specification]
#[verifier::external_body]
pub struct ExColor(let_engine::objects::Color);

/// Geometry and material that the renderer draws an object with.
#[verifier::external_type_specification]
#[verifier::external_body]
pub struct ExAppearance(let_engine::objects::Appearance);

/// One layer of the engine's scene, with its own physics world.
#[verifier::external_type_specification]
#[verifier::external_body]
pub struct ExLayer(let_engine::objects::scenes::Layer);

/// The engine's handle of an object that was put into a layer.
#[verifier::external_type_specification]
#[verifier::external_body]
pub struct ExObject(let_engine::objects::Object);

/// How the engine combines the coefficients of two touching colliders.
#[verifier::external_type_specification]
#[verifier::external_body]
pub struct ExCoefficientCombineRule(let_engine::CoefficientCombineRule);

/// How the engine moves a rigid body.
#[verifier::external_type_specification]
#[verifier::external_body]
pub struct ExRigidBodyType(let_engine::objects::physics::RigidBodyType);

/// An object that lives in a layer.
///
/// A `Body` is made by [`spawn_box`] and ends in [`despawn`]; it cannot be
/// copied. So while a `Body` exists, the layer holds its object.
pub struct Body {
    object: let_engine::objects::Object,
}

/// The origin of the plane, the constant `Vec2::ZERO`. Nothing is assumed
/// of the value.
#[verifier::external_body]
pub(crate) fn origin() -> (point: let_engine::Vec2) {
    let_engine::Vec2::ZERO
}

/// The offset that leads from `from` to `to`: `Vec2`'s subtraction of
/// `from` from `to`. Nothing is assumed of the value.
#[verifier::external_body]
pub(crate) fn offset(from: let_engine::Vec2, to: let_engine::Vec2) -> (delta: let_engine::Vec2) {
    to - from
}

/// The field `position` of a transform. Nothing is assumed of the value.
#[verifier::external_body]
pub(crate) fn position_of(transform: let_engine::objects::Transform) -> (position:
    let_engine::Vec2) {
    transform.position
}

/// The engine's rule that takes the average of two coefficients,
/// `CoefficientCombineRule::Average`.
#[verifier::external_body]
pub(crate) fn average_rule() -> (rule: let_engine::CoefficientCombineRule) {
    let_engine::CoefficientCombineRule::Average
}

/// The engine's rule that takes the smaller of two coefficients,
/// `CoefficientCombineRule::Min`.
#[verifier::external_body]
pub(crate) fn min_rule() -> (rule: let_engine::CoefficientCombineRule) {
    let_engine::CoefficientCombineRule::Min
}

/// The engine's rule that takes the product of two coefficients,
/// `CoefficientCombineRule::Multiply`.
#[verifier::external_body]
pub(crate) fn multiply_rule() -> (rule: let_engine::CoefficientCombineRule) {
    let_engine::CoefficientCombineRule::Multiply
}

/// The engine's rule that takes the larger of two coefficients,
/// `CoefficientCombineRule::Max`.
#[verifier::external_body]
pub(crate) fn max_rule() -> (rule: let_engine::CoefficientCombineRule) {
    let_engine::CoefficientCombineRule::Max
}

/// The engine's type of a body that never moves, `RigidBodyType::Fixed`.
#[verifier::external_body]
pub(crate) fn fixed_type() -> (body_type: let_engine::objects::physics::RigidBodyType) {
    let_engine::objects::physics::RigidBodyType::Fixed
}

/// The engine's type of a body that forces move, `RigidBodyType::Dynamic`.
#[verifier::external_body]
pub(crate) fn dynamic_type() -> (body_type: let_engine::objects::physics::RigidBodyType) {
    let_engine::objects::physics::RigidBodyType::Dynamic
}

/// Puts a box into the layer with `NewObject::init`.
///
/// The object stands at `position` with the rotation of `shape`. Its collider
/// is a box with the half extents `shape.size`, built by
/// `ColliderBuilder::square` with the restitution that the builder starts
/// with, which is zero, and the given combine rule; its rigid body is of the
/// given type. It is drawn with `look` in `color`, scaled to `shape.size`.
///
/// Nothing is assumed of the result: the engine may refuse the object, and
/// then there is no body. The sizes and coordinates are taken to be finite
/// numbers.
#[verifier::external_body]
pub(crate) fn spawn_box(
    layer: &Arc<let_engine::objects::scenes::Layer>,
    position: let_engine::Vec2,
    shape: let_engine::objects::Transform,
    look: &let_engine::objects::Appearance,
    color: let_engine::objects::Color,
    rule: let_engine::CoefficientCombineRule,
    body_type: let_engine::objects::physics::RigidBodyType,
) -> (body: Option<Body>) {
    let size = shape.size;
    let mut object = NewObject::new();
    object.transform = object.transform.position(position).rotation(shape.rotation);
    object.appearance = look.clone().color(color).transform(look.get_transform().size(size));
    object.set_collider(
        Some(ColliderBuilder::square(size.x, size.y).restitution_combine_rule(rule).build()),
    );
    object.set_rigid_body(Some(RigidBodyBuilder::new(body_type).build()));
    match object.init(layer) {
        Ok(object) => Some(Body { object }),
        Err(_) => None,
    }
}

/// Takes the object out of its layer with `Object::remove`, together with
/// its collider and its rigid body. Nothing comes back.
///
/// `Object::remove` panics on an object that its layer no longer holds. A
/// `Body` stands for an object that is still there, so the call returns as
/// long as nobody took the layer itself out of the scene.
#[verifier::external_body]
pub(crate) fn despawn(body: Body) {
    body.object.remove();
}

/// The number under which the layer knows the object, `Object::id`. The
/// engine's ray queries answer with these numbers. Nothing is assumed of
/// the number.
#[verifier::external_body]
pub(crate) fn engine_id(body: &Body) -> (id: usize) {
    body.object.id()
}

/// Where the object is now: the transform that `Object::update` reads from
/// the layer. The physics loop moves dynamic bodies between two calls, so
/// nothing is assumed of the result.
#[verifier::external_body]
pub(crate) fn live_transform(body: &Body) -> (transform: let_engine::objects::Transform) {
    let mut object = body.object.clone();
    object.update();
    object.transform
}

/// The first object that a ray meets, by `Layer::cast_ray`. The ray starts
/// at `from` and has the given direction; its reach is the number that
/// `Default::default()` gives, which is zero, so it never leaves its start.
/// With no direction either, the engine tests whether the start lies in a
/// collider. The answer is the engine's number of one object, or nothing;
/// nothing more is assumed of it.
#[verifier::external_body]
pub(crate) fn cast_in_place(
    layer: &Arc<let_engine::objects::scenes::Layer>,
    from: let_engine::Vec2,
    direction: let_engine::Vec2,
    solid: bool,
) -> (hit: Option<usize>) {
    layer.cast_ray(from, direction, Default::default(), solid)
}

/// The objects that a ray meets, by `Layer::intersections_with_ray`, with
/// the same ray as [`cast_in_place`]. With no direction the engine names
/// every object whose collider holds the start. The answer holds the
/// engine's numbers in the order in which it found them; nothing more is
/// assumed of it.
#[verifier::external_body]
pub(crate) fn intersections_in_place(
    layer: &Arc<let_engine::objects::scenes::Layer>,
    from: let_engine::Vec2,
    direction: let_engine::Vec2,
    solid: bool,
) -> (hits: Vec<usize>) {
    layer.intersections_with_ray(from, direction, Default::default(), solid)
}

/// Binds two bodies with a fixed joint, by `Layer::add_joint` with a
/// `FixedJointBuilder` that has the two anchors, each in the local frame of
/// its body. The answer says whether the engine made the joint; it refuses
/// one where a body has no rigid body. Nothing is assumed of the answer.
#[verifier::external_body]
pub(crate) fn add_fixed_joint(
    layer: &Arc<let_engine::objects::scenes::Layer>,
    first: &Body,
    second: &Body,
    anchor1: let_engine::Vec2,
    anchor2: let_engine::Vec2,
    wake_up: bool,
) -> (made: bool) {
    let joint = FixedJointBuilder::new().local_anchor1(anchor1).local_anchor2(anchor2);
    layer.add_joint(&first.object, &second.object, joint, wake_up).is_ok()
}

} // verus!
