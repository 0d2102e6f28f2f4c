use let_engine::objects::physics::{ColliderBuilder, RigidBodyBuilder};
use let_engine::objects::{Appearance, Color, NewObject, Transform};
use let_engine::{vec2, Vec2};
use physics_sandbox::game::{
    Arrow, FrameInput, Game, Marker, PanelChanges, SpawnError, Template,
};
use physics_sandbox::input::{Key, KeyAction};
use physics_sandbox::ticker::FrameCap;
use physics_sandbox::interaction::{Link, MarkerPlan, Mode, Pick};
use physics_sandbox::joints::Joint;
use physics_sandbox::scene::{BodyKind, CombineRule, Description, ObjectId, SceneError};

fn small_box() -> Template {
    Template {
        shape: Transform::default().size(vec2(0.07, 0.07)),
        color: Color::from_rgba(0.7, 0.3, 0.3, 1.0),
        anchored: false,
        look: Appearance::default(),
    }
}

fn new_game() -> Game {
    Game::new(let_engine::SCENE.new_layer(), small_box(), String::from("hello"))
}

fn frame(pointer: Vec2, left: bool, right: bool) -> FrameInput {
    FrameInput {
        pointer,
        left,
        right,
        middle: false,
        pan_pointer: vec2(0.0, 0.0),
        camera: vec2(0.0, 0.0),
    }
}

fn click_left(game: &mut Game, at: Vec2) -> Option<ObjectId> {
    let spawned = game.update(frame(at, true, false)).spawned;
    game.update(frame(at, false, false));
    spawned
}

#[test]
fn a_new_game_is_empty_and_in_place_mode() {
    let game = new_game();
    assert_eq!(game.store().len(), 0);
    assert!(game.store().is_empty());
    assert_eq!(game.joints().len(), 0);
    assert_eq!(game.interaction().mode, Mode::Place);
    assert_eq!(game.interaction().selected, None);
    assert_eq!(game.text(), "hello");
    assert!(!game.captured());
    assert!(!game.exit());
    assert_eq!(game.template().shape.size, vec2(0.07, 0.07));
}

#[test]
fn spawn_from_template_at_origin_adds_one_dynamic_object() {
    let mut game = new_game();
    let id = game.spawn(vec2(0.0, 0.0)).unwrap();
    assert_eq!(game.store().len(), 1);
    let object = game.store().get(id).unwrap();
    assert_eq!(object.id, id);
    assert_eq!(object.description.kind, BodyKind::Dynamic);
    assert_eq!(object.description.restitution_rule, CombineRule::Min);
    assert_eq!(object.description.position, vec2(0.0, 0.0));
    assert_eq!(object.description.shape.size, vec2(0.07, 0.07));
    assert_eq!(object.description.color, Color::from_rgba(0.7, 0.3, 0.3, 1.0));
    assert_eq!(game.transform_of(id).unwrap().position, vec2(0.0, 0.0));
}

#[test]
fn an_anchored_template_makes_a_fixed_object() {
    let mut game = new_game();
    game.set_anchored(true);
    let id = game.spawn(vec2(0.3, -0.2)).unwrap();
    assert_eq!(game.store().get(id).unwrap().description.kind, BodyKind::Fixed);
    assert_eq!(game.describe(vec2(1.0, 1.0)).kind, BodyKind::Fixed);
}

#[test]
fn a_spawned_object_keeps_its_look_when_the_template_changes() {
    let mut game = new_game();
    let first = game.spawn(vec2(0.0, 0.0)).unwrap();
    game.set_shape(Transform::default().size(vec2(0.5, 0.25)));
    game.set_color(Color::from_rgba(0.0, 1.0, 0.0, 1.0));
    let second = game.spawn(vec2(2.0, 0.0)).unwrap();
    assert_eq!(game.store().get(first).unwrap().description.shape.size, vec2(0.07, 0.07));
    assert_eq!(
        game.store().get(first).unwrap().description.color,
        Color::from_rgba(0.7, 0.3, 0.3, 1.0)
    );
    assert_eq!(game.store().get(second).unwrap().description.shape.size, vec2(0.5, 0.25));
    assert_eq!(
        game.store().get(second).unwrap().description.color,
        Color::from_rgba(0.0, 1.0, 0.0, 1.0)
    );
}

#[test]
fn set_template_replaces_the_whole_template() {
    let mut game = new_game();
    game.set_template(Template {
        shape: Transform::default().size(vec2(1.0, 2.0)).rotation(0.5),
        color: Color::from_rgba(0.1, 0.2, 0.3, 0.4),
        anchored: true,
        look: Appearance::default(),
    });
    assert_eq!(game.template().shape.size, vec2(1.0, 2.0));
    assert_eq!(game.template().shape.rotation, 0.5);
    assert_eq!(game.template().color, Color::from_rgba(0.1, 0.2, 0.3, 0.4));
    assert!(game.template().anchored);
}

#[test]
fn spawning_with_zero_size_is_permitted() {
    let mut game = new_game();
    game.set_shape(Transform::default().size(vec2(0.0, 0.0)));
    let id = game.spawn(vec2(0.0, 0.0)).unwrap();
    assert!(game.store().contains(id));
    assert_eq!(game.store().len(), 1);
}

#[test]
fn spawn_with_files_the_description_as_given() {
    let mut game = new_game();
    let platform = Description {
        position: vec2(0.0, 1.0),
        shape: Transform::default().size(vec2(5.0, 0.1)),
        color: Color::from_rgba(1.0, 1.0, 1.0, 1.0),
        kind: BodyKind::Fixed,
        restitution_rule: CombineRule::Average,
    };
    let id = game.spawn_with(platform).unwrap();
    let filed = game.store().get(id).unwrap();
    assert_eq!(filed.description.position, vec2(0.0, 1.0));
    assert_eq!(filed.description.shape.size, vec2(5.0, 0.1));
    assert_eq!(filed.description.kind, BodyKind::Fixed);
    assert_eq!(filed.description.restitution_rule, CombineRule::Average);
    assert_eq!(game.pick(vec2(4.9, 1.05)), Pick::Object(id));
    assert_eq!(game.pick(vec2(5.1, 1.0)), Pick::Nothing);
}

#[test]
fn enroll_without_a_body_is_a_refusal() {
    let mut game = new_game();
    let description = game.describe(vec2(0.0, 0.0));
    assert_eq!(game.enroll(description, None), Err(SpawnError::Refused));
    assert_eq!(game.store().len(), 0);
}

#[test]
fn names_count_upwards_and_are_not_given_twice() {
    let mut game = new_game();
    let first = game.spawn(vec2(0.0, 0.0)).unwrap();
    let second = game.spawn(vec2(1.0, 0.0)).unwrap();
    assert_eq!(first, ObjectId(0));
    assert_eq!(second, ObjectId(1));
    game.remove(second).unwrap();
    game.remove(first).unwrap();
    let third = game.spawn(vec2(0.0, 0.0)).unwrap();
    assert_eq!(third, ObjectId(2));
    assert!(game.store().get(first).is_none());
    assert!(game.store().get(second).is_none());
    assert_eq!(game.store().ids(), vec![third]);
}

#[test]
fn spawn_then_remove_restores_the_size_of_the_store() {
    let mut game = new_game();
    game.spawn(vec2(0.0, 0.0)).unwrap();
    game.spawn(vec2(1.0, 0.0)).unwrap();
    for round in 0..5 {
        let before = game.store().len();
        let id = game.spawn(vec2(2.0 + round as f32, 0.0)).unwrap();
        assert_eq!(game.store().len(), before + 1);
        assert_eq!(game.remove(id), Ok(()));
        assert_eq!(game.store().len(), before);
        assert!(game.store().get(id).is_none());
        assert!(!game.store().contains(id));
        assert!(!game.store().ids().contains(&id));
    }
}

#[test]
fn remove_takes_the_object_out_of_store_and_world() {
    let mut game = new_game();
    let id = game.spawn(vec2(0.0, 0.0)).unwrap();
    assert_eq!(game.pick(vec2(0.0, 0.0)), Pick::Object(id));
    assert_eq!(game.remove(id), Ok(()));
    assert_eq!(game.store().len(), 0);
    assert_eq!(game.pick(vec2(0.0, 0.0)), Pick::Nothing);
    assert!(game.transform_of(id).is_none());
    assert!(game.position_of(id).is_none());
}

#[test]
fn removing_an_unknown_object_is_not_found() {
    let mut game = new_game();
    let id = game.spawn(vec2(0.0, 0.0)).unwrap();
    assert_eq!(game.remove(ObjectId(77)), Err(SceneError::NotFound));
    assert_eq!(game.store().len(), 1);
    game.remove(id).unwrap();
    assert_eq!(game.remove(id), Err(SceneError::NotFound));
}

#[test]
fn the_store_is_walked_in_the_order_of_arrival() {
    let mut game = new_game();
    let first = game.spawn(vec2(0.0, 0.0)).unwrap();
    let second = game.spawn(vec2(1.0, 0.0)).unwrap();
    let third = game.spawn(vec2(2.0, 0.0)).unwrap();
    game.remove(second).unwrap();
    assert_eq!(game.store().ids(), vec![first, third]);
    assert_eq!(game.store().nth(0).unwrap().id, first);
    assert_eq!(game.store().nth(1).unwrap().id, third);
    assert!(game.store().nth(2).is_none());
    assert!(game.store().can_insert());
}

#[test]
fn pick_finds_the_object_under_the_point() {
    let mut game = new_game();
    let first = game.spawn(vec2(0.0, 0.0)).unwrap();
    let second = game.spawn(vec2(1.0, 0.0)).unwrap();
    assert_eq!(game.pick(vec2(0.0, 0.0)), Pick::Object(first));
    assert_eq!(game.pick(vec2(1.03, 0.02)), Pick::Object(second));
    assert_eq!(game.pick(vec2(0.5, 0.0)), Pick::Nothing);
    assert_eq!(game.pick(vec2(0.08, 0.0)), Pick::Nothing);
}

#[test]
fn a_collider_that_the_store_does_not_know_is_foreign() {
    let mut game = new_game();
    let mut stranger = NewObject::new();
    stranger.transform = Transform::default().position(vec2(3.0, 3.0));
    stranger.set_collider(Some(ColliderBuilder::square(0.1, 0.1).build()));
    stranger.set_rigid_body(Some(RigidBodyBuilder::fixed().build()));
    let stranger = stranger.init(game.layer()).unwrap();
    let own = game.spawn(vec2(0.0, 0.0)).unwrap();
    assert_eq!(game.pick(vec2(3.0, 3.0)), Pick::Foreign);
    assert_eq!(game.resolve(Some(stranger.id())), Pick::Foreign);
    assert_eq!(game.resolve(None), Pick::Nothing);
    let engine_id = game.store().get(own).unwrap().engine_id;
    assert_eq!(game.resolve(Some(engine_id)), Pick::Object(own));
    assert_eq!(game.store().find_engine(engine_id), Some(own));
    assert_eq!(game.store().find_engine(stranger.id()), None);
    assert_eq!(game.resolve_all(&vec![stranger.id(), engine_id, engine_id]), vec![own, own]);
    assert!(game.hits(vec2(3.0, 3.0)).is_empty());
}

#[test]
fn cast_ray_returns_the_nearest_object_along_the_ray() {
    let mut game = new_game();
    let far = game.spawn(vec2(3.0, 0.0)).unwrap();
    let near = game.spawn(vec2(1.0, 0.0)).unwrap();
    let middle = game.spawn(vec2(2.0, 0.0)).unwrap();
    let hit = game.layer().cast_ray(vec2(0.0, 0.0), vec2(1.0, 0.0), 10.0, true);
    assert_eq!(game.resolve(hit), Pick::Object(near));
    game.remove(near).unwrap();
    let hit = game.layer().cast_ray(vec2(0.0, 0.0), vec2(1.0, 0.0), 10.0, true);
    assert_eq!(game.resolve(hit), Pick::Object(middle));
    let short = game.layer().cast_ray(vec2(0.0, 0.0), vec2(1.0, 0.0), 1.5, true);
    assert_eq!(game.resolve(short), Pick::Nothing);
    let away = game.layer().cast_ray(vec2(0.0, 0.0), vec2(-1.0, 0.0), 10.0, true);
    assert_eq!(game.resolve(away), Pick::Nothing);
    let beside = game.layer().cast_ray(vec2(0.0, 1.0), vec2(1.0, 0.0), 10.0, true);
    assert_eq!(game.resolve(beside), Pick::Nothing);
    assert!(game.store().contains(far));
}

#[test]
fn hits_names_every_object_under_the_point() {
    let mut game = new_game();
    let lower = game.spawn(vec2(0.0, 0.0)).unwrap();
    let upper = game.spawn(vec2(0.05, 0.0)).unwrap();
    let aside = game.spawn(vec2(1.0, 0.0)).unwrap();
    let mut both = game.hits(vec2(0.03, 0.0));
    both.sort_by_key(|id| id.0);
    assert_eq!(both, vec![lower, upper]);
    assert_eq!(game.hits(vec2(-0.05, 0.0)), vec![lower]);
    assert_eq!(game.hits(vec2(1.0, 0.0)), vec![aside]);
    assert!(game.hits(vec2(0.5, 0.5)).is_empty());
}

#[test]
fn clear_at_removes_every_object_under_the_point() {
    let mut game = new_game();
    let lower = game.spawn(vec2(0.0, 0.0)).unwrap();
    let upper = game.spawn(vec2(0.05, 0.0)).unwrap();
    let aside = game.spawn(vec2(1.0, 0.0)).unwrap();
    let mut removed = game.clear_at(vec2(0.03, 0.0));
    removed.sort_by_key(|id| id.0);
    assert_eq!(removed, vec![lower, upper]);
    assert_eq!(game.store().ids(), vec![aside]);
    assert!(game.clear_at(vec2(0.03, 0.0)).is_empty());
    assert_eq!(game.store().len(), 1);
}

#[test]
fn remove_all_passes_over_unknown_and_repeated_names() {
    let mut game = new_game();
    let first = game.spawn(vec2(0.0, 0.0)).unwrap();
    let second = game.spawn(vec2(1.0, 0.0)).unwrap();
    let third = game.spawn(vec2(2.0, 0.0)).unwrap();
    let removed = game.remove_all(&vec![third, ObjectId(50), first, third]);
    assert_eq!(removed, vec![third, first]);
    assert_eq!(game.store().ids(), vec![second]);
}

#[test]
fn a_left_press_in_place_mode_spawns_exactly_one_object() {
    let mut game = new_game();
    let report = game.update(frame(vec2(0.0, 0.0), true, false));
    assert!(!report.skipped);
    assert!(report.plan.spawn);
    let id = report.spawned.unwrap();
    assert_eq!(report.spawn_failed, None);
    assert_eq!(report.removed, None);
    assert!(report.joint.is_none());
    assert_eq!(report.picked, Pick::Nothing);
    assert_eq!(game.store().len(), 1);
    let object = game.store().get(id).unwrap();
    assert_eq!(object.description.kind, BodyKind::Dynamic);
    assert_eq!(object.description.position, vec2(0.0, 0.0));
    assert_eq!(object.description.shape.size, vec2(0.07, 0.07));
    assert_eq!(object.description.color, Color::from_rgba(0.7, 0.3, 0.3, 1.0));
    for _ in 0..10 {
        let held = game.update(frame(vec2(0.0, 0.0), true, false));
        assert!(held.spawned.is_none());
        assert!(!held.plan.spawn);
    }
    assert_eq!(game.store().len(), 1);
    game.update(frame(vec2(0.0, 0.0), false, false));
    assert!(game.update(frame(vec2(0.5, 0.0), true, false)).spawned.is_some());
    assert_eq!(game.store().len(), 2);
}

#[test]
fn the_marker_follows_the_pointer_in_place_mode() {
    let mut game = new_game();
    let report = game.update(frame(vec2(0.25, -0.5), false, false));
    match report.marker {
        Marker::Template { position, shape, color } => {
            assert_eq!(position, vec2(0.25, -0.5));
            assert_eq!(shape.size, vec2(0.07, 0.07));
            assert_eq!(color, Color::from_rgba(0.7, 0.3, 0.3, 1.0));
        }
        other => panic!("the marker is {:?}", other),
    }
    assert!(matches!(report.arrow, Arrow::Hidden));
    assert_eq!(game.store().len(), 0);
}

#[test]
fn a_right_press_on_an_object_removes_exactly_that_object() {
    let mut game = new_game();
    let kept = click_left(&mut game, vec2(0.0, 0.0)).unwrap();
    let gone = click_left(&mut game, vec2(1.0, 0.0)).unwrap();
    let before = game.store().len();
    let report = game.update(frame(vec2(1.0, 0.0), false, true));
    assert_eq!(report.picked, Pick::Object(gone));
    assert_eq!(report.removed, Some(gone));
    assert_eq!(game.store().len(), before - 1);
    assert!(game.store().get(gone).is_none());
    assert!(game.store().contains(kept));
    let held = game.update(frame(vec2(0.0, 0.0), false, true));
    assert_eq!(held.removed, None);
    assert_eq!(game.store().len(), 1);
}

#[test]
fn a_right_press_on_overlapping_objects_removes_one_of_them() {
    let mut game = new_game();
    let lower = click_left(&mut game, vec2(0.0, 0.0)).unwrap();
    let upper = click_left(&mut game, vec2(0.05, 0.0)).unwrap();
    let report = game.update(frame(vec2(0.03, 0.0), false, true));
    let removed = report.removed.unwrap();
    assert!(removed == lower || removed == upper);
    assert_eq!(game.store().len(), 1);
}

#[test]
fn a_right_press_on_empty_space_removes_nothing() {
    let mut game = new_game();
    click_left(&mut game, vec2(0.0, 0.0)).unwrap();
    let report = game.update(frame(vec2(2.0, 2.0), false, true));
    assert_eq!(report.picked, Pick::Nothing);
    assert_eq!(report.removed, None);
    assert_eq!(game.store().len(), 1);
}

#[test]
fn press_drag_to_another_object_and_release_make_one_joint() {
    let mut game = new_game();
    game.set_anchored(true);
    let a = click_left(&mut game, vec2(0.0, 0.0)).unwrap();
    let b = click_left(&mut game, vec2(1.0, 0.5)).unwrap();
    game.toggle_mode();
    assert_eq!(game.interaction().mode, Mode::Select);
    let press = game.update(frame(vec2(0.0, 0.0), true, false));
    assert_eq!(press.picked, Pick::Object(a));
    assert!(press.spawned.is_none());
    assert_eq!(game.interaction().selected, Some(a));
    match press.marker {
        Marker::Around { id, pose, shape } => {
            assert_eq!(id, a);
            assert_eq!(pose.position, vec2(0.0, 0.0));
            assert_eq!(shape.size, vec2(0.07, 0.07));
        }
        other => panic!("the marker is {:?}", other),
    }
    let drag = game.update(frame(vec2(0.5, 0.25), true, false));
    match drag.arrow {
        Arrow::Shown { from, to } => {
            assert_eq!(from, vec2(0.0, 0.0));
            assert_eq!(to, vec2(0.5, 0.25));
        }
        Arrow::Hidden => panic!("the arrow is hidden"),
    }
    assert_eq!(game.interaction().targeted, None);
    let over = game.update(frame(vec2(1.0, 0.5), true, false));
    match over.arrow {
        Arrow::Shown { from, to } => {
            assert_eq!(from, vec2(0.0, 0.0));
            assert_eq!(to, vec2(1.0, 0.5));
        }
        Arrow::Hidden => panic!("the arrow is hidden"),
    }
    assert_eq!(game.interaction().targeted, Some(b));
    assert!(over.joint.is_none());
    let release = game.update(frame(vec2(1.0, 0.5), false, false));
    assert_eq!(release.plan.joint, Some(Link { from: a, to: b }));
    let joint = release.joint.unwrap();
    assert_eq!(joint.first, a);
    assert_eq!(joint.second, b);
    assert_eq!(joint.anchor1, vec2(1.0, 0.5));
    assert_eq!(joint.anchor2, vec2(0.0, 0.0));
    assert!(matches!(release.arrow, Arrow::Hidden));
    assert_eq!(game.interaction().targeted, None);
    assert_eq!(game.joints().len(), 1);
    assert_eq!(game.joints().get(0).unwrap().second, b);
    assert!(game.joints().get(1).is_none());
    assert!(game.joints().holds(a));
    let after = game.update(frame(vec2(1.0, 0.5), false, false));
    assert!(after.joint.is_none());
    assert_eq!(game.joints().len(), 1);
}

#[test]
fn press_on_an_object_drag_to_empty_space_and_release_make_no_joint() {
    let mut game = new_game();
    let a = click_left(&mut game, vec2(0.0, 0.0)).unwrap();
    click_left(&mut game, vec2(1.0, 0.0)).unwrap();
    game.toggle_mode();
    game.update(frame(vec2(0.0, 0.0), true, false));
    assert_eq!(game.interaction().selected, Some(a));
    game.update(frame(vec2(0.5, 0.5), true, false));
    assert_eq!(game.interaction().targeted, None);
    let release = game.update(frame(vec2(0.5, 0.5), false, false));
    assert!(release.joint.is_none());
    assert_eq!(release.plan.joint, None);
    assert_eq!(game.interaction().targeted, None);
    assert_eq!(game.joints().len(), 0);
}

#[test]
fn press_and_release_on_the_same_object_make_no_joint() {
    let mut game = new_game();
    let a = click_left(&mut game, vec2(0.0, 0.0)).unwrap();
    game.toggle_mode();
    game.update(frame(vec2(0.0, 0.0), true, false));
    assert_eq!(game.interaction().targeted, Some(a));
    let release = game.update(frame(vec2(0.0, 0.0), false, false));
    assert!(release.joint.is_none());
    assert_eq!(game.joints().len(), 0);
}

#[test]
fn link_refuses_an_object_with_itself_and_unknown_objects() {
    let mut game = new_game();
    let a = game.spawn(vec2(0.0, 0.0)).unwrap();
    let b = game.spawn(vec2(1.0, 0.0)).unwrap();
    assert!(game.link(a, a).is_none());
    assert!(game.link(a, ObjectId(40)).is_none());
    assert!(game.link(ObjectId(40), b).is_none());
    assert_eq!(game.joints().len(), 0);
    let joint = game.link(b, a).unwrap();
    assert_eq!(joint.first, b);
    assert_eq!(joint.second, a);
    assert_eq!(joint.anchor1, vec2(-1.0, 0.0));
    assert_eq!(game.joints().len(), 1);
}

#[test]
fn a_joint_that_the_world_did_not_make_is_not_filed() {
    let mut game = new_game();
    let a = game.spawn(vec2(0.0, 0.0)).unwrap();
    let b = game.spawn(vec2(1.0, 0.0)).unwrap();
    let joint = Joint { first: a, second: b, anchor1: vec2(1.0, 0.0), anchor2: vec2(0.0, 0.0) };
    assert!(game.file_joint(joint, false).is_none());
    assert_eq!(game.joints().len(), 0);
    let filed = game.file_joint(joint, true).unwrap();
    assert_eq!((filed.first, filed.second), (a, b));
    assert_eq!(game.joints().len(), 1);
}

#[test]
fn removing_an_object_retracts_its_joints_and_its_selection() {
    let mut game = new_game();
    let a = game.spawn(vec2(0.0, 0.0)).unwrap();
    let b = game.spawn(vec2(1.0, 0.0)).unwrap();
    let c = game.spawn(vec2(2.0, 0.0)).unwrap();
    game.link(a, b).unwrap();
    game.link(b, c).unwrap();
    game.link(a, c).unwrap();
    game.toggle_mode();
    game.update(frame(vec2(1.0, 0.0), true, false));
    game.update(frame(vec2(1.0, 0.0), false, false));
    assert_eq!(game.interaction().selected, Some(b));
    game.remove(b).unwrap();
    assert_eq!(game.interaction().selected, None);
    assert_eq!(game.joints().len(), 1);
    let left = game.joints().get(0).unwrap();
    assert_eq!((left.first, left.second), (a, c));
    assert!(!game.joints().holds(b));
    let idle = game.update(frame(vec2(5.0, 5.0), false, false));
    assert_eq!(idle.plan.marker, MarkerPlan::Hidden);
    assert!(matches!(idle.marker, Marker::Hidden));
}

#[test]
fn a_frame_is_skipped_while_the_overlay_has_the_pointer() {
    let mut game = new_game();
    game.set_captured(true);
    assert!(game.captured());
    let report = game.update(frame(vec2(0.0, 0.0), true, false));
    assert!(report.skipped);
    assert!(report.spawned.is_none());
    assert_eq!(game.store().len(), 0);
    assert!(!game.interaction().left.is_down());
    game.set_captured(false);
    let report = game.update(frame(vec2(0.0, 0.0), true, false));
    assert!(!report.skipped);
    assert!(report.spawned.is_some());
}

#[test]
fn the_pan_is_tracked_by_the_frame() {
    let mut game = new_game();
    let mut input = frame(vec2(0.0, 0.0), false, false);
    assert!(game.update(input).pan.is_none());
    input.middle = true;
    input.pan_pointer = vec2(0.2, 0.3);
    input.camera = vec2(1.0, 2.0);
    let pressed = game.update(input).pan.unwrap();
    assert_eq!(pressed.pointer, vec2(0.2, 0.3));
    assert_eq!(pressed.camera, vec2(1.0, 2.0));
    input.pan_pointer = vec2(0.4, 0.1);
    input.camera = vec2(0.9, 2.1);
    let held = game.update(input).pan.unwrap();
    assert_eq!(held.pointer, vec2(0.2, 0.3));
    assert_eq!(held.camera, vec2(1.0, 2.0));
    input.middle = false;
    assert!(game.update(input).pan.is_none());
}

#[test]
fn typed_characters_edit_the_text_unless_the_overlay_has_the_keyboard() {
    let mut game = new_game();
    assert!(game.input('!'));
    assert_eq!(game.text(), "hello!");
    assert!(game.input('\u{8}'));
    assert!(game.input('\u{8}'));
    assert_eq!(game.text(), "hell");
    assert!(game.input('\u{7f}'));
    assert_eq!(game.text(), "hell");
    game.set_captured(true);
    assert!(!game.input('x'));
    assert_eq!(game.text(), "hell");
}

#[test]
fn a_request_to_exit_is_kept() {
    let mut game = new_game();
    assert!(!game.exit());
    game.request_exit();
    assert!(game.exit());
    game.update(frame(vec2(0.0, 0.0), false, false));
    assert!(game.exit());
}

#[test]
fn a_dynamic_object_falls_and_a_fixed_one_stays() {
    let mut game = new_game();
    let falling = game.spawn(vec2(0.0, 0.0)).unwrap();
    game.set_anchored(true);
    let anchored = game.spawn(vec2(5.0, 0.0)).unwrap();
    for _ in 0..30 {
        let_engine::SCENE.update(true).unwrap();
    }
    let moved = game.position_of(falling).unwrap();
    assert_eq!(moved.x, 0.0);
    assert!(moved.y > 0.0);
    assert_eq!(game.position_of(anchored).unwrap(), vec2(5.0, 0.0));
    assert_eq!(game.store().get(falling).unwrap().description.position, vec2(0.0, 0.0));
    assert_eq!(game.pick(vec2(0.0, 0.0)), Pick::Nothing);
    assert_eq!(game.pick(moved), Pick::Object(falling));
}

#[test]
fn the_escape_key_asks_the_game_to_end() {
    let mut game = new_game();
    assert_eq!(game.key(Key::Other, false), KeyAction::Nothing);
    assert_eq!(game.key(Key::F11, true), KeyAction::ToggleFullscreen);
    assert!(!game.exit());
    assert_eq!(game.key(Key::Escape, false), KeyAction::Exit);
    assert!(game.exit());
    assert_eq!(game.key(Key::Other, true), KeyAction::Nothing);
    assert!(game.exit());
}

#[test]
fn a_pass_of_the_overlay_sets_template_mode_and_capture() {
    let mut game = new_game();
    let first = game.spawn(vec2(0.0, 0.0)).unwrap();
    let cap = game.apply_panel(PanelChanges {
        anchored: true,
        shape: Transform::default().size(vec2(0.2, 0.4)).rotation(1.0),
        color: Some(Color::from_rgba(0.0, 0.0, 1.0, 1.0)),
        toggle_mode: true,
        fps_cap: Some(181),
        captured: true,
    });
    assert_eq!(cap, Some(FrameCap::Unlimited));
    assert!(game.template().anchored);
    assert_eq!(game.template().shape.size, vec2(0.2, 0.4));
    assert_eq!(game.template().shape.rotation, 1.0);
    assert_eq!(game.template().color, Color::from_rgba(0.0, 0.0, 1.0, 1.0));
    assert_eq!(game.interaction().mode, Mode::Select);
    assert!(game.captured());
    assert_eq!(game.store().get(first).unwrap().description.shape.size, vec2(0.07, 0.07));
    let cap = game.apply_panel(PanelChanges {
        anchored: false,
        shape: Transform::default().size(vec2(0.2, 0.4)),
        color: None,
        toggle_mode: false,
        fps_cap: Some(60),
        captured: false,
    });
    assert_eq!(cap, Some(FrameCap::Capped(60)));
    assert!(!game.template().anchored);
    assert_eq!(game.template().color, Color::from_rgba(0.0, 0.0, 1.0, 1.0));
    assert_eq!(game.interaction().mode, Mode::Select);
    assert!(!game.captured());
    let same = PanelChanges {
        anchored: false,
        shape: Transform::default().size(vec2(0.2, 0.4)),
        color: None,
        toggle_mode: true,
        fps_cap: None,
        captured: false,
    };
    assert_eq!(game.apply_panel(same), None);
    assert_eq!(game.interaction().mode, Mode::Place);
}

#[test]
fn a_store_without_names_left_makes_no_object() {
    let mut game = Game::starting_at(
        let_engine::SCENE.new_layer(),
        small_box(),
        String::new(),
        u64::MAX - 1,
    );
    assert!(game.store().can_insert());
    assert_eq!(game.spawn(vec2(0.0, 0.0)), Ok(ObjectId(u64::MAX - 1)));
    assert!(!game.store().can_insert());
    assert_eq!(game.spawn(vec2(1.0, 0.0)), Err(SpawnError::Exhausted));
    assert_eq!(game.store().len(), 1);
    assert_eq!(game.pick(vec2(1.0, 0.0)), Pick::Nothing);
    let report = game.update(frame(vec2(2.0, 0.0), true, false));
    assert!(report.plan.spawn);
    assert_eq!(report.spawned, None);
    assert_eq!(report.spawn_failed, Some(SpawnError::Exhausted));
    assert_eq!(game.store().len(), 1);
    game.remove(ObjectId(u64::MAX - 1)).unwrap();
    assert_eq!(game.spawn(vec2(1.0, 0.0)), Err(SpawnError::Exhausted));
}
