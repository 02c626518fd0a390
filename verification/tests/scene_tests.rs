use robot_scenes::camera::CameraSpec;
use robot_scenes::camera::setup_camera;
use robot_scenes::camera::update_camera;
use robot_scenes::color::ColorSpec;
use robot_scenes::color::brightened_srgb;
use robot_scenes::containers::multi_collider;
use robot_scenes::containers::rope_joint;
use robot_scenes::mechanical::BodyKind;
use robot_scenes::mechanical::ColliderShape;
use robot_scenes::mechanical::Damping;
use robot_scenes::mechanical::GenericMechanicalComponentBundle;
use robot_scenes::mechanical::MeshPrimitive;
use robot_scenes::mechanical::MyPosition;
use robot_scenes::mechanical::MyRigidBody;
use robot_scenes::mechanical::Shape;
use robot_scenes::mechanical::Transform3;
use robot_scenes::mechanical::Vec2Milli;
use robot_scenes::robot::spawn_robot;
use robot_scenes::terrain::spawn_cube;
use robot_scenes::terrain::spawn_terrain;
use robot_scenes::ui::PerfUiAction;
use robot_scenes::ui::setup_instructions;
use robot_scenes::ui::toggle;

#[test]
fn bundle_splits_a_dynamic_body_into_kind_and_mass() {
    let bundle = GenericMechanicalComponentBundle::new(
        MyRigidBody::Dynamic { mass: 5_000 },
        Shape::Rect { width: 60_000, height: 20_000 },
        ColorSpec::SrgbU8 { red8: 1, green8: 2, blue8: 3 },
        Transform3 { x: 7, y: -8, z: 0 },
    );
    assert_eq!(bundle.rigid_body, BodyKind::Dynamic);
    assert_eq!(bundle.collider_mass, 5_000);
    assert_eq!(bundle.velocity, Vec2Milli { x: 0, y: 0 });
    assert_eq!(bundle.ext_impulse.linear, Vec2Milli { x: 0, y: 0 });
    assert_eq!(bundle.ext_impulse.torque, 0);
    assert_eq!(bundle.damping, Damping { linear: 3_500, angular: 400 });
    assert_eq!(bundle.gravity_scale, 0);
    assert_eq!(bundle.position, Transform3 { x: 7, y: -8, z: 0 });
    assert_eq!(bundle.mesh, MeshPrimitive::Rectangle { width: 60_000, height: 20_000 });
    assert_eq!(
        bundle.collider,
        ColliderShape::Cuboid { half_width: 30_000, half_height: 10_000 }
    );
}

#[test]
fn bundle_gives_a_fixed_body_no_mass() {
    let bundle = GenericMechanicalComponentBundle::new(
        MyRigidBody::Fixed,
        Shape::Ball { radius: 9_000 },
        ColorSpec::SrgbU8 { red8: 0, green8: 0, blue8: 0 },
        Transform3 { x: 0, y: 0, z: 0 },
    );
    assert_eq!(bundle.rigid_body, BodyKind::Fixed);
    assert_eq!(bundle.collider_mass, 0);
    assert_eq!(bundle.collider, ColliderShape::Ball { radius: 9_000 });
    assert_eq!(bundle.mesh, MeshPrimitive::Circle { radius: 9_000 });
}

#[test]
fn position_lifts_onto_the_plane() {
    let p = MyPosition { x: 12, y: -34 };
    assert_eq!(p.to_transform(), Transform3 { x: 12, y: -34, z: 0 });
}

#[test]
fn terrain_lays_twenty_tiles_around_the_hue_circle() {
    let plan = spawn_terrain();
    assert_eq!(plan.root, Transform3 { x: 0, y: 0, z: 0 });
    assert_eq!(plan.tiles.len(), 20);
    let first = &plan.tiles[0];
    assert_eq!(first.bundle.position, Transform3 { x: -1_000_000, y: -100_000, z: 0 });
    assert_eq!(
        first.cube.color,
        ColorSpec::Hsl { hue: 0, saturation: 950, lightness: 600 }
    );
    let second = &plan.tiles[1];
    assert_eq!(second.bundle.position.x, -895_000);
    assert_eq!(
        second.cube.color,
        ColorSpec::Hsl { hue: 18_000, saturation: 950, lightness: 600 }
    );
    let last = &plan.tiles[19];
    assert_eq!(last.bundle.position.x, 995_000);
    assert_eq!(
        last.cube.color,
        ColorSpec::Hsl { hue: 342_000, saturation: 950, lightness: 600 }
    );
    for tile in plan.tiles.iter() {
        assert_eq!(tile.bundle.rigid_body, BodyKind::Fixed);
        assert_eq!(
            tile.bundle.collider,
            ColliderShape::Cuboid { half_width: 50_000, half_height: 50_000 }
        );
        assert_eq!(tile.cube.color, tile.bundle.material);
    }
}

#[test]
fn a_tile_remembers_the_colour_of_its_material() {
    let color = ColorSpec::Hsl { hue: 90_000, saturation: 950, lightness: 600 };
    let tile = spawn_cube(color, MyPosition { x: 1, y: 2 });
    assert_eq!(tile.cube.color, color);
    assert_eq!(tile.bundle.material, color);
    assert_eq!(tile.bundle.position, Transform3 { x: 1, y: 2, z: 0 });
}

#[test]
fn highlighting_raises_every_srgb_channel_by_two() {
    assert_eq!(brightened_srgb(100, 200, 300), (2_100, 2_200, 2_300));
    assert_eq!(brightened_srgb(-500, 0, 1_000), (1_500, 2_000, 3_000));
}

#[test]
fn containers_stack_four_wide_and_twenty_high() {
    let plan = multi_collider();
    assert_eq!(plan.ground_position, Transform3 { x: 0, y: -1_000, z: 0 });
    assert_eq!(
        plan.ground_collider,
        ColliderShape::Cuboid { half_width: 500_000, half_height: 1_000 }
    );
    assert_eq!(plan.bodies.len(), 80);
    assert_eq!(plan.bodies[0].x, -32_000);
    assert_eq!(plan.bodies[0].y, 8_000);
    assert_eq!(plan.bodies[79].x, 112_300);
    assert_eq!(plan.bodies[79].y, 958_000);
    assert_eq!(plan.children.len(), 4);
    assert_eq!(
        plan.children[0].shape,
        ColliderShape::Cuboid { half_width: 20_000, half_height: 2_000 }
    );
    assert_eq!(plan.children[0].offset, Vec2Milli { x: 0, y: 0 });
    assert_eq!(plan.children[2].shape, ColliderShape::Ball { radius: 10_000 });
    assert_eq!(plan.children[3].offset, Vec2Milli { x: -20_000, y: 20_000 });
}

#[test]
fn each_container_row_drifts_left() {
    let plan = multi_collider();
    for j in 1..20 {
        assert_eq!(plan.bodies[j * 4].x, plan.bodies[(j - 1) * 4].x - 300);
    }
}

#[test]
fn rope_demo_hangs_a_twin_off_a_fixed_anchor() {
    let plan = rope_joint();
    assert_eq!(plan.parent_kind, BodyKind::Fixed);
    assert_eq!(plan.child_kind, BodyKind::Dynamic);
    assert_eq!(plan.child_position, Transform3 { x: -200_000, y: 0, z: 0 });
    assert_eq!(plan.joint.rope_length, 300_000);
    assert_eq!(plan.joint.anchor2, Vec2Milli { x: 100_000, y: 0 });
}

#[test]
fn robot_hangs_its_leg_off_the_heads_corner() {
    let plan = spawn_robot();
    assert_eq!(plan.position, Transform3 { x: 0, y: 100_000, z: 0 });
    assert_eq!(plan.head.collider_mass, 100);
    assert_eq!(
        plan.head.collider,
        ColliderShape::Cuboid { half_width: 25_000, half_height: 25_000 }
    );
    assert_eq!(plan.leg.collider, ColliderShape::Ball { radius: 30_000 });
    assert_eq!(
        plan.head.material,
        ColorSpec::SrgbU8 { red8: 23, green8: 37, blue8: 84 }
    );
    assert_eq!(plan.joint.anchor1, Vec2Milli { x: 100_000, y: 100_000 });
    assert_eq!(plan.joint.anchor2, Vec2Milli { x: 0, y: 30_000 });
}

#[test]
fn camera_starts_zoomed_out_with_bloom() {
    assert_eq!(setup_camera(), CameraSpec { scale: 6_000, hdr: true, bloom: true });
}

#[test]
fn camera_glides_toward_the_player() {
    let start = Transform3 { x: 0, y: 0, z: 5 };
    let (moved, scale) = update_camera(start, 6_000, 100_000, 50_000, false, false, 100);
    assert_eq!(scale, 6_000);
    assert_eq!(moved, Transform3 { x: 37_000, y: 18_500, z: 5 });
}

#[test]
fn camera_zoom_keys_stretch_the_scale_by_the_frame_time() {
    let start = Transform3 { x: 0, y: 0, z: 0 };
    let (_, zoomed_in) = update_camera(start, 6_000, 0, 0, true, false, 100);
    assert_eq!(zoomed_in, 6_100);
    let (_, zoomed_out) = update_camera(start, 6_000, 0, 0, false, true, 100);
    assert_eq!(zoomed_out, 5_900);
    let (_, both) = update_camera(start, 6_000, 0, 0, true, true, 100);
    assert_eq!(both, 6_000);
}

#[test]
fn instructions_greet_in_italian() {
    assert_eq!(setup_instructions(), "WASD per muoversi");
}

#[test]
fn overlay_toggle_spawns_and_despawns() {
    assert_eq!(toggle(false, false), PerfUiAction::Keep);
    assert_eq!(toggle(false, true), PerfUiAction::Keep);
    assert_eq!(toggle(true, true), PerfUiAction::Despawn);
    assert_eq!(toggle(true, false), PerfUiAction::Spawn);
}
