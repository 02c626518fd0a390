use robot_scenes::fixed::lerp_milli;
use robot_scenes::fixed::scale_milli;
use robot_scenes::mechanical::BodyKind;
use robot_scenes::mechanical::ColliderShape;
use robot_scenes::mechanical::Transform3;
use robot_scenes::mechanical::Vec2Milli;
use robot_scenes::rect_player::Player as RectPlayer;
use robot_scenes::sprite::Player as SpritePlayer;
use robot_scenes::sprite::SpritePlayerPlan;
use robot_scenes::steering::direction_from_keys;
use robot_scenes::steering::normalize_diagonal;
use robot_scenes::color::ColorSpec;

#[test]
fn scaling_rounds_toward_zero_on_both_sides() {
    assert_eq!(scale_milli(1_001, 707), 707);
    assert_eq!(scale_milli(-1_001, 707), -707);
    assert_eq!(scale_milli(999, 1), 0);
    assert_eq!(scale_milli(-999, 1), 0);
    assert_eq!(scale_milli(0, 123_456), 0);
}

#[test]
fn interpolation_lands_on_its_endpoints() {
    assert_eq!(lerp_milli(100, 500, 0), 100);
    assert_eq!(lerp_milli(100, 500, 1_000), 500);
    assert_eq!(lerp_milli(100, 500, 500), 300);
    assert_eq!(lerp_milli(500, -500, 250), 250);
    assert_eq!(lerp_milli(0, 0, 999), 0);
}

#[test]
fn keys_pick_the_four_directions() {
    assert_eq!(
        direction_from_keys(true, false, false, false),
        Vec2Milli { x: 0, y: 1_000 }
    );
    assert_eq!(
        direction_from_keys(false, true, true, false),
        Vec2Milli { x: -1_000, y: -1_000 }
    );
    assert_eq!(
        direction_from_keys(true, true, true, true),
        Vec2Milli { x: 0, y: 0 }
    );
}

#[test]
fn only_a_diagonal_is_cut_back() {
    assert_eq!(
        normalize_diagonal(Vec2Milli { x: 1_000, y: 0 }),
        Vec2Milli { x: 1_000, y: 0 }
    );
    assert_eq!(
        normalize_diagonal(Vec2Milli { x: 1_000, y: -1_000 }),
        Vec2Milli { x: 707, y: -707 }
    );
    assert_eq!(
        normalize_diagonal(Vec2Milli { x: 0, y: 0 }),
        Vec2Milli { x: 0, y: 0 }
    );
}

#[test]
fn sprite_player_spawns_still_in_a_weightless_stage() {
    let plan = robot_scenes::sprite::spawn_player();
    assert_eq!(
        plan,
        SpritePlayerPlan {
            gravity: Vec2Milli { x: 0, y: 0 },
            color: ColorSpec::Srgba { red: 10_000, green: 0, blue: 10_000, alpha: 500 },
            sprite_size: 100_000,
            kind: BodyKind::Dynamic,
            velocity: Vec2Milli { x: 0, y: 0 },
            collider: ColliderShape::Ball { radius: 50_000 },
            player: SpritePlayer { speed: 300_000 },
        }
    );
}

#[test]
fn sprite_velocity_snaps_to_the_keys_then_decays_a_tenth() {
    let still = Vec2Milli { x: 0, y: 0 };
    let v = robot_scenes::sprite::player_movement(still, 300_000, false, false, false, true);
    assert_eq!(v, Vec2Milli { x: 270_000, y: 0 });
    let carried = Vec2Milli { x: 5_000, y: -3_000 };
    let damped = robot_scenes::sprite::player_movement(carried, 300_000, false, false, false, false);
    assert_eq!(damped, Vec2Milli { x: 4_500, y: -2_700 });
}

#[test]
fn rect_player_spawns_standing_tall_in_red() {
    let (player, bundle) = robot_scenes::rect_player::spawn_player();
    assert_eq!(player, RectPlayer { length: 50_000, accel_force: 1_000_000 });
    assert_eq!(bundle.rigid_body, BodyKind::Dynamic);
    assert_eq!(bundle.collider_mass, 1_000);
    assert_eq!(bundle.position, Transform3 { x: 0, y: 100_000, z: 0 });
    assert_eq!(
        bundle.collider,
        ColliderShape::Cuboid { half_width: 25_000, half_height: 50_000 }
    );
    assert_eq!(
        bundle.material,
        ColorSpec::SrgbU8 { red8: 254, green8: 226, blue8: 226 }
    );
}

#[test]
fn rect_player_force_follows_the_keys() {
    let (force, torque) = robot_scenes::rect_player::move_player(
        false, false, false, true, false, false,
    );
    assert_eq!(force, Vec2Milli { x: 1_000_000, y: 0 });
    assert_eq!(torque, 0);
    let (diagonal, _) = robot_scenes::rect_player::move_player(
        true, false, true, false, false, false,
    );
    assert_eq!(diagonal, Vec2Milli { x: -707_000, y: 707_000 });
}

#[test]
fn rect_player_left_arrow_wins_the_torque() {
    let (_, anticlockwise) = robot_scenes::rect_player::move_player(
        false, false, false, false, true, false,
    );
    assert_eq!(anticlockwise, 100_000_000);
    let (_, clockwise) = robot_scenes::rect_player::move_player(
        false, false, false, false, false, true,
    );
    assert_eq!(clockwise, -100_000_000);
    let (_, both) = robot_scenes::rect_player::move_player(
        false, false, false, false, true, true,
    );
    assert_eq!(both, 100_000_000);
}
