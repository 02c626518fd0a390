use robot_scenes::chain::CHAIN_BALL_COUNT;
use robot_scenes::chain::CHAIN_GAP;
use robot_scenes::chain::HEAD_MASS;
use robot_scenes::chain::HEAD_RADIUS;
use robot_scenes::chain::INITIAL_ROPE;
use robot_scenes::chain::PartTag;
use robot_scenes::chain::chain_plan;
use robot_scenes::chain::move_player;
use robot_scenes::chain::spawn_player;
use robot_scenes::color::ColorSpec;
use robot_scenes::mechanical::MyPosition;
use robot_scenes::mechanical::Vec2Milli;
use robot_scenes::robot::Robot;

#[test]
fn chain_has_a_head_and_all_its_balls() {
    let plan = chain_plan();
    assert_eq!(plan.parts.len(), CHAIN_BALL_COUNT + 2);
    assert_eq!(plan.joints.len(), CHAIN_BALL_COUNT + 1);
    assert_eq!(plan.parts[0].tag, PartTag::Head);
    for part in plan.parts.iter().skip(1) {
        assert_eq!(part.tag, PartTag::Body);
    }
}

#[test]
fn chain_head_rests_at_the_origin_with_full_radius_and_mass() {
    let plan = chain_plan();
    assert_eq!(plan.parts[0].x, 0);
    assert_eq!(plan.parts[0].radius, HEAD_RADIUS);
    assert_eq!(plan.parts[0].mass, HEAD_MASS);
    assert_eq!(
        plan.parts[0].color,
        ColorSpec::LinearRgb { red: 3_000, green: 0, blue: 16_000 }
    );
}

#[test]
fn chain_first_ball_is_nine_tenths_of_the_head() {
    let plan = chain_plan();
    assert_eq!(plan.parts[1].radius, 90_000);
    assert_eq!(plan.parts[1].x, 199_000);
    assert_eq!(plan.parts[1].mass, 150);
    assert_eq!(plan.parts[1].color, ColorSpec::LinearRgb { red: 0, green: 0, blue: 10_000 });
}

#[test]
fn chain_taper_runs_linearly_to_the_tail() {
    let plan = chain_plan();
    assert_eq!(plan.parts[2].radius, 100_000);
    assert_eq!(plan.parts[2].x, 398_000);
    assert_eq!(plan.parts[3].radius, 99_305);
    assert_eq!(plan.parts[3].x, 606_305);
    assert_eq!(plan.parts[10].radius, 94_444);
    assert_eq!(plan.parts[10].x, 2_025_548);
    assert_eq!(plan.parts[145].radius, 694);
    assert_eq!(plan.parts[145].x, 16_084_178);
    assert_eq!(plan.parts[145].color, ColorSpec::LinearRgb { red: 0, green: 0, blue: 0 });
}

#[test]
fn chain_balls_rest_one_gap_apart_in_order() {
    let plan = chain_plan();
    for i in 1..plan.parts.len() {
        let prev = &plan.parts[i - 1];
        let cur = &plan.parts[i];
        assert_eq!(
            cur.x - cur.radius as i64,
            prev.x + prev.radius as i64 + CHAIN_GAP as i64
        );
        assert!(cur.x > prev.x);
    }
}

#[test]
fn chain_first_rope_keeps_the_initial_length() {
    let plan = chain_plan();
    assert_eq!(plan.joints[0].parent, 0);
    assert_eq!(plan.joints[0].child, 1);
    assert_eq!(plan.joints[0].rope_length, INITIAL_ROPE);
    assert_eq!(plan.joints[0].anchor1, Vec2Milli { x: 0, y: 0 });
    assert_eq!(plan.joints[0].anchor2, Vec2Milli { x: 0, y: 0 });
}

#[test]
fn chain_later_ropes_span_both_radii_the_gap_and_the_slack() {
    let plan = chain_plan();
    assert_eq!(plan.joints[1].rope_length, 202_000);
    assert_eq!(plan.joints[2].rope_length, 211_305);
    assert_eq!(plan.joints[144].rope_length, 14_082);
    for n in 1..plan.joints.len() {
        assert_eq!(plan.joints[n].parent, n);
        assert_eq!(plan.joints[n].child, n + 1);
        assert_eq!(
            plan.joints[n].rope_length,
            plan.parts[n].radius + plan.parts[n + 1].radius + CHAIN_GAP + 3_000
        );
    }
}

#[test]
fn player_carries_the_robot_marker_at_the_origin() {
    let plan = spawn_player();
    assert_eq!(plan.robot, Robot { rope_length: INITIAL_ROPE });
    assert_eq!(plan.position, MyPosition { x: 0, y: 0 });
    assert_eq!(plan.chain.parts.len(), CHAIN_BALL_COUNT + 2);
}

#[test]
fn steering_diagonal_pushes_the_head_evenly() {
    let still = Vec2Milli { x: 0, y: 0 };
    let (impulse, swim) = move_player(true, false, false, true, false, false, 0, 16, still);
    assert!(!swim);
    assert_eq!(impulse, Vec2Milli { x: 1_018, y: 1_018 });
}

#[test]
fn steering_single_axis_pushes_at_full_strength() {
    let still = Vec2Milli { x: 0, y: 0 };
    let (impulse, _) = move_player(false, false, false, true, false, false, 0, 16, still);
    assert_eq!(impulse, Vec2Milli { x: 1_440, y: 0 });
}

#[test]
fn steering_accumulates_onto_the_standing_impulse() {
    let carried = Vec2Milli { x: 500, y: -500 };
    let (impulse, _) = move_player(false, false, false, true, false, false, 0, 16, carried);
    assert_eq!(impulse, Vec2Milli { x: 1_940, y: -500 });
}

#[test]
fn oscillation_key_flips_the_swim_toggle() {
    let still = Vec2Milli { x: 0, y: 0 };
    let (_, swim_on) = move_player(false, false, false, false, true, false, 0, 16, still);
    assert!(swim_on);
    let (_, swim_off) = move_player(false, false, false, false, true, true, 0, 16, still);
    assert!(!swim_off);
    let (_, swim_kept) = move_player(false, false, false, false, false, true, 0, 16, still);
    assert!(swim_kept);
}

#[test]
fn swimming_adds_twice_the_oscillation_sample_to_the_vertical_push() {
    let still = Vec2Milli { x: 0, y: 0 };
    let (impulse, swim) = move_player(true, false, false, true, false, true, 500, 16, still);
    assert!(swim);
    assert_eq!(impulse, Vec2Milli { x: 1_018, y: 2_458 });
}

#[test]
fn idle_keys_leave_the_impulse_unchanged() {
    let carried = Vec2Milli { x: 123, y: -456 };
    let (impulse, _) = move_player(false, false, false, false, false, false, 900, 16, carried);
    assert_eq!(impulse, carried);
}
