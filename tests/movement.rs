use player_controller::component::{
    GroundContact, LogicalPlayerController, LogicalPlayerProperties, LookBasis, MoveMode,
    PlayerControls, PlayerInput, RawInput,
};
use player_controller::fixed::{floor_sqrt, mul_fx, ONE};
use player_controller::system::{
    collider_y_offset, player_input, player_look, player_move, player_movement_damping,
    player_render, PITCH_LIMIT,
};
use player_controller::vector::Vec3;

const DT: i64 = 16_667;

fn facing_north() -> LookBasis {
    LookBasis { sin_yaw: 0, cos_yaw: ONE, sin_pitch: 0, cos_pitch: ONE }
}

fn flat_ground() -> Option<GroundContact> {
    Some(GroundContact { normal: Vec3::new(0, ONE, 0), distance: 0 })
}

fn steep_ground() -> Option<GroundContact> {
    Some(GroundContact { normal: Vec3::new(ONE, 0, 0), distance: 0 })
}

fn walking(ground_tick: u8) -> LogicalPlayerController {
    LogicalPlayerController { move_mode: MoveMode::Ground, pitch: 0, yaw: 0, ground_tick }
}

fn moving(x: i64, y: i64, z: i64) -> PlayerInput {
    PlayerInput { movement: Vec3::new(x, y, z), ..PlayerInput::default() }
}

fn controls() -> PlayerControls<u8> {
    PlayerControls {
        mouse_sensitivity: 1_000,
        key_left: 0,
        key_right: 1,
        key_forward: 2,
        key_backward: 3,
        key_up: 4,
        key_down: 5,
        key_fly: 6,
        key_jump: 7,
    }
}

fn no_keys() -> RawInput {
    RawInput {
        left: false,
        right: false,
        forward: false,
        backward: false,
        up: false,
        down: false,
        fly_just_pressed: false,
        jump_just_pressed: false,
        mouse_dx: 0,
        mouse_dy: 0,
    }
}

fn step(
    controller: &mut LogicalPlayerController,
    props: &LogicalPlayerProperties,
    input: &PlayerInput,
    ground: Option<GroundContact>,
    dt: i64,
    velocity: Vec3,
) -> Vec3 {
    let mut v = velocity;
    player_move(controller, props, input, ground, &facing_north(), dt, &mut v);
    v
}

#[test]
fn forward_on_ground_accelerates_by_formula() {
    let props = LogicalPlayerProperties {
        acceleration: 10 * ONE,
        forward_speed: 9 * ONE,
        ..LogicalPlayerProperties::default()
    };
    let mut c = walking(0);
    let v = step(&mut c, &props, &moving(0, 0, ONE), flat_ground(), DT, Vec3::zero());
    // min(9, 10 * 9 * dt) with dt = 0.016667
    assert_eq!(v, Vec3::new(0, 0, -1_500_030));
    assert_eq!(c.ground_tick, 1);
}

#[test]
fn air_wish_speed_is_capped_before_accelerating() {
    let props = LogicalPlayerProperties::default();
    let mut c = walking(3);
    let v = step(&mut c, &props, &moving(0, 0, ONE), None, ONE, Vec3::zero());
    assert_eq!(v, Vec3::new(0, -23 * ONE, -2 * ONE));
    assert_eq!(c.ground_tick, 0);
    let mut c = walking(0);
    let v = step(&mut c, &props, &moving(0, 0, ONE), None, DT, Vec3::zero());
    assert_eq!(v, Vec3::new(0, -383_341, -666_680));
}

#[test]
fn noclip_backward_input_moves_along_positive_z() {
    let props = LogicalPlayerProperties::default();
    let mut c = LogicalPlayerController::default();
    assert_eq!(c.move_mode, MoveMode::Noclip);
    let v = step(&mut c, &props, &moving(0, 0, -ONE), None, DT, Vec3::new(5, 6, 7));
    assert_eq!(v, Vec3::new(0, 0, props.fly_velocity));
    assert_eq!(v, Vec3::new(0, 0, 30 * ONE));
}

#[test]
fn noclip_follows_pitch() {
    let props = LogicalPlayerProperties::default();
    let mut c = LogicalPlayerController::default();
    let mut v = Vec3::zero();
    let up = LookBasis { sin_yaw: 0, cos_yaw: ONE, sin_pitch: ONE, cos_pitch: 0 };
    player_move(&mut c, &props, &moving(0, 0, ONE), None, &up, DT, &mut v);
    assert_eq!(v, Vec3::new(0, 30 * ONE, 0));
}

#[test]
fn pitch_is_clamped_for_huge_deltas() {
    let mut c = LogicalPlayerController::default();
    let up = PlayerInput { pitch: i64::MAX, yaw: i64::MAX, ..PlayerInput::default() };
    player_look(&mut c, &up);
    assert_eq!(c.pitch, PITCH_LIMIT);
    assert_eq!(c.yaw, i64::MAX);
    player_look(&mut c, &up);
    assert_eq!(c.pitch, PITCH_LIMIT);
    assert_eq!(c.yaw, i64::MAX);
    let down = PlayerInput { pitch: i64::MIN, yaw: 5, ..PlayerInput::default() };
    player_look(&mut c, &down);
    assert_eq!(c.pitch, -PITCH_LIMIT);
    let small = PlayerInput { pitch: 1_000, yaw: -7, ..PlayerInput::default() };
    player_look(&mut c, &small);
    assert_eq!(c.pitch, -PITCH_LIMIT + 1_000);
    assert_eq!(c.yaw, i64::MAX - 7);
}

#[test]
fn fly_toggles_once_per_press_not_while_held() {
    let props = LogicalPlayerProperties::default();
    let mut c = LogicalPlayerController::default();
    let pressed = RawInput { fly_just_pressed: true, ..no_keys() };
    let held = no_keys();
    let first = player_input(&controls(), &pressed, true);
    assert!(first.fly);
    step(&mut c, &props, &first, None, DT, Vec3::zero());
    assert_eq!(c.move_mode, MoveMode::Ground);
    for _ in 0..5 {
        let again = player_input(&controls(), &held, true);
        step(&mut c, &props, &again, None, DT, Vec3::zero());
        assert_eq!(c.move_mode, MoveMode::Ground);
    }
}

#[test]
fn toggling_twice_restores_mode() {
    let props = LogicalPlayerProperties::default();
    let mut c = walking(4);
    let fly = PlayerInput { fly: true, ..PlayerInput::default() };
    step(&mut c, &props, &fly, flat_ground(), DT, Vec3::zero());
    assert_eq!(c.move_mode, MoveMode::Noclip);
    assert_eq!(c.ground_tick, 4);
    step(&mut c, &props, &fly, flat_ground(), DT, Vec3::zero());
    assert_eq!(c.move_mode, MoveMode::Ground);
}

#[test]
fn idle_fall_decays_horizontal_speed() {
    let props = LogicalPlayerProperties::default();
    let mut c = walking(0);
    let mut v = step(&mut c, &props, &PlayerInput::default(), None, DT, Vec3::new(5 * ONE, 0, -3 * ONE));
    player_movement_damping(&props, &mut v);
    assert_eq!(v, Vec3::new(4_600_000, -383_341, -2_760_000));
    let mut last = v;
    for _ in 0..50 {
        let mut next = step(&mut c, &props, &PlayerInput::default(), None, DT, last);
        player_movement_damping(&props, &mut next);
        assert!(0 <= next.x && next.x <= last.x);
        assert!(last.z <= next.z && next.z <= 0);
        assert!(next.y < last.y);
        last = next;
    }
}

#[test]
fn air_speed_is_limited() {
    let props = LogicalPlayerProperties::default();
    let mut c = walking(0);
    let v = step(&mut c, &props, &PlayerInput::default(), None, ONE, Vec3::new(30 * ONE, 0, 40 * ONE));
    // 50 units per second scaled down to 15
    assert_eq!(v, Vec3::new(9 * ONE, -23 * ONE, 12 * ONE));
}

#[test]
fn friction_slows_without_reversing() {
    let props = LogicalPlayerProperties::default();
    let mut c = walking(2);
    let v = step(&mut c, &props, &PlayerInput::default(), flat_ground(), DT, Vec3::new(10 * ONE, 0, 0));
    assert_eq!(v, Vec3::new(8_333_300, 0, 0));
    assert_eq!(c.ground_tick, 3);
    let mut c = walking(2);
    let v = step(&mut c, &props, &PlayerInput::default(), flat_ground(), ONE, Vec3::new(-10 * ONE, 0, 4 * ONE));
    assert_eq!(v, Vec3::new(0, 0, 0));
}

#[test]
fn slow_ground_motion_stops() {
    let props = LogicalPlayerProperties::default();
    let mut c = walking(5);
    let v = step(&mut c, &props, &PlayerInput::default(), flat_ground(), DT, Vec3::new(50_000, 0, -30_000));
    assert_eq!(v, Vec3::zero());
}

#[test]
fn first_grounded_tick_skips_friction() {
    let props = LogicalPlayerProperties::default();
    let mut c = walking(0);
    let v = step(&mut c, &props, &PlayerInput::default(), flat_ground(), DT, Vec3::new(10 * ONE, 0, 0));
    assert_eq!(v, Vec3::new(10 * ONE, 0, 0));
    assert_eq!(c.ground_tick, 1);
}

#[test]
fn second_grounded_tick_stops_vertical_motion() {
    let props = LogicalPlayerProperties::default();
    let mut c = walking(1);
    let steep = Some(GroundContact { normal: Vec3::new(600_000, 800_000, 0), distance: 0 });
    let v = step(&mut c, &props, &PlayerInput::default(), steep, DT, Vec3::new(0, -2 * ONE, 0));
    // friction leaves zero horizontal speed, the landing clears vertical speed and the
    // projection onto the slope has nothing left to remove
    assert_eq!(v, Vec3::zero());
    assert_eq!(c.ground_tick, 2);
}

#[test]
fn ground_tick_resets_in_air_and_saturates() {
    let props = LogicalPlayerProperties::default();
    let mut c = walking(9);
    step(&mut c, &props, &PlayerInput::default(), None, DT, Vec3::zero());
    assert_eq!(c.ground_tick, 0);
    let mut c = walking(255);
    step(&mut c, &props, &PlayerInput::default(), flat_ground(), DT, Vec3::zero());
    assert_eq!(c.ground_tick, 255);
    let mut c = walking(7);
    step(&mut c, &props, &PlayerInput::default(), steep_ground(), DT, Vec3::zero());
    assert_eq!(c.ground_tick, 7);
}

#[test]
fn jump_sets_vertical_speed_on_traction_only() {
    let props = LogicalPlayerProperties::default();
    let jump = PlayerInput { jump: true, ..PlayerInput::default() };
    let mut c = walking(0);
    let v = step(&mut c, &props, &jump, flat_ground(), DT, Vec3::new(0, 3 * ONE, 0));
    assert_eq!(v.y, props.jump_impulse);
    assert_eq!(v.y, 8_500_000);
    let mut a = walking(0);
    let mut b = walking(0);
    let with = step(&mut a, &props, &jump, None, DT, Vec3::new(ONE, ONE, 0));
    let without = step(&mut b, &props, &PlayerInput::default(), None, DT, Vec3::new(ONE, ONE, 0));
    assert_eq!(with, without);
    let mut a = walking(0);
    let mut b = walking(0);
    let with = step(&mut a, &props, &jump, steep_ground(), DT, Vec3::zero());
    let without = step(&mut b, &props, &PlayerInput::default(), steep_ground(), DT, Vec3::zero());
    assert_eq!(with, without);
}

#[test]
fn steep_ground_slides_under_gravity() {
    let props = LogicalPlayerProperties::default();
    let mut c = walking(3);
    let v = step(&mut c, &props, &PlayerInput::default(), steep_ground(), ONE, Vec3::new(ONE, 0, 0));
    assert_eq!(v, Vec3::new(ONE, -23 * ONE, 0));
    assert_eq!(c.ground_tick, 3);
}

#[test]
fn traction_projects_onto_slope() {
    let props = LogicalPlayerProperties::default();
    let mut c = walking(0);
    let slope = Some(GroundContact { normal: Vec3::new(0, 800_000, 600_000), distance: 0 });
    let v = step(&mut c, &props, &PlayerInput::default(), slope, DT, Vec3::new(0, 0, -ONE));
    // v - (v . n) n with v . n = -0.6
    assert_eq!(v, Vec3::new(0, 480_000, -640_000));
}

#[test]
fn velocity_saturates_at_max_speed() {
    let props = LogicalPlayerProperties::default();
    let mut c = walking(0);
    let top = player_controller::component::MAX_SPEED;
    let v = step(&mut c, &props, &PlayerInput::default(), steep_ground(), ONE, Vec3::new(0, -top, 0));
    assert_eq!(v.y, -top);
}

#[test]
fn input_is_idle_without_cursor() {
    let raw = RawInput { forward: true, fly_just_pressed: true, mouse_dx: 50 * ONE, ..no_keys() };
    let intent = player_input(&controls(), &raw, false);
    assert_eq!(intent, PlayerInput::default());
}

#[test]
fn input_maps_keys_and_mouse() {
    let raw = RawInput {
        right: true,
        forward: true,
        backward: true,
        down: true,
        jump_just_pressed: true,
        mouse_dx: 10 * ONE,
        mouse_dy: -4 * ONE,
        ..no_keys()
    };
    let intent = player_input(&controls(), &raw, true);
    assert_eq!(intent.movement, Vec3::new(ONE, -ONE, 0));
    assert_eq!(intent.yaw, -10_000);
    assert_eq!(intent.pitch, 4_000);
    assert!(intent.jump);
    assert!(!intent.fly);
    assert!(!intent.sprint);
    assert!(!intent.crouch);
}

#[test]
fn damping_leaves_vertical_motion() {
    let props = LogicalPlayerProperties::default();
    let mut v = Vec3::new(ONE, 2 * ONE, -ONE);
    player_movement_damping(&props, &mut v);
    assert_eq!(v, Vec3::new(920_000, 2 * ONE, -920_000));
}

#[test]
fn camera_sits_at_collider_top_less_offset() {
    assert_eq!(collider_y_offset(1_500_000), Vec3::new(0, 1_500_000, 0));
    let eye = player_render(Vec3::new(ONE, 4 * ONE, -2 * ONE), 1_500_000);
    assert_eq!(eye, Vec3::new(ONE, 5 * ONE, -2 * ONE));
}

#[test]
fn default_tuning_values() {
    let p = LogicalPlayerProperties::default();
    assert_eq!(p.fly_velocity, 30 * ONE);
    assert_eq!(p.sprint_speed, 14 * ONE);
    assert_eq!(p.air_speed_cap, 2 * ONE);
    assert_eq!(p.traction_normal_cutoff, 700_000);
    assert_eq!(p.damping_factor, 920_000);
    assert_eq!(p.max_air_speed, 15 * ONE);
    let c = LogicalPlayerController::default();
    assert_eq!(c.move_mode, MoveMode::Noclip);
    assert_eq!(MoveMode::Noclip.toggled(), MoveMode::Ground);
    assert_eq!(MoveMode::Ground.toggled(), MoveMode::Noclip);
}

#[test]
fn fixed_point_arithmetic_rounds_toward_zero() {
    assert_eq!(mul_fx(-1_500_000, 1_500_000), -2_250_000);
    assert_eq!(mul_fx(-1, 1), 0);
    assert_eq!(mul_fx(3, 333_334), 1);
    assert_eq!(floor_sqrt(0), 0);
    assert_eq!(floor_sqrt(10), 3);
    assert_eq!(floor_sqrt(81_000_000_000_000), 9_000_000);
}
