//! The per-tick pipeline: input, look, movement, damping and the camera position.
use vstd::prelude::*;

use crate::component::{
    GroundContact, LogicalPlayerController, LogicalPlayerProperties, LookBasis, MoveMode,
    PlayerControls, PlayerInput, RawInput, MAX_MOUSE_DELTA, MAX_PARAM, MAX_SPEED, toggled,
};
use crate::fixed::{abs, clamp, fits_i64, fmul, lemma_fmul_bound, lemma_fmul_unit, min, mul_fx, ONE};
use crate::movement::{
    accelerate, accelerate_toward, apply_friction, clamp_air_speed, clamp_air_speed_of,
    friction, noclip_velocity, noclip_velocity_of, project_onto_plane,
    project_onto_plane_of, saturate, saturate_of, wish, wish_direction, wish_speed,
};
use crate::vector::{fits, v3, vadd, within, Vec3, V3};

verus! {

/// How far the pitch may turn up or down: a right angle less 2^-9 radians.
pub const PITCH_LIMIT: i64 = 1_568_843;

/// How far the camera sits below the top of the collider.
pub const CAMERA_OFFSET: i64 = -500_000;

/// One key against its opposite: `1`, `-1` or `0`, fixed-point.
pub open spec fn axis(pos: bool, neg: bool) -> int {
    (if pos {
        ONE as int
    } else {
        0
    }) - (if neg {
        ONE as int
    } else {
        0
    })
}

pub open spec fn look_yaw(yaw: int, delta: int) -> int {
    clamp(yaw + delta, i64::MIN as int, i64::MAX as int)
}

pub open spec fn look_pitch(pitch: int, delta: int) -> int {
    clamp(pitch + delta, -PITCH_LIMIT, PITCH_LIMIT as int)
}

pub open spec fn next_mode(mode: MoveMode, fly: bool) -> MoveMode {
    if fly {
        toggled(mode)
    } else {
        mode
    }
}

/// The contact is walkable: its normal points up more than the traction cutoff.
pub open spec fn has_traction(h: GroundContact, p: LogicalPlayerProperties) -> bool {
    h.normal.y > p.traction_normal_cutoff
}

pub open spec fn next_ground_tick(
    c: LogicalPlayerController,
    p: LogicalPlayerProperties,
    i: PlayerInput,
    g: Option<GroundContact>,
) -> int {
    if next_mode(c.move_mode, i.fly) == MoveMode::Noclip {
        c.ground_tick as int
    } else {
        match g {
            None => 0,
            Some(h) => if has_traction(h, p) {
                min(c.ground_tick + 1, 255)
            } else {
                c.ground_tick as int
            },
        }
    }
}

/// The velocity before acceleration on the ground: friction from the second grounded
/// tick on, and no vertical motion on that second tick.
pub open spec fn ground_braked(
    p: LogicalPlayerProperties,
    traction: bool,
    tick: int,
    dt: int,
    v: V3,
) -> V3 {
    if tick >= 1 && traction {
        let f = friction(v, p, dt);
        if tick == 1 {
            v3(f.x, 0, f.z)
        } else {
            f
        }
    } else {
        v
    }
}

/// Ground movement while the probe touches something.
pub open spec fn grounded_velocity(
    p: LogicalPlayerProperties,
    jump: bool,
    h: GroundContact,
    tick: int,
    dir: V3,
    ws: int,
    dt: int,
    v: V3,
) -> V3 {
    let traction = has_traction(h, p);
    let v1 = ground_braked(p, traction, tick, dt, v);
    let add = accelerate(dir, ws, p.acceleration as int, v1, dt);
    if traction {
        let q = project_onto_plane(vadd(v1, add), h.normal@);
        if jump {
            v3(q.x, p.jump_impulse as int, q.z)
        } else {
            q
        }
    } else {
        v3(v1.x + add.x, v1.y + add.y - fmul(p.gravity as int, dt), v1.z + add.z)
    }
}

/// Ground movement while the probe touches nothing.
pub open spec fn airborne_velocity(p: LogicalPlayerProperties, dir: V3, ws: int, dt: int, v: V3) -> V3 {
    let add = accelerate(dir, min(ws, p.air_speed_cap as int), p.air_acceleration as int, v, dt);
    clamp_air_speed(
        v3(v.x + add.x, v.y - fmul(p.gravity as int, dt), v.z + add.z),
        p.max_air_speed as int,
    )
}

pub open spec fn next_velocity(
    c: LogicalPlayerController,
    p: LogicalPlayerProperties,
    i: PlayerInput,
    g: Option<GroundContact>,
    b: LookBasis,
    dt: int,
    v: V3,
) -> V3 {
    saturate(
        if next_mode(c.move_mode, i.fly) == MoveMode::Noclip {
            noclip_velocity(b, i.movement@, p.fly_velocity as int)
        } else {
            let dir = wish_direction(b, i.movement@, p);
            let ws = wish_speed(b, i.movement@, p);
            match g {
                Some(h) => grounded_velocity(p, i.jump, h, c.ground_tick as int, dir, ws, dt, v),
                None => airborne_velocity(p, dir, ws, dt, v),
            }
        },
    )
}

/// The horizontal components scaled by the damping factor.
pub open spec fn damped(v: V3, damping: int) -> V3 {
    v3(fmul(v.x, damping), v.y, fmul(v.z, damping))
}

pub open spec fn contact_ok(g: Option<GroundContact>) -> bool {
    match g {
        Some(h) => h.wf(),
        None => true,
    }
}

/// Turns the device state of one tick into the player's intent. While the cursor is not
/// captured the intent is idle.
pub fn player_input<K>(controls: &PlayerControls<K>, raw: &RawInput, cursor_locked: bool) -> (r: PlayerInput)
    requires
        controls.wf(),
        raw.wf(),
    ensures
        r.wf(),
        !cursor_locked ==> r.is_idle(),
        cursor_locked ==> {
            &&& r.fly == raw.fly_just_pressed
            &&& r.jump == raw.jump_just_pressed
            &&& !r.sprint
            &&& !r.crouch
            &&& r.yaw == fmul(-raw.mouse_dx, controls.mouse_sensitivity as int)
            &&& r.pitch == fmul(-raw.mouse_dy, controls.mouse_sensitivity as int)
            &&& r.movement@ == v3(
                axis(raw.right, raw.left),
                axis(raw.up, raw.down),
                axis(raw.forward, raw.backward),
            )
        },
{
    if !cursor_locked {
        return PlayerInput::default();
    }
    proof {
        lemma_fmul_bound(-raw.mouse_dx, controls.mouse_sensitivity as int, MAX_MOUSE_DELTA as int, MAX_PARAM as int);
        lemma_fmul_bound(-raw.mouse_dy, controls.mouse_sensitivity as int, MAX_MOUSE_DELTA as int, MAX_PARAM as int);
    }
    let yaw = mul_fx(-raw.mouse_dx, controls.mouse_sensitivity);
    let pitch = mul_fx(-raw.mouse_dy, controls.mouse_sensitivity);
    let movement = Vec3::new(
        key_axis(raw.right, raw.left),
        key_axis(raw.up, raw.down),
        key_axis(raw.forward, raw.backward),
    );
    PlayerInput {
        fly: raw.fly_just_pressed,
        sprint: false,
        jump: raw.jump_just_pressed,
        crouch: false,
        pitch,
        yaw,
        movement,
    }
}

/// One key against its opposite: `1`, `-1` or `0`, fixed-point.
pub fn key_axis(pos: bool, neg: bool) -> (r: i64)
    ensures
        r == axis(pos, neg),
        abs(r as int) <= ONE,
{
    let p: i64 = if pos {
        ONE
    } else {
        0
    };
    let n: i64 = if neg {
        ONE
    } else {
        0
    };
    p - n
}

/// Adds the look deltas: yaw accumulates (saturating at the ends of `i64`), pitch is
/// held within `[-PITCH_LIMIT, PITCH_LIMIT]`.
pub fn player_look(controller: &mut LogicalPlayerController, input: &PlayerInput)
    ensures
        final(controller).yaw == look_yaw(old(controller).yaw as int, input.yaw as int),
        final(controller).pitch == look_pitch(old(controller).pitch as int, input.pitch as int),
        -PITCH_LIMIT <= final(controller).pitch <= PITCH_LIMIT,
        final(controller).move_mode == old(controller).move_mode,
        final(controller).ground_tick == old(controller).ground_tick,
{
    let yaw = (controller.yaw as i128) + (input.yaw as i128);
    controller.yaw = if yaw > i64::MAX as i128 {
        i64::MAX
    } else if yaw < i64::MIN as i128 {
        i64::MIN
    } else {
        yaw as i64
    };
    let pitch = (controller.pitch as i128) + (input.pitch as i128);
    controller.pitch = if pitch > PITCH_LIMIT as i128 {
        PITCH_LIMIT
    } else if pitch < -PITCH_LIMIT as i128 {
        -PITCH_LIMIT
    } else {
        pitch as i64
    };
}

/// One tick of the movement state machine. A set `fly` flag toggles between noclip and
/// ground movement. In noclip the velocity is the input turned by yaw and pitch times
/// the fly speed. On the ground the velocity goes through friction, acceleration toward
/// the wish direction, projection onto the contact plane and the jump when the contact
/// gives traction; gravity and the air limits otherwise. Every component of the result
/// is held within `[-MAX_SPEED, MAX_SPEED]`.
pub fn player_move(
    controller: &mut LogicalPlayerController,
    props: &LogicalPlayerProperties,
    input: &PlayerInput,
    ground: Option<GroundContact>,
    basis: &LookBasis,
    delta_time: i64,
    velocity: &mut Vec3,
)
    requires
        props.wf(),
        input.wf(),
        basis.wf(),
        contact_ok(ground),
        0 <= delta_time <= ONE,
        within(old(velocity)@, MAX_SPEED as int),
    ensures
        final(controller).move_mode == next_mode(old(controller).move_mode, input.fly),
        final(controller).ground_tick == next_ground_tick(*old(controller), *props, *input, ground),
        final(controller).pitch == old(controller).pitch,
        final(controller).yaw == old(controller).yaw,
        final(velocity)@ == next_velocity(
            *old(controller),
            *props,
            *input,
            ground,
            *basis,
            delta_time as int,
            old(velocity)@,
        ),
        within(final(velocity)@, MAX_SPEED as int),
{
    let mode = if input.fly {
        controller.move_mode.toggled()
    } else {
        controller.move_mode
    };
    controller.move_mode = mode;
    let v = *velocity;
    let dt = delta_time;
    match mode {
        MoveMode::Noclip => {
            *velocity = saturate_of(noclip_velocity_of(basis, input.movement, props.fly_velocity));
        },
        MoveMode::Ground => {
            let (dir, ws) = wish(basis, input.movement, props);
            proof {
                lemma_fmul_bound(props.gravity as int, dt as int, MAX_PARAM as int, ONE as int);
            }
            let fall = mul_fx(props.gravity, dt);
            match ground {
                Some(hit) => {
                    let traction = hit.normal.y > props.traction_normal_cutoff;
                    let tick = controller.ground_tick;
                    let v1 = if tick >= 1 && traction {
                        let (factor, f) = apply_friction(v, props, dt);
                        proof {
                            lemma_fmul_unit(v.x as int, factor as int);
                            lemma_fmul_unit(v.z as int, factor as int);
                        }
                        if tick == 1 {
                            Vec3::new(f.x, 0, f.z)
                        } else {
                            f
                        }
                    } else {
                        v
                    };
                    let add = accelerate_toward(dir, ws, props.acceleration, v1, dt);
                    let out = if traction {
                        let q = project_onto_plane_of(v1.add(add), hit.normal);
                        if input.jump {
                            Vec3::new(q.x, props.jump_impulse, q.z)
                        } else {
                            q
                        }
                    } else {
                        Vec3::new(v1.x + add.x, v1.y + add.y - fall, v1.z + add.z)
                    };
                    *velocity = saturate_of(out);
                    if traction {
                        controller.ground_tick = tick.saturating_add(1);
                    }
                },
                None => {
                    controller.ground_tick = 0;
                    let cap = if ws < props.air_speed_cap {
                        ws
                    } else {
                        props.air_speed_cap
                    };
                    let add = accelerate_toward(dir, cap, props.air_acceleration, v, dt);
                    let out = clamp_air_speed_of(
                        Vec3::new(v.x + add.x, v.y - fall, v.z + add.z),
                        props.max_air_speed,
                    );
                    *velocity = saturate_of(out);
                },
            }
        },
    }
}

/// Scales the horizontal velocity by the damping factor; vertical motion is not damped.
pub fn player_movement_damping(props: &LogicalPlayerProperties, velocity: &mut Vec3)
    requires
        props.wf(),
    ensures
        final(velocity)@ == damped(old(velocity)@, props.damping_factor as int),
{
    proof {
        lemma_fmul_unit(velocity.x as int, props.damping_factor as int);
        lemma_fmul_unit(velocity.z as int, props.damping_factor as int);
    }
    velocity.x = mul_fx(velocity.x, props.damping_factor);
    velocity.z = mul_fx(velocity.z, props.damping_factor);
}

/// The offset from the centre of a cylinder collider of the given half height to its top.
pub fn collider_y_offset(half_height: i64) -> (r: Vec3)
    ensures
        r@ == v3(0, half_height as int, 0),
{
    Vec3::new(0, half_height, 0)
}

/// Where the camera goes: the logical position raised by the collider's half height and
/// lowered by [`CAMERA_OFFSET`]. The camera's rotation is the yaw and pitch of the
/// controller.
pub fn player_render(translation: Vec3, half_height: i64) -> (r: Vec3)
    requires
        fits(v3(
            translation.x as int,
            translation.y + half_height + CAMERA_OFFSET,
            translation.z as int,
        )),
        fits_i64(translation.y + half_height),
    ensures
        r@ == vadd(vadd(translation@, v3(0, half_height as int, 0)), v3(0, CAMERA_OFFSET as int, 0)),
{
    translation.add(collider_y_offset(half_height)).add(Vec3::new(0, CAMERA_OFFSET, 0))
}

} // verus!
