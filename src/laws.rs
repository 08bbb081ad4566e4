//! Properties of the controller that hold across inputs and across ticks.
use vstd::prelude::*;

use crate::component::{
    toggled, GroundContact, LogicalPlayerController, LogicalPlayerProperties, LookBasis,
    MoveMode, PlayerInput, MAX_SPEED,
};
use crate::fixed::{
    fdiv, fmul, lemma_fmul_one, lemma_fmul_unit, lemma_tdiv_bounds, lemma_tdiv_monotone,
    lemma_tdiv_unit, max, min, ONE,
};
use crate::movement::{
    accelerate, back_axis_flat, clamp_air_speed, friction, friction_factor, right_axis,
    saturate, up_axis, wish_direction, wish_speed, wish_vector,
};
use crate::system::{
    airborne_velocity, damped, has_traction, look_pitch, next_ground_tick, next_mode,
    next_velocity, PITCH_LIMIT,
};
use crate::vector::{dot, length_xz, lemma_sqrt_floor_is, v3, vadd, within, V3};

verus! {

/// The pitch after a sequence of look steps, each adding one delta.
pub open spec fn pitch_after(pitch: int, deltas: Seq<int>) -> int
    decreases deltas.len(),
{
    if deltas.len() == 0 {
        pitch
    } else {
        look_pitch(pitch_after(pitch, deltas.drop_last()), deltas.last())
    }
}

/// Whatever the look deltas, however large, the pitch stays within
/// `[-PITCH_LIMIT, PITCH_LIMIT]` once it has been there or once one step has run.
pub proof fn lemma_pitch_stays_bounded(pitch: int, deltas: Seq<int>)
    requires
        deltas.len() > 0 || -PITCH_LIMIT <= pitch <= PITCH_LIMIT,
    ensures
        -PITCH_LIMIT <= pitch_after(pitch, deltas) <= PITCH_LIMIT,
    decreases deltas.len(),
{
    if deltas.len() > 1 {
        lemma_pitch_stays_bounded(pitch, deltas.drop_last());
    }
}

/// The mode after a sequence of ticks with the given `fly` flags.
pub open spec fn mode_after(mode: MoveMode, flags: Seq<bool>) -> MoveMode
    decreases flags.len(),
{
    if flags.len() == 0 {
        mode
    } else {
        next_mode(mode_after(mode, flags.drop_last()), flags.last())
    }
}

/// How many of the flags are set.
pub open spec fn set_count(flags: Seq<bool>) -> nat
    decreases flags.len(),
{
    if flags.len() == 0 {
        0
    } else {
        set_count(flags.drop_last()) + if flags.last() {
            1nat
        } else {
            0nat
        }
    }
}

/// The mode toggles once for each tick whose `fly` flag is set and never otherwise: after
/// a sequence of ticks it is the starting mode exactly when an even number of flags were
/// set.
pub proof fn lemma_mode_toggles_once_per_flag(mode: MoveMode, flags: Seq<bool>)
    ensures
        mode_after(mode, flags) == if set_count(flags) % 2 == 0 {
            mode
        } else {
            toggled(mode)
        },
        forall|m: MoveMode| next_mode(m, false) == m,
    decreases flags.len(),
{
    if flags.len() > 0 {
        lemma_mode_toggles_once_per_flag(mode, flags.drop_last());
    }
}

/// Toggling twice restores the mode, and a set `fly` flag does nothing but toggle: the
/// tick runs as a tick without the flag from the toggled mode.
pub proof fn lemma_fly_toggle_round_trip(
    c: LogicalPlayerController,
    p: LogicalPlayerProperties,
    i: PlayerInput,
    g: Option<GroundContact>,
    b: LookBasis,
    dt: int,
    v: V3,
)
    requires
        i.fly,
    ensures
        next_mode(next_mode(c.move_mode, true), true) == c.move_mode,
        next_velocity(c, p, i, g, b, dt, v) == next_velocity(
            LogicalPlayerController { move_mode: toggled(c.move_mode), ..c },
            p,
            PlayerInput { fly: false, ..i },
            g,
            b,
            dt,
            v,
        ),
        next_ground_tick(c, p, i, g) == next_ground_tick(
            LogicalPlayerController { move_mode: toggled(c.move_mode), ..c },
            p,
            PlayerInput { fly: false, ..i },
            g,
        ),
{
}

/// Friction scales the horizontal velocity by a factor within `[0, 1]`: no component
/// changes sign or grows, and the vertical component is untouched.
pub proof fn lemma_friction_never_reverses(v: V3, p: LogicalPlayerProperties, dt: int)
    requires
        p.wf(),
        0 <= dt <= ONE,
    ensures
        0 <= friction_factor(v, p, dt) <= ONE,
        v.x >= 0 ==> 0 <= friction(v, p, dt).x <= v.x,
        v.x <= 0 ==> v.x <= friction(v, p, dt).x <= 0,
        v.z >= 0 ==> 0 <= friction(v, p, dt).z <= v.z,
        v.z <= 0 ==> v.z <= friction(v, p, dt).z <= 0,
        friction(v, p, dt).y == v.y,
{
    let speed = length_xz(v);
    if speed > p.friction_speed_cutoff {
        let control = max(speed, p.stop_speed as int);
        let c = fmul(control, p.friction as int);
        assert(control * p.friction >= 0) by (nonlinear_arith)
            requires
                control >= 0,
                p.friction >= 0,
        ;
        lemma_tdiv_bounds(control * p.friction, ONE as int);
        assert(c * dt >= 0) by (nonlinear_arith)
            requires
                c >= 0,
                dt >= 0,
        ;
        lemma_tdiv_bounds(c * dt, ONE as int);
        let drop = fmul(c, dt);
        let n = (speed - drop) * ONE;
        assert(n <= speed * ONE) by (nonlinear_arith)
            requires
                n == (speed - drop) * ONE,
                drop >= 0,
        ;
        if n >= 0 {
            lemma_tdiv_monotone(n, speed * ONE, speed);
            assert(speed * ONE / speed == ONE as int) by (nonlinear_arith)
                requires
                    speed > 0,
            ;
        }
    }
    lemma_fmul_unit(v.x, friction_factor(v, p, dt));
    lemma_fmul_unit(v.z, friction_factor(v, p, dt));
}

/// Limiting the air speed never reverses or grows a horizontal component.
proof fn lemma_air_clamp_shrinks(v: V3, max_speed: int)
    requires
        max_speed >= 0,
    ensures
        v.x >= 0 ==> 0 <= clamp_air_speed(v, max_speed).x <= v.x,
        v.x <= 0 ==> v.x <= clamp_air_speed(v, max_speed).x <= 0,
        v.z >= 0 ==> 0 <= clamp_air_speed(v, max_speed).z <= v.z,
        v.z <= 0 ==> v.z <= clamp_air_speed(v, max_speed).z <= 0,
{
    let speed = length_xz(v);
    if speed > max_speed {
        assert(0 <= max_speed * ONE <= speed * ONE) by (nonlinear_arith)
            requires
                0 <= max_speed <= speed,
        ;
        lemma_tdiv_unit(max_speed * ONE, speed);
        lemma_tdiv_bounds(max_speed * ONE, speed);
        let r = fdiv(max_speed, speed);
        lemma_fmul_unit(v.x, r);
        lemma_fmul_unit(v.z, r);
    }
}

/// With no input the wish direction and speed are zero.
proof fn lemma_idle_wish(b: LookBasis, m: V3, p: LogicalPlayerProperties)
    requires
        m == v3(0, 0, 0),
    ensures
        wish_direction(b, m, p) == v3(0, 0, 0),
        wish_speed(b, m, p) == 0 || p.sprint_speed < 0,
{
    lemma_fmul_one(p.side_speed as int);
    lemma_fmul_one(p.forward_speed as int);
    let c0 = right_axis(b);
    let c1 = up_axis();
    let c2 = back_axis_flat(b);
    lemma_fmul_one(c0.x);
    lemma_fmul_one(c0.y);
    lemma_fmul_one(c0.z);
    lemma_fmul_one(c1.x);
    lemma_fmul_one(c1.y);
    lemma_fmul_one(c1.z);
    lemma_fmul_one(c2.x);
    lemma_fmul_one(c2.y);
    lemma_fmul_one(c2.z);
    assert(wish_vector(b, m, p) == v3(0, 0, 0));
    lemma_sqrt_floor_is(0, 0);
}

/// With no input and no ground under the player, gravity and damping never reverse or
/// grow a horizontal velocity component: the horizontal velocity decays toward zero.
pub proof fn lemma_idle_fall_decays(
    c: LogicalPlayerController,
    p: LogicalPlayerProperties,
    i: PlayerInput,
    b: LookBasis,
    dt: int,
    v: V3,
)
    requires
        p.wf(),
        0 <= dt <= ONE,
        within(v, MAX_SPEED as int),
        c.move_mode == MoveMode::Ground,
        i.is_idle(),
    ensures
        ({
            let w = damped(next_velocity(c, p, i, None, b, dt, v), p.damping_factor as int);
            &&& v.x >= 0 ==> 0 <= w.x <= v.x
            &&& v.x <= 0 ==> v.x <= w.x <= 0
            &&& v.z >= 0 ==> 0 <= w.z <= v.z
            &&& v.z <= 0 ==> v.z <= w.z <= 0
        }),
{
    let m = i.movement@;
    lemma_idle_wish(b, m, p);
    let dir = wish_direction(b, m, p);
    let ws = wish_speed(b, m, p);
    assert(dot(v, dir) == 0) by {
        assert(v.x * 0 + v.y * 0 + v.z * 0 == 0);
    }
    assert(accelerate(dir, min(ws, p.air_speed_cap as int), p.air_acceleration as int, v, dt)
        == v3(0, 0, 0));
    let fallen = v3(v.x, v.y - fmul(p.gravity as int, dt), v.z);
    assert(vadd(v, v3(0, 0, 0)) == v);
    lemma_air_clamp_shrinks(fallen, p.max_air_speed as int);
    let a = airborne_velocity(p, dir, ws, dt, v);
    assert(a == clamp_air_speed(fallen, p.max_air_speed as int));
    let s = saturate(a);
    assert(s.x == a.x && s.z == a.z);
    lemma_fmul_unit(s.x, p.damping_factor as int);
    lemma_fmul_unit(s.z, p.damping_factor as int);
}

/// The counter of grounded ticks is zero after any tick without ground contact, and it
/// grows only on a tick on ground with traction, where it counts up by one until it
/// saturates.
pub proof fn lemma_ground_tick_counts_traction(
    c: LogicalPlayerController,
    p: LogicalPlayerProperties,
    i: PlayerInput,
    g: Option<GroundContact>,
)
    requires
        next_mode(c.move_mode, i.fly) == MoveMode::Ground,
    ensures
        g is None ==> next_ground_tick(c, p, i, g) == 0,
        next_ground_tick(c, p, i, g) > c.ground_tick ==> (g matches Some(h) && has_traction(
            h,
            p,
        )),
        (g matches Some(h) && has_traction(h, p)) ==> next_ground_tick(c, p, i, g) == min(
            c.ground_tick + 1,
            255,
        ),
        (g matches Some(h) && !has_traction(h, p)) ==> next_ground_tick(c, p, i, g)
            == c.ground_tick,
{
}

/// On ground with traction a jump sets the vertical velocity to the jump impulse, whatever
/// it was before.
pub proof fn lemma_jump_sets_vertical_speed(
    c: LogicalPlayerController,
    p: LogicalPlayerProperties,
    i: PlayerInput,
    h: GroundContact,
    b: LookBasis,
    dt: int,
    v: V3,
)
    requires
        p.wf(),
        i.jump,
        next_mode(c.move_mode, i.fly) == MoveMode::Ground,
        has_traction(h, p),
    ensures
        next_velocity(c, p, i, Some(h), b, dt, v).y == p.jump_impulse,
{
}

/// In the air, or on ground without traction, the jump flag changes nothing.
pub proof fn lemma_jump_needs_traction(
    c: LogicalPlayerController,
    p: LogicalPlayerProperties,
    i: PlayerInput,
    g: Option<GroundContact>,
    b: LookBasis,
    dt: int,
    v: V3,
)
    requires
        g is None || (g matches Some(h) && !has_traction(h, p)),
    ensures
        next_velocity(c, p, i, g, b, dt, v) == next_velocity(
            c,
            p,
            PlayerInput { jump: false, ..i },
            g,
            b,
            dt,
            v,
        ),
{
}

} // verus!
