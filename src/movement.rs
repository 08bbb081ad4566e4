//! The stages of the ground movement solver: wish direction, friction, acceleration,
//! slope projection and the air speed limit.
use vstd::prelude::*;

use crate::component::{LogicalPlayerProperties, LookBasis, MAX_PARAM, MAX_SPEED};
use crate::fixed::{
    abs, clamp, div_toward_zero, fdiv, fmul, lemma_fmul_bound, lemma_fmul_shrink,
    lemma_fmul_unit, lemma_tdiv_bounds, lemma_tdiv_monotone, lemma_tdiv_unit, max, min, mul_fx,
    ONE,
};
use crate::vector::{
    dot, length, length_xz, lemma_dot_bound, lemma_scale_bound, scale, v3, vadd, vsub, within,
    Vec3, V3,
};

verus! {

/// The right axis of the yaw rotation.
pub open spec fn right_axis(b: LookBasis) -> V3 {
    v3(b.cos_yaw as int, 0, -b.sin_yaw)
}

/// World up.
pub open spec fn up_axis() -> V3 {
    v3(0, ONE as int, 0)
}

/// The backward axis of the yaw rotation alone: a positive forward input moves along its
/// opposite, so forward is `-Z` at zero yaw.
pub open spec fn back_axis_flat(b: LookBasis) -> V3 {
    v3(-b.sin_yaw, 0, -b.cos_yaw)
}

/// The backward axis of the yaw-then-pitch rotation.
pub open spec fn back_axis_pitched(b: LookBasis) -> V3 {
    v3(-fmul(b.sin_yaw as int, b.cos_pitch as int), b.sin_pitch as int, -fmul(b.cos_yaw as int, b.cos_pitch as int))
}

/// `m` taken from the frame of the columns `c0, c1, c2` to the world.
pub open spec fn apply(c0: V3, c1: V3, c2: V3, m: V3) -> V3 {
    vadd(vadd(scale(c0, m.x), scale(c1, m.y)), scale(c2, m.z))
}

/// The noclip velocity: the input turned by yaw and pitch, times the fly speed.
pub open spec fn noclip_velocity(b: LookBasis, m: V3, fly_speed: int) -> V3 {
    scale(apply(right_axis(b), up_axis(), back_axis_pitched(b), m), fly_speed)
}

/// The desired horizontal motion: the input scaled by the side and forward speeds and
/// turned by yaw alone.
pub open spec fn wish_vector(b: LookBasis, m: V3, p: LogicalPlayerProperties) -> V3 {
    apply(
        right_axis(b),
        up_axis(),
        back_axis_flat(b),
        v3(fmul(m.x, p.side_speed as int), 0, fmul(m.z, p.forward_speed as int)),
    )
}

/// `w` scaled to unit length; the zero vector stays zero.
pub open spec fn direction_of(w: V3) -> V3 {
    let s = length(w);
    if s > 0 {
        v3(fdiv(w.x, s), fdiv(w.y, s), fdiv(w.z, s))
    } else {
        v3(0, 0, 0)
    }
}

pub open spec fn wish_direction(b: LookBasis, m: V3, p: LogicalPlayerProperties) -> V3 {
    direction_of(wish_vector(b, m, p))
}

/// The desired speed, capped at the sprint speed.
pub open spec fn wish_speed(b: LookBasis, m: V3, p: LogicalPlayerProperties) -> int {
    min(length(wish_vector(b, m, p)), p.sprint_speed as int)
}

/// The factor that friction scales the horizontal velocity by.
pub open spec fn friction_factor(v: V3, p: LogicalPlayerProperties, dt: int) -> int {
    let speed = length_xz(v);
    if speed > p.friction_speed_cutoff {
        let control = max(speed, p.stop_speed as int);
        let drop = fmul(fmul(control, p.friction as int), dt);
        max(fdiv(speed - drop, speed), 0)
    } else {
        0
    }
}

/// The horizontal components scaled by `f`.
pub open spec fn scale_xz(v: V3, f: int) -> V3 {
    v3(fmul(v.x, f), v.y, fmul(v.z, f))
}

pub open spec fn friction(v: V3, p: LogicalPlayerProperties, dt: int) -> V3 {
    scale_xz(v, friction_factor(v, p, dt))
}

/// The velocity change that accelerates toward `wish_dir` up to `wish_speed`, never
/// slowing down.
pub open spec fn accelerate(wish_dir: V3, wish_speed: int, acceleration: int, v: V3, dt: int) -> V3 {
    let add_speed = wish_speed - dot(v, wish_dir);
    if add_speed <= 0 {
        v3(0, 0, 0)
    } else {
        scale(wish_dir, min(fmul(fmul(acceleration, wish_speed), dt), add_speed))
    }
}

/// `v` without its component along the normal `n`.
pub open spec fn project_onto_plane(v: V3, n: V3) -> V3 {
    vsub(v, scale(n, dot(v, n)))
}

/// `v` with its horizontal speed rescaled down to `max_speed` when it is faster.
pub open spec fn clamp_air_speed(v: V3, max_speed: int) -> V3 {
    let speed = length_xz(v);
    if speed > max_speed {
        scale_xz(v, fdiv(max_speed, speed))
    } else {
        v
    }
}

/// Each component held within `[-MAX_SPEED, MAX_SPEED]`.
pub open spec fn saturate(v: V3) -> V3 {
    v3(
        clamp(v.x, -MAX_SPEED, MAX_SPEED as int),
        clamp(v.y, -MAX_SPEED, MAX_SPEED as int),
        clamp(v.z, -MAX_SPEED, MAX_SPEED as int),
    )
}

pub open spec fn tuning_ok(p: LogicalPlayerProperties, dt: int) -> bool {
    p.wf() && 0 <= dt <= ONE
}

/// A rotation frame with unit-sized columns.
pub open spec fn frame_ok(c0: V3, c1: V3, c2: V3) -> bool {
    within(c0, ONE as int) && within(c1, ONE as int) && within(c2, ONE as int)
}

proof fn lemma_apply_bound(c0: V3, c1: V3, c2: V3, m: V3, bm: int)
    requires
        frame_ok(c0, c1, c2),
        within(m, bm),
    ensures
        within(apply(c0, c1, c2, m), 3 * bm),
{
    lemma_scale_bound(c0, m.x);
    lemma_scale_bound(c1, m.y);
    lemma_scale_bound(c2, m.z);
}

/// `m` taken from the frame of the columns `c0, c1, c2` to the world.
pub fn apply_frame(c0: Vec3, c1: Vec3, c2: Vec3, m: Vec3) -> (r: Vec3)
    requires
        frame_ok(c0@, c1@, c2@),
        within(m@, MAX_PARAM as int),
    ensures
        r@ == apply(c0@, c1@, c2@, m@),
        within(r@, 3 * MAX_PARAM),
{
    proof {
        lemma_scale_bound(c0@, m.x as int);
        lemma_scale_bound(c1@, m.y as int);
        lemma_scale_bound(c2@, m.z as int);
        lemma_apply_bound(c0@, c1@, c2@, m@, MAX_PARAM as int);
    }
    c0.scale(m.x).add(c1.scale(m.y)).add(c2.scale(m.z))
}

pub fn right_axis_of(b: &LookBasis) -> (r: Vec3)
    requires
        b.wf(),
    ensures
        r@ == right_axis(*b),
        within(r@, ONE as int),
{
    Vec3::new(b.cos_yaw, 0, -b.sin_yaw)
}

pub fn up_axis_of() -> (r: Vec3)
    ensures
        r@ == up_axis(),
        within(r@, ONE as int),
{
    Vec3::new(0, ONE, 0)
}

/// The noclip velocity: the input turned by yaw and pitch, times the fly speed.
pub fn noclip_velocity_of(b: &LookBasis, m: Vec3, fly_speed: i64) -> (r: Vec3)
    requires
        b.wf(),
        within(m@, ONE as int),
        0 <= fly_speed <= MAX_PARAM,
    ensures
        r@ == noclip_velocity(*b, m@, fly_speed as int),
        within(r@, MAX_SPEED as int),
{
    proof {
        lemma_fmul_shrink(b.sin_yaw as int, b.cos_pitch as int);
        lemma_fmul_shrink(b.cos_yaw as int, b.cos_pitch as int);
    }
    let back = Vec3::new(
        -mul_fx(b.sin_yaw, b.cos_pitch),
        b.sin_pitch,
        -mul_fx(b.cos_yaw, b.cos_pitch),
    );
    let d = apply_frame(right_axis_of(b), up_axis_of(), back, m);
    proof {
        lemma_apply_bound(right_axis(*b), up_axis(), back@, m@, ONE as int);
        lemma_fmul_bound(d@.x, fly_speed as int, 3 * ONE, MAX_PARAM as int);
        lemma_fmul_bound(d@.y, fly_speed as int, 3 * ONE, MAX_PARAM as int);
        lemma_fmul_bound(d@.z, fly_speed as int, 3 * ONE, MAX_PARAM as int);
    }
    d.scale(fly_speed)
}

/// The desired direction (unit length, or zero) and speed (capped at the sprint speed)
/// of ground movement.
pub fn wish(b: &LookBasis, m: Vec3, p: &LogicalPlayerProperties) -> (r: (Vec3, i64))
    requires
        b.wf(),
        within(m@, ONE as int),
        p.wf(),
    ensures
        r.0@ == wish_direction(*b, m@, *p),
        r.1 == wish_speed(*b, m@, *p),
        within(r.0@, ONE as int),
        0 <= r.1 <= p.sprint_speed,
{
    proof {
        lemma_fmul_shrink(p.side_speed as int, m.x as int);
        lemma_fmul_shrink(p.forward_speed as int, m.z as int);
    }
    let local = Vec3::new(mul_fx(m.x, p.side_speed), 0, mul_fx(m.z, p.forward_speed));
    let back = Vec3::new(-b.sin_yaw, 0, -b.cos_yaw);
    let w = apply_frame(right_axis_of(b), up_axis_of(), back, local);
    let s = w.length();
    let dir = if s > 0 {
        proof {
            let n = w@.x * w@.x + w@.y * w@.y + w@.z * w@.z;
            assert(w@.x * w@.x >= 0 && w@.y * w@.y >= 0 && w@.z * w@.z >= 0) by (nonlinear_arith);
            crate::fixed::lemma_floor_sqrt_ge(n, s as int, w@.x);
            crate::fixed::lemma_floor_sqrt_ge(n, s as int, w@.y);
            crate::fixed::lemma_floor_sqrt_ge(n, s as int, w@.z);
            crate::fixed::lemma_mul_abs_bound(w@.x, ONE as int, s as int, ONE as int);
            crate::fixed::lemma_mul_abs_bound(w@.y, ONE as int, s as int, ONE as int);
            crate::fixed::lemma_mul_abs_bound(w@.z, ONE as int, s as int, ONE as int);
            lemma_tdiv_unit(w@.x * ONE, s as int);
            lemma_tdiv_unit(w@.y * ONE, s as int);
            lemma_tdiv_unit(w@.z * ONE, s as int);
        }
        let sx = s as i128;
        let x = div_toward_zero((w.x as i128) * (ONE as i128), sx) as i64;
        let y = div_toward_zero((w.y as i128) * (ONE as i128), sx) as i64;
        let z = div_toward_zero((w.z as i128) * (ONE as i128), sx) as i64;
        Vec3::new(x, y, z)
    } else {
        Vec3::zero()
    };
    let speed = if s < p.sprint_speed {
        s
    } else {
        p.sprint_speed
    };
    (dir, speed)
}

/// The factor that friction scales the horizontal velocity by, and the velocity after
/// friction.
pub fn apply_friction(v: Vec3, p: &LogicalPlayerProperties, dt: i64) -> (r: (i64, Vec3))
    requires
        within(v@, MAX_SPEED as int),
        tuning_ok(*p, dt as int),
    ensures
        r.0 == friction_factor(v@, *p, dt as int),
        r.1@ == friction(v@, *p, dt as int),
        0 <= r.0 <= ONE,
{
    let speed = v.length_xz();
    proof {
        assert(v@.x * v@.x + v@.z * v@.z <= 2 * MAX_SPEED * MAX_SPEED) by (nonlinear_arith)
            requires
                -MAX_SPEED <= v@.x <= MAX_SPEED,
                -MAX_SPEED <= v@.z <= MAX_SPEED,
        ;
        crate::fixed::lemma_floor_sqrt_le(
            v@.x * v@.x + v@.z * v@.z,
            speed as int,
            2 * MAX_SPEED,
        );
    }
    let factor: i64 = if speed > p.friction_speed_cutoff {
        let control = if speed >= p.stop_speed {
            speed
        } else {
            p.stop_speed
        };
        proof {
            lemma_fmul_bound(control as int, p.friction as int, 2 * MAX_SPEED, MAX_PARAM as int);
            lemma_tdiv_bounds(control * p.friction, ONE as int);
        }
        let c = mul_fx(control, p.friction);
        proof {
            lemma_fmul_bound(c as int, dt as int, 2 * MAX_SPEED * MAX_PARAM / (ONE as int), ONE as int);
            lemma_tdiv_bounds(c * dt, ONE as int);
            assert(control * p.friction >= 0) by (nonlinear_arith)
                requires
                    control >= 0,
                    p.friction >= 0,
            ;
            assert(c * dt >= 0) by (nonlinear_arith)
                requires
                    c >= 0,
                    dt >= 0,
            ;
        }
        let drop = mul_fx(c, dt);
        let n: i128 = ((speed - drop) as i128) * (ONE as i128);
        proof {
            assert(n <= speed * ONE) by (nonlinear_arith)
                requires
                    n == (speed - drop) * ONE,
                    drop >= 0,
            ;
            if n >= 0 {
                lemma_tdiv_monotone(n as int, speed * ONE, speed as int);
                assert(speed * ONE / (speed as int) == ONE as int) by (nonlinear_arith)
                    requires
                        speed > 0,
                ;
            }
            lemma_tdiv_bounds(n as int, speed as int);
        }
        let q = div_toward_zero(n, speed as i128);
        if q > 0 {
            q as i64
        } else {
            0
        }
    } else {
        0
    };
    proof {
        lemma_fmul_unit(v.x as int, factor as int);
        lemma_fmul_unit(v.z as int, factor as int);
    }
    (factor, Vec3::new(mul_fx(v.x, factor), v.y, mul_fx(v.z, factor)))
}

/// The velocity change that accelerates toward `wish_dir` up to `wish_speed`.
pub fn accelerate_toward(wish_dir: Vec3, wish_speed: i64, acceleration: i64, v: Vec3, dt: i64) -> (r: Vec3)
    requires
        within(wish_dir@, ONE as int),
        0 <= wish_speed <= MAX_PARAM,
        0 <= acceleration <= MAX_PARAM,
        0 <= dt <= ONE,
        within(v@, MAX_SPEED as int),
    ensures
        r@ == accelerate(wish_dir@, wish_speed as int, acceleration as int, v@, dt as int),
        within(r@, 3 * MAX_SPEED + MAX_PARAM),
{
    proof {
        lemma_dot_bound(v@, wish_dir@, MAX_SPEED as int);
    }
    let proj = v.dot(wish_dir);
    let add_speed = wish_speed - proj;
    if add_speed <= 0 {
        Vec3::zero()
    } else {
        proof {
            lemma_fmul_bound(acceleration as int, wish_speed as int, MAX_PARAM as int, MAX_PARAM as int);
            lemma_tdiv_bounds(acceleration * wish_speed, ONE as int);
            assert(acceleration * wish_speed >= 0) by (nonlinear_arith)
                requires
                    acceleration >= 0,
                    wish_speed >= 0,
            ;
        }
        let a = mul_fx(acceleration, wish_speed);
        proof {
            lemma_fmul_bound(a as int, dt as int, MAX_PARAM * MAX_PARAM / (ONE as int), ONE as int);
        }
        let a = mul_fx(a, dt);
        let amount = if a < add_speed {
            a
        } else {
            add_speed
        };
        proof {
            lemma_scale_bound(wish_dir@, amount as int);
        }
        wish_dir.scale(amount)
    }
}

/// `v` without its component along the unit normal `n`.
pub fn project_onto_plane_of(v: Vec3, n: Vec3) -> (r: Vec3)
    requires
        within(v@, 5 * MAX_SPEED),
        within(n@, ONE as int),
    ensures
        r@ == project_onto_plane(v@, n@),
        within(r@, 20 * MAX_SPEED),
{
    proof {
        lemma_dot_bound(v@, n@, 5 * MAX_SPEED);
    }
    let d = v.dot(n);
    proof {
        lemma_scale_bound(n@, d as int);
    }
    v.sub(n.scale(d))
}

/// `v` with its horizontal speed rescaled down to `max_speed` when it is faster.
pub fn clamp_air_speed_of(v: Vec3, max_speed: i64) -> (r: Vec3)
    requires
        within(v@, 5 * MAX_SPEED),
        0 <= max_speed <= MAX_PARAM,
    ensures
        r@ == clamp_air_speed(v@, max_speed as int),
        abs(r@.x) <= abs(v@.x),
        abs(r@.z) <= abs(v@.z),
        r@.y == v@.y,
{
    let speed = v.length_xz();
    if speed > max_speed {
        proof {
            assert(max_speed * ONE <= speed * ONE) by (nonlinear_arith)
                requires
                    max_speed <= speed,
            ;
            assert(max_speed * ONE >= 0) by (nonlinear_arith)
                requires
                    max_speed >= 0,
            ;
            lemma_tdiv_unit(max_speed * ONE, speed as int);
            lemma_tdiv_bounds(max_speed * ONE, speed as int);
        }
        let ratio = div_toward_zero((max_speed as i128) * (ONE as i128), speed as i128) as i64;
        proof {
            lemma_fmul_unit(v.x as int, ratio as int);
            lemma_fmul_unit(v.z as int, ratio as int);
        }
        Vec3::new(mul_fx(v.x, ratio), v.y, mul_fx(v.z, ratio))
    } else {
        v
    }
}

/// Each component held within `[-MAX_SPEED, MAX_SPEED]`.
pub fn saturate_of(v: Vec3) -> (r: Vec3)
    ensures
        r@ == saturate(v@),
        within(r@, MAX_SPEED as int),
{
    Vec3::new(clamp_i64(v.x, -MAX_SPEED, MAX_SPEED), clamp_i64(v.y, -MAX_SPEED, MAX_SPEED), clamp_i64(v.z, -MAX_SPEED, MAX_SPEED))
}

pub fn clamp_i64(a: i64, lo: i64, hi: i64) -> (r: i64)
    requires
        lo <= hi,
    ensures
        r == clamp(a as int, lo as int, hi as int),
{
    if a > hi {
        hi
    } else if a < lo {
        lo
    } else {
        a
    }
}

} // verus!
