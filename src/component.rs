//! The player's configuration, per-tick intent and runtime state.
use vstd::prelude::*;

use crate::fixed::{abs, ONE};
use crate::vector::{within, Vec3, V3};

verus! {

/// The largest value that a tuning constant may take: ten thousand units.
pub const MAX_PARAM: i64 = 10_000_000_000;

/// The largest velocity component the controller produces: a million units per second.
pub const MAX_SPEED: i64 = 1_000_000_000_000;

/// The largest mouse motion per tick that the input stage accepts, in millionths of a pixel.
pub const MAX_MOUSE_DELTA: i64 = 1_000_000_000_000;

/// Key bindings and mouse sensitivity. The key type is left to the input backend.
pub struct PlayerControls<K> {
    /// Radians of turn per pixel of mouse motion, fixed-point.
    pub mouse_sensitivity: i64,
    pub key_left: K,
    pub key_right: K,
    pub key_forward: K,
    pub key_backward: K,
    pub key_up: K,
    pub key_down: K,
    pub key_fly: K,
    pub key_jump: K,
}

impl<K> PlayerControls<K> {
    pub open spec fn wf(&self) -> bool {
        0 <= self.mouse_sensitivity <= MAX_PARAM
    }

    pub fn is_valid(&self) -> (r: bool)
        ensures
            r == self.wf(),
    {
        0 <= self.mouse_sensitivity && self.mouse_sensitivity <= MAX_PARAM
    }
}

/// The device state of one tick, as the input backend reads it for the bound keys.
#[derive(Clone, Copy, Debug, PartialEq, Eq, Structural)]
pub struct RawInput {
    pub left: bool,
    pub right: bool,
    pub forward: bool,
    pub backward: bool,
    pub up: bool,
    pub down: bool,
    /// The fly key went down on this tick.
    pub fly_just_pressed: bool,
    /// The jump key went down on this tick.
    pub jump_just_pressed: bool,
    /// Mouse motion accumulated over the tick, in millionths of a pixel.
    pub mouse_dx: i64,
    pub mouse_dy: i64,
}

impl RawInput {
    pub open spec fn wf(&self) -> bool {
        abs(self.mouse_dx as int) <= MAX_MOUSE_DELTA && abs(self.mouse_dy as int)
            <= MAX_MOUSE_DELTA
    }
}

/// What the player asks for on one tick.
#[derive(Clone, Copy, Debug, PartialEq, Eq, Structural)]
pub struct PlayerInput {
    pub fly: bool,
    pub sprint: bool,
    pub jump: bool,
    pub crouch: bool,
    /// Change of pitch, radians, fixed-point.
    pub pitch: i64,
    /// Change of yaw, radians, fixed-point.
    pub yaw: i64,
    /// Right, up and forward axes, each in `[-1, 1]`.
    pub movement: Vec3,
}

impl PlayerInput {
    pub open spec fn wf(&self) -> bool {
        within(self.movement@, ONE as int)
    }

    /// No movement, no look and no action.
    pub open spec fn is_idle(&self) -> bool {
        &&& !self.fly
        &&& !self.sprint
        &&& !self.jump
        &&& !self.crouch
        &&& self.pitch == 0
        &&& self.yaw == 0
        &&& self.movement@ == V3 { x: 0, y: 0, z: 0 }
    }
}

impl Default for PlayerInput {
    fn default() -> (r: PlayerInput)
        ensures
            r.is_idle(),
    {
        PlayerInput {
            fly: false,
            sprint: false,
            jump: false,
            crouch: false,
            pitch: 0,
            yaw: 0,
            movement: Vec3::zero(),
        }
    }
}

/// Tuning constants of the movement physics, all fixed-point.
#[derive(Clone, Copy, Debug, PartialEq, Eq, Structural)]
pub struct LogicalPlayerProperties {
    pub fly_velocity: i64,
    pub walk_accel: i64,
    pub damping_factor: i64,
    pub jump_impulse: i64,
    pub max_slope_angle: i64,
    pub forward_speed: i64,
    pub side_speed: i64,
    pub crouch_speed: i64,
    pub sprint_speed: i64,
    pub walk_speed: i64,
    pub traction_normal_cutoff: i64,
    pub friction_speed_cutoff: i64,
    pub stop_speed: i64,
    pub friction: i64,
    pub acceleration: i64,
    pub gravity: i64,
    pub air_speed_cap: i64,
    pub air_acceleration: i64,
    pub max_air_speed: i64,
}

pub open spec fn param(p: i64) -> bool {
    0 <= p <= MAX_PARAM
}

pub fn is_param(p: i64) -> (r: bool)
    ensures
        r == param(p),
{
    0 <= p && p <= MAX_PARAM
}

impl LogicalPlayerProperties {
    /// Every constant is a non-negative value up to [`MAX_PARAM`], the damping factor is
    /// at most one, and the traction cutoff lies within `[-MAX_PARAM, MAX_PARAM]`.
    pub open spec fn wf(&self) -> bool {
        &&& param(self.fly_velocity)
        &&& param(self.walk_accel)
        &&& 0 <= self.damping_factor <= ONE
        &&& param(self.jump_impulse)
        &&& param(self.max_slope_angle)
        &&& param(self.forward_speed)
        &&& param(self.side_speed)
        &&& param(self.crouch_speed)
        &&& param(self.sprint_speed)
        &&& param(self.walk_speed)
        &&& abs(self.traction_normal_cutoff as int) <= MAX_PARAM
        &&& param(self.friction_speed_cutoff)
        &&& param(self.stop_speed)
        &&& param(self.friction)
        &&& param(self.acceleration)
        &&& param(self.gravity)
        &&& param(self.air_speed_cap)
        &&& param(self.air_acceleration)
        &&& param(self.max_air_speed)
    }

    pub fn is_valid(&self) -> (r: bool)
        ensures
            r == self.wf(),
    {
        is_param(self.fly_velocity) && is_param(self.walk_accel) && 0 <= self.damping_factor
            && self.damping_factor <= ONE && is_param(self.jump_impulse) && is_param(
            self.max_slope_angle,
        ) && is_param(self.forward_speed) && is_param(self.side_speed) && is_param(
            self.crouch_speed,
        ) && is_param(self.sprint_speed) && is_param(self.walk_speed) && -MAX_PARAM
            <= self.traction_normal_cutoff && self.traction_normal_cutoff <= MAX_PARAM
            && is_param(self.friction_speed_cutoff) && is_param(self.stop_speed) && is_param(
            self.friction,
        ) && is_param(self.acceleration) && is_param(self.gravity) && is_param(
            self.air_speed_cap,
        ) && is_param(self.air_acceleration) && is_param(self.max_air_speed)
    }
}

impl Default for LogicalPlayerProperties {
    fn default() -> (r: LogicalPlayerProperties)
        ensures
            r.wf(),
            r.fly_velocity == 30 * ONE,
            r.walk_accel == 30 * ONE,
            r.damping_factor == 920_000,
            r.jump_impulse == 8_500_000,
            r.max_slope_angle == 523_599,
            r.forward_speed == 30 * ONE,
            r.side_speed == 30 * ONE,
            r.crouch_speed == 5 * ONE,
            r.sprint_speed == 14 * ONE,
            r.walk_speed == 9 * ONE,
            r.traction_normal_cutoff == 700_000,
            r.friction_speed_cutoff == 100_000,
            r.stop_speed == ONE,
            r.friction == 10 * ONE,
            r.acceleration == 10 * ONE,
            r.gravity == 23 * ONE,
            r.air_speed_cap == 2 * ONE,
            r.air_acceleration == 20 * ONE,
            r.max_air_speed == 15 * ONE,
    {
        LogicalPlayerProperties {
            fly_velocity: 30 * ONE,
            walk_accel: 30 * ONE,
            damping_factor: 920_000,
            jump_impulse: 8_500_000,
            max_slope_angle: 523_599,
            forward_speed: 30 * ONE,
            side_speed: 30 * ONE,
            crouch_speed: 5 * ONE,
            sprint_speed: 14 * ONE,
            walk_speed: 9 * ONE,
            traction_normal_cutoff: 700_000,
            friction_speed_cutoff: 100_000,
            stop_speed: ONE,
            friction: 10 * ONE,
            acceleration: 10 * ONE,
            gravity: 23 * ONE,
            air_speed_cap: 2 * ONE,
            air_acceleration: 20 * ONE,
            max_air_speed: 15 * ONE,
        }
    }
}

/// Which movement scheme drives the player.
#[derive(Clone, Copy, Debug, PartialEq, Eq, Structural)]
pub enum MoveMode {
    /// Free flight, without gravity or collision probing.
    Noclip,
    /// Walking, jumping and falling.
    Ground,
}

pub open spec fn toggled(m: MoveMode) -> MoveMode {
    match m {
        MoveMode::Noclip => MoveMode::Ground,
        MoveMode::Ground => MoveMode::Noclip,
    }
}

impl MoveMode {
    pub fn toggled(self) -> (r: MoveMode)
        ensures
            r == toggled(self),
    {
        match self {
            MoveMode::Noclip => MoveMode::Ground,
            MoveMode::Ground => MoveMode::Noclip,
        }
    }
}

impl Default for MoveMode {
    fn default() -> (r: MoveMode)
        ensures
            r == MoveMode::Noclip,
    {
        MoveMode::Noclip
    }
}

/// The runtime state of the player, changed once per tick.
#[derive(Clone, Copy, Debug, PartialEq, Eq, Structural)]
pub struct LogicalPlayerController {
    pub move_mode: MoveMode,
    /// Radians, fixed-point, within `[-PITCH_LIMIT, PITCH_LIMIT]` after every look step.
    pub pitch: i64,
    /// Radians, fixed-point, accumulated without wrapping.
    pub yaw: i64,
    /// Consecutive ticks on walkable ground, saturating.
    pub ground_tick: u8,
}

impl Default for LogicalPlayerController {
    fn default() -> (r: LogicalPlayerController)
        ensures
            r.move_mode == MoveMode::Noclip,
            r.pitch == 0,
            r.yaw == 0,
            r.ground_tick == 0,
    {
        LogicalPlayerController { move_mode: MoveMode::Noclip, pitch: 0, yaw: 0, ground_tick: 0 }
    }
}

/// The sines and cosines of the current yaw and pitch, fixed-point.
#[derive(Clone, Copy, Debug, PartialEq, Eq, Structural)]
pub struct LookBasis {
    pub sin_yaw: i64,
    pub cos_yaw: i64,
    pub sin_pitch: i64,
    pub cos_pitch: i64,
}

impl LookBasis {
    pub open spec fn wf(&self) -> bool {
        &&& abs(self.sin_yaw as int) <= ONE
        &&& abs(self.cos_yaw as int) <= ONE
        &&& abs(self.sin_pitch as int) <= ONE
        &&& abs(self.cos_pitch as int) <= ONE
    }
}

/// The nearest surface under the player, found by a short downward cast of its shape.
#[derive(Clone, Copy, Debug, PartialEq, Eq, Structural)]
pub struct GroundContact {
    /// The surface normal, of unit length.
    pub normal: Vec3,
    /// How far the shape travelled before touching, fixed-point.
    pub distance: i64,
}

impl GroundContact {
    pub open spec fn wf(&self) -> bool {
        within(self.normal@, ONE as int)
    }
}

} // verus!
