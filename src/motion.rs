use vstd::prelude::*;
use crate::creatures::Creature;

verus! {

/// What a creature asks of the physics solver in one frame. `None` leaves that
/// part of the body's velocity as the solver has it.
#[derive(Clone, Copy, Debug, PartialEq, Eq)]
pub struct VelocityCommand {
    /// New angular velocity, in milliradians per second.
    pub angular: Option<i64>,
    /// New linear speed along the body's forward axis, in pixels per second.
    pub forward: Option<i64>,
}

/// A rate that is zero asks for nothing; any other is handed on.
pub open spec fn command_of(rate: i64) -> Option<i64> {
    if rate == 0 {
        None
    } else {
        Some(rate)
    }
}

/// The forward command of a creature: a creature out of energy is held still;
/// one with energy drives at its speed, or asks for nothing while that is zero.
pub open spec fn forward_command_of(c: Creature) -> Option<i64> {
    if !c.has_energy {
        Some(0)
    } else {
        command_of(c.speed)
    }
}

/// The velocity a creature drives its body at: its angular speed where not
/// zero, and its linear speed along the forward axis where not zero. A creature
/// out of energy has its linear velocity set to zero, while it still turns.
pub fn move_creatures(creature: &Creature) -> (r: VelocityCommand)
    ensures
        r.angular == command_of(creature.angular_speed),
        r.forward == forward_command_of(*creature),
        !creature.has_energy ==> r.forward == Some(0i64),
{
    let angular_speed: i64 = creature.angular_speed;
    let speed: i64 = creature.speed;
    let angular = if angular_speed == 0 {
        None
    } else {
        Some(angular_speed)
    };
    let forward = if !creature.has_energy {
        Some(0)
    } else if speed == 0 {
        None
    } else {
        Some(speed)
    };
    VelocityCommand { angular, forward }
}

/// How far a creature turns and advances in one frame, where no physics solver
/// moves it.
#[derive(Clone, Copy, Debug, PartialEq, Eq)]
pub struct MotionStep {
    /// Rotation about the vertical axis, in billionths of a radian.
    pub rotation: i128,
    /// Distance along the forward axis, in millionths of a pixel.
    pub advance: i128,
}

/// Integrates the creature's speeds over `delta_us` microseconds: rotation at the
/// angular speed, translation at the effective linear speed.
pub fn integrate_motion(creature: &Creature, delta_us: u64) -> (r: MotionStep)
    ensures
        r.rotation == creature.angular_speed * delta_us,
        r.advance == creature.effective_speed() * delta_us,
        // out of energy, the creature still turns but does not advance
        !creature.has_energy ==> r.advance == 0,
{
    let (speed, angular_speed) = creature.get_speed();
    let dt: i128 = delta_us as i128;
    let a: i128 = angular_speed as i128;
    let s: i128 = speed as i128;
    assert(-0x8000_0000_0000_0000i128 * 0xffff_ffff_ffff_ffffi128 <= a * dt
        <= 0x7fff_ffff_ffff_ffffi128 * 0xffff_ffff_ffff_ffffi128) by (nonlinear_arith)
        requires
            -0x8000_0000_0000_0000i128 <= a <= 0x7fff_ffff_ffff_ffffi128,
            0 <= dt <= 0xffff_ffff_ffff_ffffi128;
    assert(-0x8000_0000_0000_0000i128 * 0xffff_ffff_ffff_ffffi128 <= s * dt
        <= 0x7fff_ffff_ffff_ffffi128 * 0xffff_ffff_ffff_ffffi128) by (nonlinear_arith)
        requires
            -0x8000_0000_0000_0000i128 <= s <= 0x7fff_ffff_ffff_ffffi128,
            0 <= dt <= 0xffff_ffff_ffff_ffffi128;
    MotionStep { rotation: a * dt, advance: s * dt }
}

} // verus!
