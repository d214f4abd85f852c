use vstd::prelude::*;
use crate::creatures::{clamp_energy, Creature, ENERGY_FULL};

verus! {

/// Energy a moving prey spends, in billionths of a full charge per microsecond.
pub const PREY_ENERGY_REDUCTION_RATE: u64 = 200;

/// Energy a resting prey regains, in billionths of a full charge per microsecond.
pub const PREY_ENERGY_PROPAGATION_RATE: u64 = 200;

/// Level a resting prey must regain before it may move again.
pub const ENERGY_THRESHOLD: u64 = 100_000_000;

/// Energy after `delta_us` microseconds, before it is clamped: regained at rest,
/// spent in motion.
pub open spec fn raw_energy(c: Creature, delta_us: nat) -> int {
    if c.effective_speed() == 0 {
        c.energy + PREY_ENERGY_PROPAGATION_RATE * delta_us
    } else {
        c.energy - PREY_ENERGY_REDUCTION_RATE * delta_us
    }
}

/// Whether the creature may move after the step: a resting one regains the right
/// once its energy reaches the threshold, a moving one loses it once its energy
/// is spent.
pub open spec fn next_has_energy(c: Creature, delta_us: nat) -> bool {
    if c.effective_speed() == 0 {
        c.has_energy || raw_energy(c, delta_us) >= ENERGY_THRESHOLD
    } else {
        c.has_energy && raw_energy(c, delta_us) > 0
    }
}

/// One prey's energy step over a frame of `delta_us` microseconds.
pub fn update_energy(creature: &mut Creature, delta_us: u64)
    ensures
        final(creature).energy == clamp_energy(raw_energy(*old(creature), delta_us as nat)),
        final(creature).has_energy == next_has_energy(*old(creature), delta_us as nat),
        final(creature).speed == old(creature).speed,
        final(creature).angular_speed == old(creature).angular_speed,
        final(creature).reproductivity == old(creature).reproductivity,
        // energy stays within a full charge, whatever the step
        final(creature).energy <= ENERGY_FULL,
        // at rest it rises, in motion it falls, but at the bounds
        delta_us > 0 && old(creature).effective_speed() == 0 && old(creature).energy < ENERGY_FULL
            ==> final(creature).energy > old(creature).energy,
        delta_us > 0 && old(creature).effective_speed() != 0 && old(creature).energy > 0
            ==> final(creature).energy < old(creature).energy,
{
    let dt: i128 = delta_us as i128;
    assert(0 <= 200 * dt <= 200 * 0xffff_ffff_ffff_ffffi128) by (nonlinear_arith)
        requires 0 <= dt <= 0xffff_ffff_ffff_ffffi128;
    let energy: i128;
    if creature.get_only_speed() == 0 {
        energy = creature.energy as i128 + PREY_ENERGY_PROPAGATION_RATE as i128 * dt;
        if energy >= ENERGY_THRESHOLD as i128 {
            creature.has_energy = true;
        }
    } else {
        energy = creature.energy as i128 - PREY_ENERGY_REDUCTION_RATE as i128 * dt;
        if energy <= 0 {
            creature.has_energy = false;
        }
    }
    creature.set_energy(energy);
}

} // verus!
