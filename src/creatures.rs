use vstd::prelude::*;

verus! {

/// A full charge of energy, in billionths.
pub const ENERGY_FULL: u64 = 1_000_000_000;

/// Marks a creature that hunts.
pub struct Hunter;

/// Marks a creature that is hunted.
pub struct Prey;

/// The state record that every creature carries.
#[derive(Clone, Copy, Debug, PartialEq, Eq)]
pub struct Creature {
    /// Linear speed, in pixels per second.
    pub speed: i64,
    /// Rotation rate, in milliradians per second.
    pub angular_speed: i64,
    /// Available effort, in billionths of a full charge.
    pub energy: u64,
    /// Whether the creature may move; cleared when energy runs out.
    pub has_energy: bool,
    /// Propensity to reproduce; carried along, read by no rule.
    pub reproductivity: u64,
}

/// `e` held within `[0, ENERGY_FULL]`.
pub open spec fn clamp_energy(e: int) -> int {
    if e > ENERGY_FULL {
        ENERGY_FULL as int
    } else if e < 0 {
        0
    } else {
        e
    }
}

impl Creature {
    /// Energy never leaves `[0, ENERGY_FULL]`.
    pub open spec fn wf(&self) -> bool {
        self.energy <= ENERGY_FULL
    }

    /// The speed that actually moves the creature: none while it is out of energy.
    pub open spec fn effective_speed(&self) -> int {
        if self.has_energy {
            self.speed as int
        } else {
            0
        }
    }

    /// A creature at rest with a full charge.
    pub fn new() -> (r: Creature)
        ensures
            r.speed == 0,
            r.angular_speed == 0,
            r.energy == ENERGY_FULL,
            r.has_energy,
            r.reproductivity == 0,
            r.wf(),
    {
        Creature { speed: 0, angular_speed: 0, energy: ENERGY_FULL, has_energy: true, reproductivity: 0 }
    }

    /// Sets the linear and the angular speed; the rest is kept.
    pub fn set_speed(&mut self, speed: i64, angular_speed: i64)
        ensures
            *final(self) == (Creature { speed, angular_speed, ..*old(self) }),
    {
        self.speed = speed;
        self.angular_speed = angular_speed;
    }

    /// The effective linear speed and the angular speed.
    pub fn get_speed(&self) -> (r: (i64, i64))
        ensures
            r.0 == self.effective_speed(),
            r.1 == self.angular_speed,
    {
        (self.get_only_speed(), self.angular_speed)
    }

    /// The effective linear speed: the speed while the creature has energy, else 0.
    pub fn get_only_speed(&self) -> (r: i64)
        ensures
            r == self.effective_speed(),
    {
        if self.has_energy {
            self.speed
        } else {
            0
        }
    }

    /// An offspring: a copy of the current state record.
    pub fn reproduce(&mut self) -> (r: Creature)
        ensures
            r == *old(self),
            *final(self) == *old(self),
    {
        *self
    }

    /// Stores `energy` held within `[0, ENERGY_FULL]`, whatever its magnitude or sign.
    pub fn set_energy(&mut self, energy: i128)
        ensures
            final(self).energy == clamp_energy(energy as int),
            final(self).energy <= ENERGY_FULL,
            *final(self) == (Creature { energy: final(self).energy, ..*old(self) }),
    {
        let e: i128 = if energy > ENERGY_FULL as i128 {
            ENERGY_FULL as i128
        } else if energy < 0 {
            0
        } else {
            energy
        };
        self.energy = e as u64;
    }
}

} // verus!
