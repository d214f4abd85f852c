//! State and per-frame rules of a small predator/prey simulation.
//!
//! The engine that renders, collides and polls the keyboard lives outside this
//! library; what is here is the arithmetic that decides how a creature's speed
//! and energy evolve from frame to frame. Quantities are kept in fixed point:
//! energy in billionths of a full charge, time in microseconds, angular speed
//! in milliradians per second.

pub mod control;
pub mod creatures;
pub mod energy;
pub mod motion;
pub mod spawn;

pub use creatures::{Creature, Hunter, Prey, ENERGY_FULL};
pub use energy::{update_energy, ENERGY_THRESHOLD, PREY_ENERGY_PROPAGATION_RATE, PREY_ENERGY_REDUCTION_RATE};
pub use control::{
    lemma_forward_key_ignores_rotation, lemma_latest_turn_key_wins, manual_creature_movement,
    KeyEdges, FORWARD_SPEED, TURN_SPEED,
};
pub use motion::{integrate_motion, move_creatures, MotionStep, VelocityCommand};
pub use spawn::{coordinate_from_sample, random_position};
