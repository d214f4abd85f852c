use vstd::prelude::*;
use crate::creatures::Creature;

verus! {

/// Linear speed that the forward key sets, in pixels per second.
pub const FORWARD_SPEED: i64 = 50;

/// Rotation rate that a turn key sets, in milliradians per second.
pub const TURN_SPEED: i64 = 1000;

/// The key edges seen in one frame: which of the three control keys went down
/// and which came up. Forward is W, left is A, right is D.
#[derive(Clone, Copy, Debug, PartialEq, Eq)]
pub struct KeyEdges {
    pub forward_pressed: bool,
    pub forward_released: bool,
    pub left_pressed: bool,
    pub left_released: bool,
    pub right_pressed: bool,
    pub right_released: bool,
}

impl KeyEdges {
    /// A frame in which no control key changed.
    pub fn none() -> (r: KeyEdges)
        ensures
            r.is_quiet(),
    {
        KeyEdges {
            forward_pressed: false,
            forward_released: false,
            left_pressed: false,
            left_released: false,
            right_pressed: false,
            right_released: false,
        }
    }

    /// No control key changed.
    pub open spec fn is_quiet(self) -> bool {
        !self.forward_pressed && !self.forward_released && !self.left_pressed
            && !self.left_released && !self.right_pressed && !self.right_released
    }

    /// A turn key went down and no turn key came up.
    pub open spec fn turn_pressed_only(self) -> bool {
        (self.left_pressed || self.right_pressed) && !self.left_released && !self.right_released
    }
}

/// Linear speed after the frame's key edges: set on a press of the forward key,
/// cleared on its release, else kept.
pub open spec fn next_speed(speed: i64, keys: KeyEdges) -> i64 {
    if keys.forward_released {
        0
    } else if keys.forward_pressed {
        FORWARD_SPEED
    } else {
        speed
    }
}

/// Angular speed after the frame's key edges: a release of either turn key clears
/// it; else the right key's press sets it negative, the left key's positive;
/// else it is kept.
pub open spec fn next_angular_speed(angular_speed: i64, keys: KeyEdges) -> i64 {
    let turn: i64 = TURN_SPEED;
    if keys.left_released || keys.right_released {
        0
    } else if keys.right_pressed {
        (0 - turn) as i64
    } else if keys.left_pressed {
        turn
    } else {
        angular_speed
    }
}

/// The creature after the player's key edges of one frame.
pub open spec fn steer(c: Creature, keys: KeyEdges) -> Creature {
    Creature {
        speed: next_speed(c.speed, keys),
        angular_speed: next_angular_speed(c.angular_speed, keys),
        ..c
    }
}

/// Applies the frame's key edges to the player's creature.
pub fn manual_creature_movement(creature: &mut Creature, keys: &KeyEdges)
    ensures
        *final(creature) == steer(*old(creature), *keys),
        // the forward key alone decides the linear speed
        keys.forward_pressed && !keys.forward_released ==> final(creature).speed == FORWARD_SPEED,
        keys.forward_released ==> final(creature).speed == 0,
        // releasing a turn key stops the rotation
        keys.left_released || keys.right_released ==> final(creature).angular_speed == 0,
        // no key edge, no change
        keys.is_quiet() ==> *final(creature) == *old(creature),
{
    let mut speed: i64 = creature.speed;
    let mut angular_speed: i64 = creature.angular_speed;

    if keys.forward_pressed {
        speed = FORWARD_SPEED;
    }
    if keys.forward_released {
        speed = 0;
    }

    if keys.left_pressed {
        angular_speed = TURN_SPEED;
    }
    if keys.right_pressed {
        angular_speed = -TURN_SPEED;
    }
    if keys.left_released || keys.right_released {
        angular_speed = 0;
    }

    creature.set_speed(speed, angular_speed);
}

/// The forward key sets the linear speed whatever the creature's rotation was:
/// two creatures that differ only in angular speed end with the same linear
/// speed, a fixed positive one on a press and zero on a release.
pub proof fn lemma_forward_key_ignores_rotation(c: Creature, d: Creature, keys: KeyEdges)
    requires
        c.speed == d.speed,
        keys.forward_pressed || keys.forward_released,
    ensures
        steer(c, keys).speed == steer(d, keys).speed,
        keys.forward_released ==> steer(c, keys).speed == 0,
        !keys.forward_released ==> steer(c, keys).speed == FORWARD_SPEED > 0,
{
}

/// Of two turn keys pressed in successive frames, the later one decides the
/// rotation: pressing left then right leaves the right key's rate, and right
/// then left the left key's rate.
pub proof fn lemma_latest_turn_key_wins(c: Creature, first: KeyEdges, second: KeyEdges)
    requires
        first.turn_pressed_only(),
        second.turn_pressed_only(),
    ensures
        second.right_pressed && !second.left_pressed
            ==> steer(steer(c, first), second).angular_speed == -TURN_SPEED,
        second.left_pressed && !second.right_pressed
            ==> steer(steer(c, first), second).angular_speed == TURN_SPEED,
{
}

} // verus!
