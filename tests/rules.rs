use life_sim::{
    coordinate_from_sample, integrate_motion, manual_creature_movement, move_creatures,
    random_position, update_energy, Creature, KeyEdges, ENERGY_FULL, ENERGY_THRESHOLD,
    FORWARD_SPEED, TURN_SPEED,
};

fn press_forward() -> KeyEdges {
    KeyEdges { forward_pressed: true, ..KeyEdges::none() }
}

fn release_forward() -> KeyEdges {
    KeyEdges { forward_released: true, ..KeyEdges::none() }
}

fn press_left() -> KeyEdges {
    KeyEdges { left_pressed: true, ..KeyEdges::none() }
}

fn press_right() -> KeyEdges {
    KeyEdges { right_pressed: true, ..KeyEdges::none() }
}

#[test]
fn new_creature_rests_with_full_energy() {
    let c = Creature::new();
    assert_eq!(c.speed, 0);
    assert_eq!(c.angular_speed, 0);
    assert_eq!(c.energy, ENERGY_FULL);
    assert!(c.has_energy);
    assert_eq!(c.reproductivity, 0);
}

#[test]
fn set_energy_clamps_both_ways() {
    let mut c = Creature::new();
    c.set_energy(5 * ENERGY_FULL as i128);
    assert_eq!(c.energy, ENERGY_FULL);
    c.set_energy(-7);
    assert_eq!(c.energy, 0);
    c.set_energy(i128::MIN);
    assert_eq!(c.energy, 0);
    c.set_energy(i128::MAX);
    assert_eq!(c.energy, ENERGY_FULL);
    c.set_energy(123_456);
    assert_eq!(c.energy, 123_456);
}

#[test]
fn set_speed_and_effective_speed() {
    let mut c = Creature::new();
    c.set_speed(-12, 340);
    assert_eq!(c.get_speed(), (-12, 340));
    c.has_energy = false;
    assert_eq!(c.get_only_speed(), 0);
    assert_eq!(c.get_speed(), (0, 340));
    assert_eq!(c.speed, -12);
}

#[test]
fn reproduce_copies_the_record() {
    let mut c = Creature::new();
    c.set_speed(7, 8);
    c.set_energy(42);
    let child = c.reproduce();
    assert_eq!(child, c);
    assert_eq!(child.energy, 42);
}

#[test]
fn resting_prey_regains_energy() {
    let mut c = Creature::new();
    c.set_energy(500_000_000);
    update_energy(&mut c, 16_667);
    assert_eq!(c.energy, 500_000_000 + 200 * 16_667);
    assert!(c.has_energy);
}

#[test]
fn moving_prey_spends_energy() {
    let mut c = Creature::new();
    c.set_speed(FORWARD_SPEED, 0);
    update_energy(&mut c, 10_000);
    assert_eq!(c.energy, ENERGY_FULL - 2_000_000);
    assert!(c.has_energy);
    assert_eq!(c.speed, FORWARD_SPEED);
}

#[test]
fn energy_stays_in_bounds_for_any_elapsed_time() {
    let mut c = Creature::new();
    update_energy(&mut c, u64::MAX);
    assert_eq!(c.energy, ENERGY_FULL);
    c.set_speed(FORWARD_SPEED, TURN_SPEED);
    update_energy(&mut c, u64::MAX);
    assert_eq!(c.energy, 0);
    assert!(!c.has_energy);
}

#[test]
fn zero_elapsed_time_keeps_energy() {
    let mut c = Creature::new();
    c.set_energy(300);
    c.set_speed(FORWARD_SPEED, 0);
    update_energy(&mut c, 0);
    assert_eq!(c.energy, 300);
}

#[test]
fn exhausted_prey_stops_until_threshold_regained() {
    let mut c = Creature::new();
    c.set_speed(FORWARD_SPEED, 0);
    c.set_energy(1_000);
    update_energy(&mut c, 5);
    assert_eq!(c.energy, 0);
    assert!(!c.has_energy);
    // out of energy, the speed no longer counts: the prey rests
    assert_eq!(c.get_only_speed(), 0);
    update_energy(&mut c, 499_999);
    assert_eq!(c.energy, ENERGY_THRESHOLD - 200);
    assert!(!c.has_energy);
    update_energy(&mut c, 1);
    assert_eq!(c.energy, ENERGY_THRESHOLD);
    assert!(c.has_energy);
    assert_eq!(c.get_only_speed(), FORWARD_SPEED);
}

#[test]
fn forward_key_sets_and_clears_speed() {
    let mut c = Creature::new();
    c.set_speed(3, -TURN_SPEED);
    manual_creature_movement(&mut c, &press_forward());
    assert_eq!(c.speed, FORWARD_SPEED);
    assert!(FORWARD_SPEED > 0);
    assert_eq!(c.angular_speed, -TURN_SPEED);
    manual_creature_movement(&mut c, &release_forward());
    assert_eq!(c.speed, 0);
    assert_eq!(c.angular_speed, -TURN_SPEED);
}

#[test]
fn forward_release_wins_in_one_frame() {
    let mut c = Creature::new();
    let keys = KeyEdges { forward_pressed: true, forward_released: true, ..KeyEdges::none() };
    manual_creature_movement(&mut c, &keys);
    assert_eq!(c.speed, 0);
}

#[test]
fn latest_turn_key_wins() {
    let mut c = Creature::new();
    manual_creature_movement(&mut c, &press_left());
    assert_eq!(c.angular_speed, TURN_SPEED);
    manual_creature_movement(&mut c, &press_right());
    assert_eq!(c.angular_speed, -TURN_SPEED);
    manual_creature_movement(&mut c, &press_left());
    assert_eq!(c.angular_speed, TURN_SPEED);
}

#[test]
fn releasing_a_turn_key_stops_rotation() {
    let mut c = Creature::new();
    manual_creature_movement(&mut c, &press_left());
    manual_creature_movement(&mut c, &press_right());
    let keys = KeyEdges { left_released: true, ..KeyEdges::none() };
    manual_creature_movement(&mut c, &keys);
    assert_eq!(c.angular_speed, 0);
    manual_creature_movement(&mut c, &press_right());
    let keys = KeyEdges { right_released: true, ..KeyEdges::none() };
    manual_creature_movement(&mut c, &keys);
    assert_eq!(c.angular_speed, 0);
}

#[test]
fn no_key_edge_changes_nothing() {
    let mut c = Creature::new();
    c.set_speed(FORWARD_SPEED, TURN_SPEED);
    let before = c;
    manual_creature_movement(&mut c, &KeyEdges::none());
    assert_eq!(c, before);
}

#[test]
fn velocity_command_rates_and_exhaustion() {
    let c = Creature::new();
    let cmd = move_creatures(&c);
    assert_eq!(cmd.angular, None);
    assert_eq!(cmd.forward, None);

    let mut c = Creature::new();
    c.set_speed(FORWARD_SPEED, -TURN_SPEED);
    let cmd = move_creatures(&c);
    assert_eq!(cmd.angular, Some(-TURN_SPEED));
    assert_eq!(cmd.forward, Some(FORWARD_SPEED));

    c.has_energy = false;
    let cmd = move_creatures(&c);
    assert_eq!(cmd.angular, Some(-TURN_SPEED));
    assert_eq!(cmd.forward, Some(0));

    let mut c = Creature::new();
    c.has_energy = false;
    let cmd = move_creatures(&c);
    assert_eq!(cmd.angular, None);
    assert_eq!(cmd.forward, Some(0));
}

#[test]
fn exhausted_creature_turns_but_does_not_advance() {
    let mut c = Creature::new();
    c.set_speed(FORWARD_SPEED, TURN_SPEED);
    let step = integrate_motion(&c, 20_000);
    assert_eq!(step.advance, 50 * 20_000);
    assert_eq!(step.rotation, 1000 * 20_000);
    c.has_energy = false;
    let step = integrate_motion(&c, 20_000);
    assert_eq!(step.advance, 0);
    assert_eq!(step.rotation, 1000 * 20_000);
}

#[test]
fn integrate_motion_extremes() {
    let mut c = Creature::new();
    c.set_speed(i64::MIN, i64::MAX);
    let step = integrate_motion(&c, u64::MAX);
    assert_eq!(step.advance, i64::MIN as i128 * u64::MAX as i128);
    assert_eq!(step.rotation, i64::MAX as i128 * u64::MAX as i128);
}

#[test]
fn coordinates_cover_the_field() {
    assert_eq!(coordinate_from_sample(0, 600), -300);
    assert_eq!(coordinate_from_sample(u64::MAX, 600), 299);
    assert_eq!(coordinate_from_sample(1u64 << 63, 600), 0);
    assert_eq!(coordinate_from_sample(1u64 << 62, 600), -150);
    assert_eq!(coordinate_from_sample(12345, 0), 0);
    assert_eq!(coordinate_from_sample(u64::MAX, 7), 3);
}

#[test]
fn random_positions_stay_in_the_field() {
    for _ in 0..200 {
        let (x, y) = random_position(600);
        assert!((-300..300).contains(&x));
        assert!((-300..300).contains(&y));
    }
}
