use vstd::prelude::*;

verus! {

/// Relies on rand::random (rand 0.8): a value drawn from the thread-local
/// generator. Nothing is promised of which value comes.
pub assume_specification<T>[ rand::random::<T> ]() -> (r: T)
    where
        rand::distributions::Standard: rand::distributions::Distribution<T>,
;

/// 2^64: the number of values a `u64` sample can take.
pub const SAMPLE_RANGE: u128 = 0x1_0000_0000_0000_0000;

/// The coordinate that a uniform sample picks on a side of `field_size` pixels
/// centred on the origin: the sample read as a fraction in `[0, 1)` of the side,
/// shifted down by half the side.
pub open spec fn coordinate_of(sample: u64, field_size: u64) -> int {
    (sample as int * field_size as int) / (SAMPLE_RANGE as int) - (field_size as int) / 2
}

/// The coordinate that `sample` picks on a side of `field_size` pixels.
pub fn coordinate_from_sample(sample: u64, field_size: u64) -> (r: i64)
    requires
        field_size <= i64::MAX,
    ensures
        r == coordinate_of(sample, field_size),
        -(field_size as int) / 2 <= r,
        field_size > 0 ==> r < field_size - (field_size as int) / 2,
{
    let a: u128 = sample as u128;
    let b: u128 = field_size as u128;
    assert(a * b <= 0xffff_ffff_ffff_ffffu128 * 0x7fff_ffff_ffff_ffffu128) by (nonlinear_arith)
        requires
            a <= 0xffff_ffff_ffff_ffffu128,
            b <= 0x7fff_ffff_ffff_ffffu128;
    let p: u128 = a * b;
    let q: u128 = p / SAMPLE_RANGE;
    assert(q <= field_size && (field_size > 0 ==> q < field_size)) by (nonlinear_arith)
        requires
            q == p / SAMPLE_RANGE,
            p == sample as u128 * field_size as u128,
            sample < SAMPLE_RANGE,
            SAMPLE_RANGE == 0x1_0000_0000_0000_0000u128;
    q as i64 - (field_size / 2) as i64
}

/// A random spawn position in a square field of `field_size` pixels centred on the
/// origin.
pub fn random_position(field_size: u64) -> (r: (i64, i64))
    requires
        field_size <= i64::MAX,
    ensures
        -(field_size as int) / 2 <= r.0,
        -(field_size as int) / 2 <= r.1,
        field_size > 0 ==> r.0 < field_size - (field_size as int) / 2,
        field_size > 0 ==> r.1 < field_size - (field_size as int) / 2,
        exists|sx: u64, sy: u64|
            r.0 == coordinate_of(sx, field_size) && r.1 == coordinate_of(sy, field_size),
{
    let sx: u64 = rand::random::<u64>();
    let sy: u64 = rand::random::<u64>();
    let x: i64 = coordinate_from_sample(sx, field_size);
    let y: i64 = coordinate_from_sample(sy, field_size);
    assert(x == coordinate_of(sx, field_size) && y == coordinate_of(sy, field_size));
    (x, y)
}

} // verus!
