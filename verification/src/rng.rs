use vstd::prelude::*;

verus! {

/// Relies on rand::random: an independent uniform draw from the whole value
/// range of the type. Nothing can be promised of a single random value, so
/// this specification has no `ensures`; every caller states what holds of
/// every possible outcome.
pub assume_specification<T>[ rand::random::<T> ]() -> (r: T)
    where
        rand::distributions::Standard: rand::distributions::Distribution<T>,
;

/// One uniform draw over all of `u32`. Every derived quantity (offsets,
/// radii, palette indices, color channels) is computed from such draws by
/// verified fixed-point arithmetic.
pub fn draw_u32() -> u32 {
    rand::random::<u32>()
}

} // verus!
