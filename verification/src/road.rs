use vstd::prelude::*;
use crate::pose::Pose;
use crate::units::magnitude;

verus! {

/// Length of one road tile, in billionths of a unit: 1024 units.
pub const ROAD_PERIOD: i64 = 1_024_000_000_000;

/// The multiple of the road period nearest to `y`; a `y` halfway between two
/// multiples goes to the one farther from zero.
pub open spec fn snapped(y: int) -> int {
    if y >= 0 {
        (y + 512_000_000_000) / 1_024_000_000_000 * 1_024_000_000_000
    } else {
        -((-y + 512_000_000_000) / 1_024_000_000_000 * 1_024_000_000_000)
    }
}

/// The `y` at which the road lies under a car at `car_y`. Every `i64` is less
/// than half a tile away from a whole number of tiles that is an `i64` too.
pub fn snap(car_y: i64) -> (road_y: i64)
    ensures
        road_y == snapped(car_y as int),
{
    let half: i128 = 512_000_000_000;
    let period: u128 = 1_024_000_000_000;
    if car_y >= 0 {
        let tiles: u128 = (car_y as i128 + half) as u128 / period;
        (tiles * period) as i64
    } else {
        let tiles: u128 = (half - car_y as i128) as u128 / period;
        (-((tiles * period) as i128)) as i64
    }
}

/// Slides `road` along `y` to the tile under `car`, leaving the rest of its
/// pose alone.
pub fn road_snap(road: &mut Pose, car: &Pose)
    ensures
        final(road).y == snapped(car.y as int),
        final(road).x == old(road).x,
        final(road).rotation == old(road).rotation,
{
    road.y = snap(car.y);
}

/// `snapped(y)` is a whole number of tiles, lies within half a tile of `y`,
/// and on a tie is the candidate farther from zero. Nothing else is: any
/// whole number of tiles strictly nearer than half a tile is `snapped(y)`.
pub proof fn lemma_snapped_is_nearest(y: int, other: int)
    ensures
        snapped(y) % 1_024_000_000_000 == 0,
        magnitude(snapped(y) - y) <= 512_000_000_000,
        magnitude(snapped(y) - y) == 512_000_000_000 ==> magnitude(snapped(y)) > magnitude(y),
        other % 1_024_000_000_000 == 0 && magnitude(other - y) < 512_000_000_000 ==> other
            == snapped(y),
{
}

} // verus!
