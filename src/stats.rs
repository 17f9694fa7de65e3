use vstd::prelude::*;
use crate::car::Car;
use crate::geometry::Point;

verus! {

/// Running totals over the cars that have left the map.
#[derive(Clone, Copy, Debug, PartialEq, Eq, Structural)]
pub struct Stats {
    pub total_cars: u32,
    /// Shortest transit time, in milliseconds.
    pub best_time: u64,
    /// Longest transit time, in milliseconds.
    pub worst_time: u64,
    /// Highest average velocity, in steps per second.
    pub best_velocity: u64,
    /// Lowest average velocity, in steps per second.
    pub worst_velocity: u64,
    pub close_calls: u32,
    pub collisions: u32,
}

/// The starting value of the minimum fields: larger than any time or
/// velocity that is recorded in practice.
pub const SENTINEL: u64 = 999999999;

/// `r` is the integer square root of `n`.
pub open spec fn is_floor_sqrt(r: int, n: int) -> bool {
    0 <= r && r * r <= n < (r + 1) * (r + 1)
}

/// The integer square root of `n`.
pub open spec fn floor_sqrt(n: nat) -> nat {
    choose|r: nat| is_floor_sqrt(r as int, n as int)
}

proof fn lemma_floor_sqrt_unique(a: int, b: int, n: int)
    requires
        is_floor_sqrt(a, n),
        is_floor_sqrt(b, n),
    ensures
        a == b,
{
    if a < b {
        assert((a + 1) * (a + 1) <= b * b) by (nonlinear_arith)
            requires
                0 <= a,
                a + 1 <= b,
        ;
    } else if b < a {
        assert((b + 1) * (b + 1) <= a * a) by (nonlinear_arith)
            requires
                0 <= b,
                b + 1 <= a,
        ;
    }
}

/// Every natural number has an integer square root.
pub proof fn lemma_floor_sqrt_exists(n: nat)
    ensures
        is_floor_sqrt(floor_sqrt(n) as int, n as int),
    decreases n,
{
    if n == 0 {
        assert(is_floor_sqrt(0, 0));
    } else {
        lemma_floor_sqrt_exists((n - 1) as nat);
        let r = floor_sqrt((n - 1) as nat) as int;
        if (r + 1) * (r + 1) <= n {
            assert((r + 2) * (r + 2) > n) by (nonlinear_arith)
                requires
                    (r + 1) * (r + 1) > n - 1,
                    0 <= r,
            ;
            assert(is_floor_sqrt(r + 1, n as int));
        } else {
            assert(is_floor_sqrt(r, n as int));
        }
    }
}

/// The integer square root of `n`, by bisection.
pub fn isqrt(n: u64) -> (r: u64)
    requires
        n < 0x1_0000_0000_0000,
    ensures
        r == floor_sqrt(n as nat),
        is_floor_sqrt(r as int, n as int),
{
    let mut lo: u64 = 0;
    let mut hi: u64 = 0x100_0000;
    assert(n < hi * hi) by (nonlinear_arith)
        requires
            n < 0x1_0000_0000_0000,
            hi == 0x100_0000,
    ;
    while hi - lo > 1
        invariant
            lo < hi <= 0x100_0000,
            lo * lo <= n < hi * hi,
        decreases hi - lo,
    {
        let mid = lo + (hi - lo) / 2;
        assert(mid * mid <= 0x100_0000 * 0x100_0000) by (nonlinear_arith)
            requires
                mid < 0x100_0000,
        ;
        if mid * mid <= n {
            lo = mid;
        } else {
            hi = mid;
        }
    }
    proof {
        assert(is_floor_sqrt(lo as int, n as int));
        let r = floor_sqrt(n as nat);
        lemma_floor_sqrt_unique(r as int, lo as int, n as int);
    }
    lo
}

/// Straight-line distance from `a` to `b`, rounded down to a whole step.
pub open spec fn distance(a: Point, b: Point) -> nat {
    let dx = a.x - b.x;
    let dy = a.y - b.y;
    floor_sqrt((dx * dx + dy * dy) as nat)
}

/// Milliseconds from `start` to `now`; none if the clock went back.
pub open spec fn elapsed(start: u64, now: u64) -> int {
    if now >= start {
        now - start
    } else {
        0
    }
}

/// Average velocity, in steps per second, of a trip of `dist` steps that took
/// `time` milliseconds; a trip of no measurable time counts as one
/// millisecond.
pub open spec fn velocity(dist: int, time: int) -> int {
    dist * 1000 / (if time > 0 { time } else { 1 })
}

pub open spec fn saturating_inc(v: u32) -> u32 {
    if v < u32::MAX {
        (v + 1) as u32
    } else {
        v
    }
}

impl Stats {
    /// Best and worst time and velocity, tightened by one trip of `time`
    /// milliseconds at `vel` steps per second.
    pub open spec fn timed(self, time: int, vel: int) -> Stats {
        Stats {
            best_time: if time < self.best_time { time as u64 } else { self.best_time },
            worst_time: if time > self.worst_time { time as u64 } else { self.worst_time },
            best_velocity: if vel > self.best_velocity { vel as u64 } else { self.best_velocity },
            worst_velocity: if vel < self.worst_velocity { vel as u64 } else { self.worst_velocity },
            ..self
        }
    }

    /// The totals once `car` has left the map at time `now`: its trip is
    /// timed, the arrival is counted, and so are its close call and its
    /// collision if it had them. Counters saturate at `u32::MAX`.
    pub open spec fn with_arrival(self, car: Car, now: u64) -> Stats {
        let t = elapsed(car.spawn_time, now);
        let s = self.timed(t, velocity(distance(car.spawn_point, car.dest_point) as int, t));
        Stats {
            total_cars: saturating_inc(s.total_cars),
            close_calls: if car.close_calls == 1 { saturating_inc(s.close_calls) } else { s.close_calls },
            collisions: if car.collisions { saturating_inc(s.collisions) } else { s.collisions },
            ..s
        }
    }

    /// Totals with no arrivals: counts at zero, minimum fields at
    /// `SENTINEL`, maximum fields at zero.
    pub open spec fn new_spec() -> Stats {
        Stats {
            total_cars: 0,
            best_time: SENTINEL,
            worst_time: 0,
            best_velocity: 0,
            worst_velocity: SENTINEL,
            close_calls: 0,
            collisions: 0,
        }
    }

    pub fn new() -> (r: Stats)
        ensures
            r == Stats::new_spec(),
    {
        Stats {
            total_cars: 0,
            best_time: SENTINEL,
            worst_time: 0,
            best_velocity: 0,
            worst_velocity: SENTINEL,
            close_calls: 0,
            collisions: 0,
        }
    }
}

impl Car {
    /// Folds this car's trip, ending at time `now`, into the best and worst
    /// time and velocity of `statistics`.
    pub fn check_for_best_or_worst_time(&self, statistics: &mut Stats, now: u64)
        requires
            self.wf(),
        ensures
            *final(statistics) == old(statistics).timed(
                elapsed(self.spawn_time, now),
                velocity(distance(self.spawn_point, self.dest_point) as int, elapsed(self.spawn_time, now)),
            ),
    {
        let time: u64 = if now >= self.spawn_time { now - self.spawn_time } else { 0 };
        proof {
            self.behavior_code.lemma_points_on_map();
        }
        let dx = self.spawn_point.x - self.dest_point.x;
        let dy = self.spawn_point.y - self.dest_point.y;
        assert(0 <= dx * dx <= 200000 * 200000) by (nonlinear_arith)
            requires
                -200000 <= dx <= 200000,
        ;
        assert(0 <= dy * dy <= 200000 * 200000) by (nonlinear_arith)
            requires
                -200000 <= dy <= 200000,
        ;
        let sq = (dx * dx + dy * dy) as u64;
        let dist = isqrt(sq);
        assert(dist <= 400000) by (nonlinear_arith)
            requires
                dist * dist <= sq,
                sq <= 2 * 200000 * 200000,
        ;
        let vel = dist * 1000 / (if time > 0 { time } else { 1 });
        if time < statistics.best_time {
            statistics.best_time = time;
        }
        if time > statistics.worst_time {
            statistics.worst_time = time;
        }
        if vel > statistics.best_velocity {
            statistics.best_velocity = vel;
        }
        if vel < statistics.worst_velocity {
            statistics.worst_velocity = vel;
        }
    }
}

} // verus!
