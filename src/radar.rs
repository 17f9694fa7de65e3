use vstd::prelude::*;
use crate::car::{ahead_of, within, zone_ahead, Car, BOUND, LONG_EDGE, SHORT_EDGE};
use crate::geometry::Rect;
use crate::route::Heading;

verus! {

pub open spec fn abs(v: int) -> int {
    if v < 0 { -v } else { v }
}

/// Every coordinate of a radar box stays within four times `BOUND`.
pub open spec fn radar_in_bounds(r: Rect) -> bool {
    &&& within(r.x as int, 4 * BOUND)
    &&& within(r.y as int, 4 * BOUND)
    &&& within(r.w as int, 4 * BOUND)
    &&& within(r.h as int, 4 * BOUND)
}

/// The radar box before other cars are considered: the full-reach box just
/// ahead of the body.
pub open spec fn radar_start(car: Car) -> Rect {
    zone_ahead(car.car_rect, car.current_direction)
}

/// The smaller of two extents.
pub open spec fn least(a: int, b: int) -> int {
    if a <= b { a } else { b }
}

/// Distance from `a` to `b`, capped at the radar's reach.
pub open spec fn capped_distance(a: int, b: int) -> int {
    if abs(a - b) <= LONG_EDGE {
        abs(a - b)
    } else {
        LONG_EDGE as int
    }
}

/// One step of the scan: the radar box `radar` of `car` (which stands at
/// `car_index`) after looking at `other`, which stands at `j`. The box only
/// ever shrinks.
/// - Westbound and northbound, the far edge is pulled back to the near edge
///   of a car in the box, and the extent is the distance to that edge, at
///   most the reach. Northbound, the radar box of an east- or westbound car
///   that meets the zone counts as an obstruction too.
/// - Southbound and eastbound, the extent shrinks to the gap to a car in the
///   box. Eastbound, the gap to a car whose radar box (not body) is in the
///   zone, is not northbound and is clear of this body counts too.
pub open spec fn radar_step(car: Car, car_index: int, j: int, other: Car, radar: Rect) -> Rect {
    let b = car.car_rect;
    let o = other.car_rect;
    let seen = j != car_index && radar.meets(o);
    match car.current_direction {
        Heading::West => {
            let x = if seen { (o.x + o.w) as i64 } else { radar.x };
            Rect { x, w: capped_distance(b.x as int, x as int) as i64, ..radar }
        },
        Heading::North => {
            let crossing = j != car_index && !other.current_direction.is_vertical() && radar.meets(
                other.radar,
            );
            let y = if seen || crossing { (o.y + o.h) as i64 } else { radar.y };
            Rect { y, h: capped_distance(b.y as int, y as int) as i64, w: SHORT_EDGE, ..radar }
        },
        Heading::South => {
            if seen {
                Rect { h: least(radar.h as int, o.y - (b.y + LONG_EDGE)) as i64, ..radar }
            } else {
                radar
            }
        },
        Heading::East => {
            let gap = o.x - (b.x + b.w);
            let first = if seen { Rect { w: least(radar.w as int, gap) as i64, ..radar } } else { radar };
            if j != car_index && first.meets(other.radar) && !b.meets(other.radar)
                && other.current_direction != Heading::North {
                Rect { w: least(first.w as int, gap) as i64, ..first }
            } else {
                first
            }
        },
    }
}

/// The radar box after the scan has looked at the first `n` cars of `cars`.
pub open spec fn radar_scan(car: Car, car_index: int, cars: Seq<Car>, n: nat) -> Rect
    decreases n,
{
    if n == 0 {
        radar_start(car)
    } else {
        radar_step(car, car_index, n - 1, cars[n - 1], radar_scan(car, car_index, cars, (n - 1) as nat))
    }
}

/// The radar's extent along the direction of travel is at most the reach.
pub open spec fn within_reach(car: Car, radar: Rect) -> bool {
    if car.current_direction.is_vertical() {
        radar.h <= LONG_EDGE
    } else {
        radar.w <= LONG_EDGE
    }
}

proof fn lemma_radar_step_bounded(car: Car, car_index: int, j: int, other: Car, radar: Rect)
    requires
        car.wf(),
        other.wf(),
        radar_in_bounds(radar),
        within_reach(car, radar),
    ensures
        radar_in_bounds(radar_step(car, car_index, j, other, radar)),
        within_reach(car, radar_step(car, car_index, j, other, radar)),
{
}

impl Car {
    /// The car with its radar box recomputed against `cars`.
    pub open spec fn sensed(self, car_index: int, cars: Seq<Car>) -> Car {
        Car { radar: radar_scan(self, car_index, cars, cars.len()), ..self }
    }

    /// Recomputes the radar box: a box ahead of the car, shrunk to the
    /// nearest obstruction among the other cars of `temp_cars` (the car
    /// itself stands at `car_index`), scanned in order.
    pub fn update_radar(&mut self, car_index: usize, temp_cars: &Vec<Car>)
        requires
            old(self).wf(),
            forall|k: int| 0 <= k < temp_cars@.len() ==> (#[trigger] temp_cars@[k]).wf(),
        ensures
            *final(self) == old(self).sensed(car_index as int, temp_cars@),
            final(self).wf(),
            final(self).gap() <= LONG_EDGE,
            (old(self).current_direction == Heading::West || old(self).current_direction
                == Heading::North) ==> final(self).gap() >= 0,
    {
        let b = self.car_rect;
        self.radar = ahead_of(&b, self.current_direction);
        let ghost start = *old(self);
        let mut j: usize = 0;
        while j < temp_cars.len()
            invariant
                j <= temp_cars@.len(),
                start.wf(),
                b == start.car_rect,
                forall|k: int| 0 <= k < temp_cars@.len() ==> (#[trigger] temp_cars@[k]).wf(),
                *self == (Car { radar: radar_scan(start, car_index as int, temp_cars@, j as nat), ..start }),
                radar_in_bounds(self.radar),
                within_reach(start, self.radar),
            decreases temp_cars.len() - j,
        {
            let other = &temp_cars[j];
            let o = other.car_rect;
            let seen = j != car_index && self.radar.intersects(&o);
            proof {
                lemma_radar_step_bounded(start, car_index as int, j as int, *other, self.radar);
            }
            match self.current_direction {
                Heading::West => {
                    if seen {
                        self.radar.x = o.x + o.w;
                    }
                    let d = b.x - self.radar.x;
                    let d = if d < 0 { -d } else { d };
                    self.radar.w = if d <= LONG_EDGE { d } else { LONG_EDGE };
                },
                Heading::North => {
                    let crossing = j != car_index && !other.current_direction.vertical()
                        && self.radar.intersects(&other.radar);
                    if seen || crossing {
                        self.radar.y = o.y + o.h;
                    }
                    let d = b.y - self.radar.y;
                    let d = if d < 0 { -d } else { d };
                    self.radar.h = if d <= LONG_EDGE { d } else { LONG_EDGE };
                    self.radar.w = SHORT_EDGE;
                },
                Heading::South => {
                    let gap = o.y - (b.y + LONG_EDGE);
                    if seen && gap < self.radar.h {
                        self.radar.h = gap;
                    }
                },
                Heading::East => {
                    let gap = o.x - (b.x + b.w);
                    if seen && gap < self.radar.w {
                        self.radar.w = gap;
                    }
                    if j != car_index && self.radar.intersects(&other.radar)
                        && !b.intersects(&other.radar) && other.current_direction != Heading::North
                        && gap < self.radar.w {
                        self.radar.w = gap;
                    }
                },
            }
            j += 1;
        }
    }
}

} // verus!
