use vstd::prelude::*;
use uuid::Uuid;
use crate::geometry::{map_point, Point, Rect, UNIT};
use crate::random::{fresh_id, random_in};
use crate::route::{Heading, RouteCode};

verus! {

/// Length of a car, and reach of its radar.
pub const LONG_EDGE: i64 = 43 * UNIT;

/// Width of a car, and width of its radar.
pub const SHORT_EDGE: i64 = 33 * UNIT;

/// How far every coordinate of a car's body stays from the origin.
pub const BOUND: i64 = 10000 * UNIT;

/// Largest free-flow speed, in steps per tick.
pub const MAX_SPEED: i64 = 2 * UNIT;

/// The sides of a car or radar box: long, short, and their difference.
#[derive(Clone, Copy, Debug, PartialEq, Eq, Structural)]
pub struct Dimensions {
    pub long_edge: i64,
    pub short_edge: i64,
    pub delta_edge: i64,
}

/// The box sides that every car and radar use.
pub open spec fn standard_dimensions() -> Dimensions {
    Dimensions {
        long_edge: LONG_EDGE,
        short_edge: SHORT_EDGE,
        delta_edge: (LONG_EDGE - SHORT_EDGE) as i64,
    }
}

/// One autonomous car.
#[derive(Clone, Copy, Debug)]
pub struct Car {
    pub uuid: Uuid,
    pub spawn_point: Point,
    /// When the car appeared, in milliseconds on the caller's clock.
    pub spawn_time: u64,
    pub car_rect: Rect,
    pub current_direction: Heading,
    /// Steps per tick, a quarter-multiple of the free-flow speed.
    pub current_speed: i64,
    /// Free-flow speed, drawn once at spawn.
    pub randomized_initial_speed: i64,
    /// The sensed zone ahead of the car.
    pub radar: Rect,
    pub has_turned: bool,
    pub behavior_code: RouteCode,
    /// Set while the car holds position for right of way or a turn.
    pub waiting_flag: bool,
    pub car_size: Dimensions,
    pub radar_size: Dimensions,
    pub dest_point: Point,
    /// One once the car has had a near miss.
    pub close_calls: u8,
    /// Set once the car's body has overlapped another.
    pub collisions: bool,
}

/// The heading a car on `route` has, before or after its turn.
pub open spec fn lane_heading(route: RouteCode, turned: bool) -> Heading {
    if turned {
        route.exit_heading_of()
    } else {
        route.entry_heading_of()
    }
}

/// The fixed cross-axis coordinate of the lane a car on `route` drives in:
/// `x` for a vertical lane, `y` for a horizontal one.
pub open spec fn lane_offset(route: RouteCode, turned: bool) -> int {
    if !turned {
        if route.entry_heading_of().is_vertical() {
            route.spawn_of().x as int
        } else {
            route.spawn_of().y as int
        }
    } else {
        match route {
            RouteCode::RU => 683 * UNIT,
            RouteCode::RD => 555 * UNIT,
            RouteCode::DR => 695 * UNIT,
            RouteCode::DL => 574 * UNIT,
            RouteCode::LD => 477 * UNIT,
            RouteCode::LU => 603 * UNIT,
            RouteCode::UL => 495 * UNIT,
            RouteCode::UR => 617 * UNIT,
            _ => 0,
        }
    }
}

/// A valid free-flow speed: positive, at most `MAX_SPEED`, and a multiple of
/// four so that its quarter and half are exact.
pub open spec fn valid_base_speed(s: int) -> bool {
    0 < s <= MAX_SPEED && s % 4 == 0
}

/// The speed that `quarters` quarters of the free-flow speed `base` make.
pub open spec fn quarter_speed(base: int, quarters: int) -> int {
    base * quarters / 4
}

pub open spec fn within(v: int, bound: int) -> bool {
    -bound <= v <= bound
}

/// The body of a car spawned on `route`: at the spawn point, long edge
/// along `heading`.
pub open spec fn spawn_body(route: RouteCode, heading: Heading) -> Rect {
    let p = route.spawn_of();
    if heading.is_vertical() {
        Rect { x: p.x, y: p.y, w: SHORT_EDGE, h: LONG_EDGE }
    } else {
        Rect { x: p.x, y: p.y, w: LONG_EDGE, h: SHORT_EDGE }
    }
}

/// The full-reach radar box just ahead of `body` along `heading`: next to
/// the body, outside it, long edge along the direction of travel.
pub open spec fn zone_ahead(body: Rect, heading: Heading) -> Rect {
    match heading {
        Heading::West => Rect { x: (body.x - LONG_EDGE) as i64, y: body.y, w: LONG_EDGE, h: SHORT_EDGE },
        Heading::East => Rect { x: (body.x + body.w) as i64, y: body.y, w: LONG_EDGE, h: SHORT_EDGE },
        Heading::North => Rect { x: body.x, y: (body.y - LONG_EDGE) as i64, w: SHORT_EDGE, h: LONG_EDGE },
        Heading::South => Rect { x: body.x, y: (body.y + body.h) as i64, w: SHORT_EDGE, h: LONG_EDGE },
    }
}

/// The radar box just ahead of `body` along `heading` (see `zone_ahead`).
pub fn ahead_of(body: &Rect, heading: Heading) -> (r: Rect)
    requires
        within(body.x as int, BOUND as int),
        within(body.y as int, BOUND as int),
        within(body.w as int, BOUND as int),
        within(body.h as int, BOUND as int),
    ensures
        r == zone_ahead(*body, heading),
{
    match heading {
        Heading::West => Rect::new(body.x - LONG_EDGE, body.y, LONG_EDGE, SHORT_EDGE),
        Heading::East => Rect::new(body.x + body.w, body.y, LONG_EDGE, SHORT_EDGE),
        Heading::North => Rect::new(body.x, body.y - LONG_EDGE, SHORT_EDGE, LONG_EDGE),
        Heading::South => Rect::new(body.x, body.y + body.h, SHORT_EDGE, LONG_EDGE),
    }
}

/// The car as it appears on `route`: at the spawn point, oriented by its
/// heading, at free-flow speed, with its radar box just ahead of its body.
pub open spec fn spawned(route: RouteCode, heading: Heading, base: i64, id: Uuid, now: u64) -> Car {
    let p = route.spawn_of();
    Car {
        uuid: id,
        spawn_point: p,
        spawn_time: now,
        car_rect: spawn_body(route, heading),
        current_direction: heading,
        current_speed: base,
        randomized_initial_speed: base,
        radar: zone_ahead(spawn_body(route, heading), heading),
        has_turned: false,
        behavior_code: route,
        waiting_flag: false,
        car_size: standard_dimensions(),
        radar_size: standard_dimensions(),
        dest_point: route.destination_of(),
        close_calls: 0,
        collisions: false,
    }
}

/// Fraction of the free-flow speed, in quarters, that a gap ahead of `gap`
/// steps allows: stop within three units; a quarter within twenty units
/// (vertical travel) or thirty (horizontal); half within thirty-nine; else
/// full speed.
pub open spec fn quarters_for_gap(vertical: bool, gap: int) -> int {
    if gap <= 3 * UNIT {
        0
    } else if gap <= (if vertical { 20 * UNIT } else { 30 * UNIT }) {
        1
    } else if gap <= 39 * UNIT {
        2
    } else {
        4
    }
}

/// A near miss: a gap that is positive but within three quarters of a unit.
pub open spec fn is_close_call(gap: int) -> bool {
    0 < gap <= 3 * UNIT / 4
}

impl Car {
    /// The car's invariant: standard box sides, a body oriented by its
    /// heading, a speed that is a quarter-step of its free-flow speed, the
    /// lane its route and turn status fix, and coordinates within bounds.
    pub open spec fn wf(self) -> bool {
        let r = self.car_rect;
        let route = self.behavior_code;
        &&& self.car_size == standard_dimensions()
        &&& self.radar_size == standard_dimensions()
        &&& self.orientation_holds()
        &&& self.speed_is_quarter_step()
        &&& (self.has_turned ==> route.turns())
        &&& self.current_direction == lane_heading(route, self.has_turned)
        &&& self.lateral() == lane_offset(route, self.has_turned)
        &&& self.spawn_point == route.spawn_of()
        &&& self.dest_point == route.destination_of()
        &&& within(r.x as int, BOUND as int) && within(r.y as int, BOUND as int)
        &&& within(self.radar.x as int, 4 * BOUND) && within(self.radar.y as int, 4 * BOUND)
        &&& within(self.radar.w as int, 4 * BOUND) && within(self.radar.h as int, 4 * BOUND)
        &&& self.close_calls <= 1
    }

    /// North or south: long edge vertical; east or west: long edge horizontal.
    pub open spec fn orientation_holds(self) -> bool {
        if self.current_direction.is_vertical() {
            self.car_rect.w == SHORT_EDGE && self.car_rect.h == LONG_EDGE
        } else {
            self.car_rect.w == LONG_EDGE && self.car_rect.h == SHORT_EDGE
        }
    }

    /// The speed is none, a quarter, a half or all of the free-flow speed.
    pub open spec fn speed_is_quarter_step(self) -> bool {
        let b = self.randomized_initial_speed as int;
        &&& valid_base_speed(b)
        &&& {
            ||| self.current_speed == 0
            ||| self.current_speed == quarter_speed(b, 1)
            ||| self.current_speed == quarter_speed(b, 2)
            ||| self.current_speed == b
        }
    }

    /// The body's coordinate across its direction of travel.
    pub open spec fn lateral(self) -> int {
        if self.current_direction.is_vertical() {
            self.car_rect.x as int
        } else {
            self.car_rect.y as int
        }
    }

    /// The body has crossed the map edge it drives toward.
    pub open spec fn exited(self) -> bool {
        match self.current_direction {
            Heading::West => self.car_rect.x < 100 * UNIT,
            Heading::North => self.car_rect.y < 100 * UNIT,
            Heading::South => self.car_rect.y > 1050 * UNIT,
            Heading::East => self.car_rect.x + self.car_size.long_edge > 1100 * UNIT,
        }
    }

    /// The gap the radar reports: its extent along the direction of travel.
    pub open spec fn gap(self) -> int {
        if self.current_direction.is_vertical() {
            self.radar.h as int
        } else {
            self.radar.w as int
        }
    }

    /// The car with its speed set from its radar gap, and its close call
    /// marked when the gap is one.
    pub open spec fn governed(self) -> Car {
        Car {
            current_speed: quarter_speed(
                self.randomized_initial_speed as int,
                quarters_for_gap(self.current_direction.is_vertical(), self.gap()),
            ) as i64,
            close_calls: if is_close_call(self.gap()) { 1 } else { self.close_calls },
            ..self
        }
    }

    /// A car on `route` with the given free-flow speed and identifier,
    /// spawned at time `now`.
    pub fn with_speed(route: RouteCode, initial_direction: Heading, base_speed: i64, id: Uuid, now: u64) -> (r: Car)
        requires
            initial_direction == route.entry_heading_of(),
            valid_base_speed(base_speed as int),
        ensures
            r == spawned(route, initial_direction, base_speed, id, now),
            r.orientation_holds(),
            r.current_speed == base_speed,
            r.wf(),
    {
        proof {
            route.lemma_points_on_map();
        }
        let p = route.spawn_point();
        let dims = Dimensions {
            long_edge: LONG_EDGE,
            short_edge: SHORT_EDGE,
            delta_edge: LONG_EDGE - SHORT_EDGE,
        };
        let body = if initial_direction.vertical() {
            Rect::new(p.x, p.y, SHORT_EDGE, LONG_EDGE)
        } else {
            Rect::new(p.x, p.y, LONG_EDGE, SHORT_EDGE)
        };
        Car {
            uuid: id,
            spawn_point: p,
            spawn_time: now,
            car_rect: body,
            current_direction: initial_direction,
            current_speed: base_speed,
            randomized_initial_speed: base_speed,
            radar: ahead_of(&body, initial_direction),
            has_turned: false,
            behavior_code: route,
            waiting_flag: false,
            car_size: dims,
            radar_size: dims,
            dest_point: route.destination(),
            close_calls: 0,
            collisions: false,
        }
    }

    /// A car on `route` spawned at time `now`, with a random identifier and a
    /// random free-flow speed: a multiple of 0.04 units per tick in `[0.8, 2)`.
    pub fn new(randomized_behavior: RouteCode, initial_direction: Heading, now: u64) -> (r: Car)
        requires
            initial_direction == randomized_behavior.entry_heading_of(),
        ensures
            r == spawned(randomized_behavior, initial_direction, r.randomized_initial_speed, r.uuid, now),
            80 <= r.randomized_initial_speed < 200,
            r.current_speed == r.randomized_initial_speed,
            r.orientation_holds(),
            r.wf(),
    {
        let quarter = random_in(20, 50);
        let base = 4 * quarter as i64;
        let id = fresh_id();
        Car::with_speed(randomized_behavior, initial_direction, base, id, now)
    }

    /// Sets the speed from the radar gap (see `quarters_for_gap`), and marks a
    /// close call when the car stops with a gap of at most three quarters of a
    /// unit that is still positive.
    pub fn adjust_current_speed(&mut self)
        requires
            old(self).wf(),
        ensures
            final(self).wf(),
            *final(self) == old(self).governed(),
    {
        let vertical = self.current_direction.vertical();
        let gap = if vertical { self.radar.h } else { self.radar.w };
        let base = self.randomized_initial_speed;
        let slow_limit = if vertical { 20 * UNIT } else { 30 * UNIT };
        if gap <= 3 * UNIT {
            self.current_speed = 0;
            if gap <= 3 * UNIT / 4 && gap > 0 {
                self.close_calls = 1;
            }
        } else if gap <= slow_limit {
            self.current_speed = base / 4;
        } else if gap <= 39 * UNIT {
            self.current_speed = base / 2;
        } else {
            self.current_speed = base;
        }
    }
}

} // verus!
