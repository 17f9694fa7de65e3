use vstd::prelude::*;
use crate::car::Car;
use crate::geometry::{Rect, UNIT};
use crate::radar::abs;
use crate::route::{Heading, RouteCode};

verus! {

/// Routes whose turn waits for a clear box; `LD` and `UL` turn
/// unconditionally.
pub open spec fn checks_turn(route: RouteCode) -> bool {
    !(route == RouteCode::LD || route == RouteCode::UL)
}

impl Car {
    /// The car has reached the line where its route turns.
    pub open spec fn turn_trigger(self) -> bool {
        let b = self.car_rect;
        let d = self.car_size;
        match self.behavior_code {
            RouteCode::RU => b.x <= 683 * UNIT,
            RouteCode::RD => b.x <= 555 * UNIT,
            RouteCode::DR => b.y <= 695 * UNIT,
            RouteCode::DL => b.y <= 574 * UNIT,
            RouteCode::LD => b.x + d.long_edge >= 510 * UNIT,
            RouteCode::LU => b.x + d.delta_edge >= 603 * UNIT,
            RouteCode::UL => b.y + d.long_edge >= 528 * UNIT,
            RouteCode::UR => b.y + d.long_edge >= 650 * UNIT,
            _ => false,
        }
    }

    /// The body the car would have just after its turn: in the exit lane,
    /// with its sides swapped.
    pub open spec fn turn_box(self) -> Rect {
        let b = self.car_rect;
        let d = self.car_size;
        match self.behavior_code {
            RouteCode::RU => Rect { x: (683 * UNIT) as i64, y: (b.y - abs(b.w - b.h)) as i64, w: b.h, h: b.w },
            RouteCode::RD => Rect { x: (555 * UNIT) as i64, y: b.y, w: b.h, h: b.w },
            RouteCode::DR => Rect { x: b.x, y: (695 * UNIT) as i64, w: b.h, h: b.w },
            RouteCode::DL => Rect { x: (b.x - abs(b.h - b.w)) as i64, y: (574 * UNIT) as i64, w: b.h, h: b.w },
            RouteCode::LD => Rect {
                x: (510 * UNIT - (d.long_edge - d.delta_edge)) as i64,
                y: b.y,
                w: d.short_edge,
                h: d.long_edge,
            },
            RouteCode::LU => Rect {
                x: (603 * UNIT) as i64,
                y: (b.y - d.delta_edge) as i64,
                w: d.short_edge,
                h: d.long_edge,
            },
            RouteCode::UL => Rect {
                x: (b.x - d.delta_edge) as i64,
                y: (528 * UNIT - (d.long_edge - d.delta_edge)) as i64,
                w: d.long_edge,
                h: d.short_edge,
            },
            RouteCode::UR => Rect {
                x: b.x,
                y: (650 * UNIT - (d.long_edge - d.delta_edge)) as i64,
                w: d.long_edge,
                h: d.short_edge,
            },
            _ => b,
        }
    }

    /// `other` stands in the way of the turn. Routes `LD` and `UL` turn
    /// unconditionally; `UR` also gives way to the radar box of a car on
    /// `DL`; the others check the bodies only.
    pub open spec fn turn_blocked_by(self, other: Car) -> bool {
        let t = self.turn_box();
        match self.behavior_code {
            RouteCode::LD | RouteCode::UL => false,
            RouteCode::UR => t.meets(other.car_rect) || (t.meets(other.radar) && other.behavior_code
                == RouteCode::DL),
            _ => t.meets(other.car_rect),
        }
    }

    /// No car of `cars` other than the one at `car_index` blocks the turn.
    pub open spec fn clear_to_turn(self, car_index: int, cars: Seq<Car>) -> bool {
        forall|j: int|
            0 <= j < cars.len() && j != car_index ==> !self.turn_blocked_by(#[trigger] cars[j])
    }

    /// The turn state machine: a car that has not turned, on a route that
    /// turns, past its trigger line, turns if the way is clear (new body,
    /// exit heading, no longer waiting) and otherwise waits.
    pub open spec fn turned(self, car_index: int, cars: Seq<Car>) -> Car {
        if !self.has_turned && self.behavior_code.turns() && self.turn_trigger() {
            if self.clear_to_turn(car_index, cars) {
                Car {
                    car_rect: self.turn_box(),
                    current_direction: self.behavior_code.exit_heading_of(),
                    has_turned: true,
                    waiting_flag: false,
                    ..self
                }
            } else {
                Car { waiting_flag: true, ..self }
            }
        } else {
            self
        }
    }

    /// Turns the car into its exit lane when it has reached its trigger line
    /// and the other cars of `temp_cars` (the car itself stands at
    /// `car_index`) leave the way clear; see `turned`.
    pub fn turn_if_can(&mut self, car_index: usize, temp_cars: &Vec<Car>)
        requires
            old(self).wf(),
        ensures
            *final(self) == old(self).turned(car_index as int, temp_cars@),
            final(self).wf(),
    {
        if self.has_turned {
            return;
        }
        let b = self.car_rect;
        let d = self.car_size;
        let route = self.behavior_code;
        let unit = UNIT;
        let (trigger, target, exit) = match route {
            RouteCode::RU => {
                let side = if b.w >= b.h { b.w - b.h } else { b.h - b.w };
                (b.x <= 683 * unit, Rect::new(683 * unit, b.y - side, b.h, b.w), Heading::North)
            },
            RouteCode::RD => (b.x <= 555 * unit, Rect::new(555 * unit, b.y, b.h, b.w), Heading::South),
            RouteCode::DR => (b.y <= 695 * unit, Rect::new(b.x, 695 * unit, b.h, b.w), Heading::East),
            RouteCode::DL => {
                let side = if b.h >= b.w { b.h - b.w } else { b.w - b.h };
                (b.y <= 574 * unit, Rect::new(b.x - side, 574 * unit, b.h, b.w), Heading::West)
            },
            RouteCode::LD => (
                b.x + d.long_edge >= 510 * unit,
                Rect::new(510 * unit - (d.long_edge - d.delta_edge), b.y, d.short_edge, d.long_edge),
                Heading::South,
            ),
            RouteCode::LU => (
                b.x + d.delta_edge >= 603 * unit,
                Rect::new(603 * unit, b.y - d.delta_edge, d.short_edge, d.long_edge),
                Heading::North,
            ),
            RouteCode::UL => (
                b.y + d.long_edge >= 528 * unit,
                Rect::new(b.x - d.delta_edge, 528 * unit - (d.long_edge - d.delta_edge), d.long_edge, d.short_edge),
                Heading::West,
            ),
            RouteCode::UR => (
                b.y + d.long_edge >= 650 * unit,
                Rect::new(b.x, 650 * unit - (d.long_edge - d.delta_edge), d.long_edge, d.short_edge),
                Heading::East,
            ),
            _ => (false, b, self.current_direction),
        };
        if !trigger {
            return;
        }
        assert(target == self.turn_box());
        let checked = match route {
            RouteCode::LD | RouteCode::UL => false,
            _ => true,
        };
        let mut clear = true;
        let mut j: usize = 0;
        while j < temp_cars.len()
            invariant
                j <= temp_cars@.len(),
                target == old(self).turn_box(),
                route == old(self).behavior_code,
                checked == !(route == RouteCode::LD || route == RouteCode::UL),
                clear == (forall|k: int|
                    0 <= k < j && k != car_index ==> !old(self).turn_blocked_by(
                        #[trigger] temp_cars@[k],
                    )),
            decreases temp_cars.len() - j,
        {
            let other = &temp_cars[j];
            if checked && j != car_index {
                let hit = target.intersects(&other.car_rect) || (route == RouteCode::UR
                    && target.intersects(&other.radar) && other.behavior_code == RouteCode::DL);
                if hit {
                    clear = false;
                }
            }
            j += 1;
        }
        if clear {
            self.car_rect = target;
            self.current_direction = exit;
            self.has_turned = true;
            self.waiting_flag = false;
        } else {
            self.waiting_flag = true;
        }
    }
}

} // verus!
