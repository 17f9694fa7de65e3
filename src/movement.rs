use vstd::prelude::*;
use crate::car::Car;
use crate::geometry::Rect;
use crate::laws::{across, progress};
use crate::route::Heading;

verus! {

/// The box `r` meets none of the boxes in `occupied`.
pub open spec fn clear_of(r: Rect, occupied: Seq<Option<Rect>>) -> bool {
    forall|j: int|
        0 <= j < occupied.len() && (#[trigger] occupied[j]) is Some ==> !r.meets(
            occupied[j]->Some_0,
        )
}

/// Westbound and northbound cars check the road before moving; southbound
/// and eastbound cars always move.
pub open spec fn checks_before_moving(h: Heading) -> bool {
    h == Heading::West || h == Heading::North
}

impl Car {
    /// The car moved one tick along its heading at its current speed.
    pub open spec fn advanced(self) -> Car {
        let b = self.car_rect;
        let s = self.current_speed;
        let moved = match self.current_direction {
            Heading::West => Rect { x: (b.x - s) as i64, ..b },
            Heading::North => Rect { y: (b.y - s) as i64, ..b },
            Heading::South => Rect { y: (b.y + s) as i64, ..b },
            Heading::East => Rect { x: (b.x + s) as i64, ..b },
        };
        Car { car_rect: moved, ..self }
    }

    /// One movement of the car at `car_index` against the bodies
    /// `occupied` that the cars before it left: a car that checks moves only
    /// if its moved body is clear of every other entry; a car that does not
    /// check always moves. Either way its entry then holds its final body.
    pub open spec fn moved(self, car_index: int, occupied: Seq<Option<Rect>>) -> (Car, Seq<Option<Rect>>) {
        let rest = occupied.update(car_index, None);
        let next = self.advanced();
        let c = if !checks_before_moving(self.current_direction) || clear_of(next.car_rect, rest) {
            next
        } else {
            self
        };
        (c, occupied.update(car_index, Some(c.car_rect)))
    }

    /// Moves the car one tick along its heading (see `moved`), where
    /// `temp_cars` holds, by index, the bodies that later movers must avoid.
    pub fn move_one_step_if_no_collide(&mut self, car_index: usize, temp_cars: &mut Vec<Option<Rect>>)
        requires
            old(self).wf(),
            !old(self).exited(),
            car_index < old(temp_cars)@.len(),
        ensures
            (*final(self), final(temp_cars)@) == old(self).moved(car_index as int, old(temp_cars)@),
            final(self).wf(),
            *final(self) == (Car { car_rect: final(self).car_rect, ..*old(self) }),
            final(self).car_rect.w == old(self).car_rect.w,
            final(self).car_rect.h == old(self).car_rect.h,
            across(old(self).current_direction, final(self).car_rect) == across(
                old(self).current_direction,
                old(self).car_rect,
            ),
            progress(old(self).current_direction, final(self).car_rect) >= progress(
                old(self).current_direction,
                old(self).car_rect,
            ),
    {
        temp_cars.set(car_index, None);
        let s = self.current_speed;
        let b = self.car_rect;
        let next = match self.current_direction {
            Heading::West => Rect::new(b.x - s, b.y, b.w, b.h),
            Heading::North => Rect::new(b.x, b.y - s, b.w, b.h),
            Heading::South => Rect::new(b.x, b.y + s, b.w, b.h),
            Heading::East => Rect::new(b.x + s, b.y, b.w, b.h),
        };
        match self.current_direction {
            Heading::West | Heading::North => {
                let mut clear = true;
                let mut j: usize = 0;
                while j < temp_cars.len()
                    invariant
                        j <= temp_cars@.len(),
                        clear == (forall|k: int|
                            0 <= k < j && (#[trigger] temp_cars@[k]) is Some ==> !next.meets(
                                temp_cars@[k]->Some_0,
                            )),
                    decreases temp_cars.len() - j,
                {
                    match &temp_cars[j] {
                        Some(r) => {
                            if next.intersects(r) {
                                clear = false;
                            }
                        },
                        None => {},
                    }
                    j += 1;
                }
                if clear {
                    self.car_rect = next;
                }
            },
            _ => {
                self.car_rect = next;
            },
        }
        temp_cars.set(car_index, Some(self.car_rect));
    }
}

} // verus!
