use vstd::prelude::*;
use crate::car::Car;
use crate::geometry::Rect;
use crate::route::RouteCode;

verus! {

/// Some car other than the one at `car_index`, on a route that `route` gives
/// way to, has its body inside the footprint `core`.
pub open spec fn priority_inside(route: RouteCode, car_index: int, cars: Seq<Car>, core: Rect) -> bool {
    exists|j: int|
        0 <= j < cars.len() && j != car_index && route.gives_way_to(#[trigger] cars[j].behavior_code)
            && cars[j].car_rect.meets(core)
}

impl Car {
    /// A car that negotiates and whose radar reaches the footprint while its
    /// body is still outside waits exactly when a car it gives way to is
    /// inside. Any other car is left as it is.
    pub open spec fn negotiated(self, car_index: int, cars: Seq<Car>, core: Rect) -> Car {
        if self.behavior_code.negotiates_spec() && self.radar.meets(core) && !self.car_rect.meets(
            core,
        ) {
            Car {
                waiting_flag: priority_inside(self.behavior_code, car_index, cars, core),
                ..self
            }
        } else {
            self
        }
    }

    /// Decides whether the car must yield at the crossing, against the other
    /// cars of `cars` (the car itself stands at `car_index`).
    pub fn communicate_with_intersection(&mut self, car_index: usize, cars_ref: &Vec<Car>, core_intersection: &Rect)
        ensures
            *final(self) == old(self).negotiated(car_index as int, cars_ref@, *core_intersection),
    {
        if self.behavior_code.negotiates() && self.radar.intersects(core_intersection)
            && !self.car_rect.intersects(core_intersection) {
            let mut found = false;
            let mut j: usize = 0;
            while j < cars_ref.len()
                invariant
                    j <= cars_ref.len(),
                    found == exists|k: int|
                        0 <= k < j && k != car_index && self.behavior_code.gives_way_to(
                            #[trigger] cars_ref@[k].behavior_code,
                        ) && cars_ref@[k].car_rect.meets(*core_intersection),
                decreases cars_ref.len() - j,
            {
                let other = &cars_ref[j];
                if j != car_index && self.behavior_code.yields_to(other.behavior_code)
                    && other.car_rect.intersects(core_intersection) {
                    found = true;
                }
                j += 1;
            }
            self.waiting_flag = found;
        }
    }
}

} // verus!
