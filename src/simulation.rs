use vstd::prelude::*;
use uuid::Uuid;
use crate::car::{spawn_body, spawned, Car};
use crate::geometry::{Rect, UNIT};
use crate::route::{Heading, RouteCode, TrafficError};
use crate::stats::Stats;

verus! {

/// Most cars on the map at once.
pub const MAX_CARS: usize = 20;

/// The shared conflict zone at the centre of the map.
pub open spec fn core_footprint() -> Rect {
    Rect { x: (503 * UNIT) as i64, y: (520 * UNIT) as i64, w: (180 * UNIT) as i64, h: (180 * UNIT) as i64 }
}

/// A new body fits: the cap is not reached and no car's body meets it.
pub open spec fn room_for(cars: Seq<Car>, body: Rect) -> bool {
    &&& cars.len() < MAX_CARS
    &&& forall|j: int| 0 <= j < cars.len() ==> !body.meets(#[trigger] cars[j].car_rect)
}

/// Every car satisfies its invariant.
pub open spec fn all_wf(cars: Seq<Car>) -> bool {
    forall|i: int| 0 <= i < cars.len() ==> (#[trigger] cars[i]).wf()
}

/// A copy of the cars, for the phases that read one state while they write
/// the next.
pub fn snapshot(cars: &Vec<Car>) -> (r: Vec<Car>)
    ensures
        r@ == cars@,
{
    let mut r: Vec<Car> = Vec::new();
    let mut i: usize = 0;
    while i < cars.len()
        invariant
            i <= cars@.len(),
            r@ == cars@.subrange(0, i as int),
        decreases cars.len() - i,
    {
        r.push(cars[i]);
        i += 1;
        assert(r@ =~= cars@.subrange(0, i as int));
    }
    assert(r@ =~= cars@);
    r
}

/// The simulation: the cars on the map, the totals over those that have
/// left it, and the footprint of the crossing.
pub struct Simulation {
    pub cars: Vec<Car>,
    pub stats: Stats,
    pub core: Rect,
}

impl Simulation {
    pub open spec fn wf(self) -> bool {
        all_wf(self.cars@)
    }

    /// An empty map with fresh totals.
    pub fn new() -> (r: Simulation)
        ensures
            r.cars@ == Seq::<Car>::empty(),
            r.stats == Stats::new_spec(),
            r.core == core_footprint(),
            r.wf(),
    {
        Simulation {
            cars: Vec::new(),
            stats: Stats::new(),
            core: Rect::new(503 * UNIT, 520 * UNIT, 180 * UNIT, 180 * UNIT),
        }
    }

    /// Spawns a car on `route` at time `now` if its body fits (see
    /// `Car::spawn_if_can`).
    pub fn spawn(&mut self, route: RouteCode, heading: Heading, now: u64) -> (r: Result<Uuid, TrafficError>)
        requires
            old(self).wf(),
            heading == route.entry_heading_of(),
        ensures
            r is Ok <==> room_for(old(self).cars@, spawn_body(route, heading)),
            r is Ok ==> {
                let c = final(self).cars@.last();
                &&& final(self).cars@ == old(self).cars@.push(c)
                &&& c == spawned(route, heading, c.randomized_initial_speed, r->Ok_0, now)
            },
            r is Err ==> r->Err_0 == TrafficError::SpawnRejected && final(self).cars@ == old(self).cars@,
            final(self).stats == old(self).stats,
            final(self).core == old(self).core,
            final(self).wf(),
    {
        let r = Car::spawn_if_can(&mut self.cars, route, heading, now);
        proof {
            if r is Ok {
                let c = self.cars@.last();
                assert forall|i: int| 0 <= i < self.cars@.len() implies (#[trigger] self.cars@[i]).wf() by {
                    if i < old(self).cars@.len() {
                        assert(self.cars@[i] == old(self).cars@[i]);
                    }
                }
            }
        }
        r
    }

    /// The totals, for display.
    pub fn statistics_snapshot(&self) -> (r: Stats)
        ensures
            r == self.stats,
    {
        self.stats
    }
}

impl Car {
    /// Adds `car` to `cars_ref` if there is room for its body (see
    /// `room_for`), returning its identifier; otherwise leaves `cars_ref`
    /// unchanged and rejects the spawn.
    pub fn add_if_room(cars_ref: &mut Vec<Car>, car: Car) -> (r: Result<Uuid, TrafficError>)
        ensures
            r is Ok <==> room_for(old(cars_ref)@, car.car_rect),
            r is Ok ==> r->Ok_0 == car.uuid && final(cars_ref)@ == old(cars_ref)@.push(car),
            r is Err ==> r->Err_0 == TrafficError::SpawnRejected && final(cars_ref)@ == old(cars_ref)@,
    {
        let mut overlap = false;
        let mut j: usize = 0;
        while j < cars_ref.len()
            invariant
                j <= cars_ref@.len(),
                overlap == exists|k: int| 0 <= k < j && car.car_rect.meets(#[trigger] cars_ref@[k].car_rect),
            decreases cars_ref.len() - j,
        {
            if car.car_rect.intersects(&cars_ref[j].car_rect) {
                overlap = true;
            }
            j += 1;
        }
        if !overlap && cars_ref.len() < MAX_CARS {
            let id = car.uuid;
            cars_ref.push(car);
            Ok(id)
        } else {
            Err(TrafficError::SpawnRejected)
        }
    }

    /// Spawns a car on `randomized_behavior` at time `now` if its body fits
    /// (see `add_if_room`); its free-flow speed and identifier are drawn at random.
    pub fn spawn_if_can(cars_ref: &mut Vec<Car>, randomized_behavior: RouteCode, initial_direction: Heading, now: u64) -> (r: Result<Uuid, TrafficError>)
        requires
            initial_direction == randomized_behavior.entry_heading_of(),
        ensures
            r is Ok <==> room_for(old(cars_ref)@, spawn_body(randomized_behavior, initial_direction)),
            r is Ok ==> {
                let c = final(cars_ref)@.last();
                &&& final(cars_ref)@ == old(cars_ref)@.push(c)
                &&& c == spawned(randomized_behavior, initial_direction, c.randomized_initial_speed, r->Ok_0, now)
                &&& 80 <= c.randomized_initial_speed < 200
                &&& c.wf()
            },
            r is Err ==> r->Err_0 == TrafficError::SpawnRejected && final(cars_ref)@ == old(cars_ref)@,
    {
        let car = Car::new(randomized_behavior, initial_direction, now);
        Car::add_if_room(cars_ref, car)
    }
}

} // verus!
