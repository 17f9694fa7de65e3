use vstd::prelude::*;
use crate::car::Car;
use crate::geometry::Rect;
use crate::simulation::{all_wf, snapshot, Simulation};
use crate::stats::{saturating_inc, Stats};
use crate::route::Heading;
use crate::geometry::UNIT;
use crate::laws::{turns_exclude_each_other, yielding_car_holds_position};
use crate::turn::checks_turn;

verus! {

/// The exit phase over `cars`, in order: a car that has exited is folded
/// into the totals and dropped; the others are kept, in order.
pub open spec fn retire(cars: Seq<Car>, stats: Stats, now: u64) -> (Seq<Car>, Stats)
    decreases cars.len(),
{
    if cars.len() == 0 {
        (seq![], stats)
    } else {
        let (kept, s) = retire(cars.drop_last(), stats, now);
        let c = cars.last();
        if c.exited() {
            (kept, s.with_arrival(c, now))
        } else {
            (kept.push(c), s)
        }
    }
}

/// The right-of-way phase: every car negotiates against the same state.
pub open spec fn negotiate_all(cars: Seq<Car>, core: Rect) -> Seq<Car> {
    Seq::new(cars.len(), |i: int| cars[i].negotiated(i, cars, core))
}

/// The speed phase.
pub open spec fn govern_all(cars: Seq<Car>) -> Seq<Car> {
    Seq::new(cars.len(), |i: int| cars[i].governed())
}

/// Every body, by index, as the movement phase starts.
pub open spec fn initial_occupancy(cars: Seq<Car>) -> Seq<Option<Rect>> {
    Seq::new(cars.len(), |i: int| Some(cars[i].car_rect))
}

/// The movement phase after the first `n` cars: each car that is not
/// waiting moves in turn (see `Car::moved`) against the bodies that the cars
/// before it left.
pub open spec fn advance_prefix(cars: Seq<Car>, n: nat) -> (Seq<Car>, Seq<Option<Rect>>)
    decreases n,
{
    if n == 0 {
        (cars, initial_occupancy(cars))
    } else {
        let (cs, occ) = advance_prefix(cars, (n - 1) as nat);
        let c = cs[n - 1];
        if c.waiting_flag {
            (cs, occ)
        } else {
            let (moved, occ2) = c.moved(n - 1, occ);
            (cs.update(n - 1, moved), occ2)
        }
    }
}

/// The movement phase.
pub open spec fn advance_all(cars: Seq<Car>) -> Seq<Car> {
    advance_prefix(cars, cars.len()).0
}

/// The radar phase: every car senses against the same state.
pub open spec fn sense_all(cars: Seq<Car>) -> Seq<Car> {
    Seq::new(cars.len(), |i: int| cars[i].sensed(i, cars))
}

/// The turn phase after the first `n` cars: each car in turn tries its turn
/// against the cars before it as they stand after their own attempts, and
/// the cars after it as they stood when the phase began.
pub open spec fn turn_prefix(cars: Seq<Car>, n: nat) -> Seq<Car>
    decreases n,
{
    if n == 0 {
        cars
    } else {
        let cs = turn_prefix(cars, (n - 1) as nat);
        cs.update(n - 1, cs[n - 1].turned(n - 1, cs))
    }
}

/// The turn phase.
pub open spec fn turn_all(cars: Seq<Car>) -> Seq<Car> {
    turn_prefix(cars, cars.len())
}

/// The body of the car at `i` meets the body of another car.
pub open spec fn collided(cars: Seq<Car>, i: int) -> bool {
    exists|j: int| 0 <= j < cars.len() && j != i && cars[i].car_rect.meets(#[trigger] cars[j].car_rect)
}

/// The collision phase: a car whose body meets another is marked, for good.
pub open spec fn mark_all(cars: Seq<Car>) -> Seq<Car> {
    Seq::new(
        cars.len(),
        |i: int|
            if collided(cars, i) {
                Car { collisions: true, ..cars[i] }
            } else {
                cars[i]
            },
    )
}

/// One tick: exit, right of way, speed, movement, radar, turns, collisions.
pub open spec fn step(cars: Seq<Car>, stats: Stats, now: u64, core: Rect) -> (Seq<Car>, Stats) {
    let (kept, s) = retire(cars, stats, now);
    (mark_all(turn_all(sense_all(advance_all(govern_all(negotiate_all(kept, core)))))), s)
}

pub proof fn lemma_retire_kept(cars: Seq<Car>, stats: Stats, now: u64)
    requires
        all_wf(cars),
    ensures
        all_wf(retire(cars, stats, now).0),
        forall|k: int|
            0 <= k < retire(cars, stats, now).0.len() ==> !(#[trigger] retire(cars, stats, now).0[k]).exited(),
        retire(cars, stats, now).0.len() <= cars.len(),
    decreases cars.len(),
{
    if cars.len() > 0 {
        lemma_retire_kept(cars.drop_last(), stats, now);
    }
}

pub proof fn lemma_advance_prefix(cars: Seq<Car>, n: nat)
    requires
        n <= cars.len(),
    ensures
        advance_prefix(cars, n).0.len() == cars.len(),
        advance_prefix(cars, n).1.len() == cars.len(),
        forall|k: int| n <= k < cars.len() ==> advance_prefix(cars, n).0[k] == cars[k],
    decreases n,
{
    if n > 0 {
        lemma_advance_prefix(cars, (n - 1) as nat);
    }
}

pub proof fn lemma_turn_prefix(cars: Seq<Car>, n: nat)
    requires
        n <= cars.len(),
    ensures
        turn_prefix(cars, n).len() == cars.len(),
        forall|k: int| n <= k < cars.len() ==> #[trigger] turn_prefix(cars, n)[k] == cars[k],
        forall|k: int|
            0 <= k < n ==> #[trigger] turn_prefix(cars, n)[k] == cars[k].turned(
                k,
                turn_prefix(cars, k as nat),
            ),
    decreases n,
{
    if n > 0 {
        lemma_turn_prefix(cars, (n - 1) as nat);
        let cs = turn_prefix(cars, (n - 1) as nat);
        assert(cs[n - 1] == cars[n - 1]);
        assert forall|k: int| 0 <= k < n implies #[trigger] turn_prefix(cars, n)[k] == cars[k].turned(
            k,
            turn_prefix(cars, k as nat),
        ) by {
            if k < n - 1 {
                assert(turn_prefix(cars, n)[k] == cs[k]);
            }
        }
    }
}

impl Car {
    /// The two bodies meet.
    pub fn collides_with(&self, other: &Car) -> (r: bool)
        ensures
            r == self.car_rect.meets(other.car_rect),
    {
        self.car_rect.intersects(&other.car_rect)
    }

    /// The body has crossed the map edge it drives toward.
    pub fn has_exited(&self) -> (r: bool)
        requires
            self.wf(),
        ensures
            r == self.exited(),
    {
        match self.current_direction {
            Heading::West => self.car_rect.x < 100 * UNIT,
            Heading::North => self.car_rect.y < 100 * UNIT,
            Heading::South => self.car_rect.y > 1050 * UNIT,
            Heading::East => self.car_rect.x + self.car_size.long_edge > 1100 * UNIT,
        }
    }
}

impl Simulation {
    /// Drops the cars that have left the map, folding each into the totals
    /// (see `retire`).
    pub fn retire_exited(&mut self, now: u64)
        requires
            old(self).wf(),
        ensures
            (final(self).cars@, final(self).stats) == retire(old(self).cars@, old(self).stats, now),
            final(self).core == old(self).core,
            final(self).wf(),
    {
        let ghost start = self.cars@;
        let ghost s0 = self.stats;
        let mut kept: Vec<Car> = Vec::new();
        let mut i: usize = 0;
        while i < self.cars.len()
            invariant
                i <= start.len(),
                self.cars@ == start,
                all_wf(start),
                self.core == old(self).core,
                (kept@, self.stats) == retire(start.subrange(0, i as int), s0, now),
            decreases self.cars.len() - i,
        {
            let c = self.cars[i];
            assert(start.subrange(0, i + 1).drop_last() =~= start.subrange(0, i as int));
            assert(start.subrange(0, i + 1).last() == c);
            if c.has_exited() {
                c.check_for_best_or_worst_time(&mut self.stats, now);
                if self.stats.total_cars < u32::MAX {
                    self.stats.total_cars = self.stats.total_cars + 1;
                }
                if c.close_calls == 1 && self.stats.close_calls < u32::MAX {
                    self.stats.close_calls = self.stats.close_calls + 1;
                }
                if c.collisions && self.stats.collisions < u32::MAX {
                    self.stats.collisions = self.stats.collisions + 1;
                }
            } else {
                kept.push(c);
            }
            i += 1;
        }
        assert(start.subrange(0, start.len() as int) =~= start);
        proof {
            lemma_retire_kept(start, s0, now);
        }
        self.cars = kept;
    }

    /// Every car decides whether to yield at the crossing, against the state
    /// at the start of the phase.
    pub fn negotiate_right_of_way(&mut self)
        requires
            old(self).wf(),
        ensures
            final(self).cars@ == negotiate_all(old(self).cars@, old(self).core),
            final(self).stats == old(self).stats,
            final(self).core == old(self).core,
            final(self).wf(),
    {
        let snap = snapshot(&self.cars);
        let core = self.core;
        let n = self.cars.len();
        let mut i: usize = 0;
        while i < n
            invariant
                i <= n,
                n == snap@.len(),
                self.cars@.len() == n,
                all_wf(snap@),
                core == self.core,
                self.stats == old(self).stats,
                self.core == old(self).core,
                forall|k: int| 0 <= k < i ==> self.cars@[k] == snap@[k].negotiated(k, snap@, core),
                forall|k: int| i <= k < n ==> self.cars@[k] == snap@[k],
            decreases n - i,
        {
            let mut c = self.cars[i];
            c.communicate_with_intersection(i, &snap, &core);
            self.cars.set(i, c);
            i += 1;
        }
        assert(self.cars@ =~= negotiate_all(snap@, core));
    }

    /// Every car sets its speed from its radar gap.
    pub fn govern_speeds(&mut self)
        requires
            old(self).wf(),
        ensures
            final(self).cars@ == govern_all(old(self).cars@),
            final(self).stats == old(self).stats,
            final(self).core == old(self).core,
            final(self).wf(),
    {
        let ghost start = self.cars@;
        let n = self.cars.len();
        let mut i: usize = 0;
        while i < n
            invariant
                i <= n,
                n == start.len(),
                self.cars@.len() == n,
                all_wf(start),
                self.stats == old(self).stats,
                self.core == old(self).core,
                forall|k: int| 0 <= k < i ==> self.cars@[k] == start[k].governed(),
                forall|k: int| i <= k < n ==> self.cars@[k] == start[k],
            decreases n - i,
        {
            let mut c = self.cars[i];
            c.adjust_current_speed();
            self.cars.set(i, c);
            i += 1;
        }
        assert(self.cars@ =~= govern_all(start));
    }

    /// Every car that is not waiting moves one tick, in order (see
    /// `advance_prefix`).
    pub fn advance_cars(&mut self)
        requires
            old(self).wf(),
            forall|k: int| 0 <= k < old(self).cars@.len() ==> !(#[trigger] old(self).cars@[k]).exited(),
        ensures
            final(self).cars@ == advance_all(old(self).cars@),
            forall|i: int|
                0 <= i < old(self).cars@.len() && (#[trigger] old(self).cars@[i]).waiting_flag
                    ==> final(self).cars@[i] == old(self).cars@[i],
            final(self).stats == old(self).stats,
            final(self).core == old(self).core,
            final(self).wf(),
    {
        let ghost start = self.cars@;
        let n = self.cars.len();
        let mut occ: Vec<Option<Rect>> = Vec::new();
        let mut i: usize = 0;
        while i < n
            invariant
                i <= n,
                n == start.len(),
                self.cars@ == start,
                occ@ == initial_occupancy(start).subrange(0, i as int),
            decreases n - i,
        {
            occ.push(Some(self.cars[i].car_rect));
            i += 1;
            assert(occ@ =~= initial_occupancy(start).subrange(0, i as int));
        }
        assert(occ@ =~= initial_occupancy(start));
        i = 0;
        while i < n
            invariant
                i <= n,
                n == start.len(),
                all_wf(start),
                forall|k: int| 0 <= k < n ==> !(#[trigger] start[k]).exited(),
                (self.cars@, occ@) == advance_prefix(start, i as nat),
                all_wf(self.cars@),
                self.stats == old(self).stats,
                self.core == old(self).core,
            decreases n - i,
        {
            proof {
                lemma_advance_prefix(start, i as nat);
                assert(self.cars@[i as int] == start[i as int]);
            }
            let c0 = self.cars[i];
            if !c0.waiting_flag {
                let mut c = c0;
                c.move_one_step_if_no_collide(i, &mut occ);
                self.cars.set(i, c);
            }
            i += 1;
        }
        proof {
            assert forall|k: int| 0 <= k < start.len() && (#[trigger] start[k]).waiting_flag implies self.cars@[k] == start[k] by {
                yielding_car_holds_position(start, k);
            }
        }
    }

    /// Every car recomputes its radar box against the state after movement.
    pub fn update_radars(&mut self)
        requires
            old(self).wf(),
        ensures
            final(self).cars@ == sense_all(old(self).cars@),
            final(self).stats == old(self).stats,
            final(self).core == old(self).core,
            final(self).wf(),
    {
        let snap = snapshot(&self.cars);
        let n = self.cars.len();
        let mut i: usize = 0;
        while i < n
            invariant
                i <= n,
                n == snap@.len(),
                self.cars@.len() == n,
                all_wf(snap@),
                self.stats == old(self).stats,
                self.core == old(self).core,
                forall|k: int| 0 <= k < i ==> self.cars@[k] == snap@[k].sensed(k, snap@),
                forall|k: int| 0 <= k < i ==> (#[trigger] self.cars@[k]).wf(),
                forall|k: int| i <= k < n ==> self.cars@[k] == snap@[k],
            decreases n - i,
        {
            let mut c = self.cars[i];
            c.update_radar(i, &snap);
            self.cars.set(i, c);
            i += 1;
        }
        assert(self.cars@ =~= sense_all(snap@));
    }

    /// Every car tries its turn in order (see `turn_prefix`), so a car that
    /// turns onto a box sees the turns committed before it: of two cars on
    /// checked routes that turn in this phase, the later one's new body meets
    /// neither the earlier one's body nor the body of any car after it.
    pub fn turn_cars(&mut self)
        requires
            old(self).wf(),
        ensures
            final(self).cars@ == turn_all(old(self).cars@),
            forall|i: int, j: int|
                0 <= i < j < old(self).cars@.len() && !old(self).cars@[j].has_turned
                    && (#[trigger] final(self).cars@[j]).has_turned && checks_turn(
                    old(self).cars@[j].behavior_code,
                ) ==> !final(self).cars@[j].car_rect.meets(#[trigger] final(self).cars@[i].car_rect),
            final(self).stats == old(self).stats,
            final(self).core == old(self).core,
            final(self).wf(),
    {
        let ghost start = self.cars@;
        let n = self.cars.len();
        let mut i: usize = 0;
        while i < n
            invariant
                i <= n,
                n == start.len(),
                self.cars@ == turn_prefix(start, i as nat),
                all_wf(self.cars@),
                self.stats == old(self).stats,
                self.core == old(self).core,
            decreases n - i,
        {
            proof {
                lemma_turn_prefix(start, i as nat);
            }
            let mut c = self.cars[i];
            c.turn_if_can(i, &self.cars);
            self.cars.set(i, c);
            i += 1;
        }
        proof {
            assert forall|i: int, j: int|
                0 <= i < j < start.len() && !start[j].has_turned
                    && (#[trigger] self.cars@[j]).has_turned && checks_turn(start[j].behavior_code)
                implies !self.cars@[j].car_rect.meets(#[trigger] self.cars@[i].car_rect) by {
                turns_exclude_each_other(start, i, j);
            }
        }
    }

    /// Marks every car whose body meets another's.
    pub fn record_collisions(&mut self)
        requires
            old(self).wf(),
        ensures
            final(self).cars@ == mark_all(old(self).cars@),
            final(self).stats == old(self).stats,
            final(self).core == old(self).core,
            final(self).wf(),
    {
        let ghost start = self.cars@;
        let n = self.cars.len();
        let mut hits: Vec<bool> = Vec::new();
        let mut i: usize = 0;
        while i < n
            invariant
                i <= n,
                n == start.len(),
                self.cars@ == start,
                hits@.len() == i,
                forall|k: int| 0 <= k < i ==> hits@[k] == collided(start, k),
            decreases n - i,
        {
            let mut hit = false;
            let mut j: usize = 0;
            while j < n
                invariant
                    j <= n,
                    i < n,
                    n == start.len(),
                    self.cars@ == start,
                    hit == exists|k: int|
                        0 <= k < j && k != i && start[i as int].car_rect.meets(#[trigger] start[k].car_rect),
                decreases n - j,
            {
                if j != i && self.cars[i].collides_with(&self.cars[j]) {
                    hit = true;
                }
                j += 1;
            }
            hits.push(hit);
            i += 1;
        }
        i = 0;
        while i < n
            invariant
                i <= n,
                n == start.len(),
                self.cars@.len() == n,
                all_wf(start),
                hits@.len() == n,
                forall|k: int| 0 <= k < n ==> hits@[k] == collided(start, k),
                self.stats == old(self).stats,
                self.core == old(self).core,
                forall|k: int| 0 <= k < i ==> self.cars@[k] == mark_all(start)[k],
                forall|k: int| i <= k < n ==> self.cars@[k] == start[k],
            decreases n - i,
        {
            if hits[i] {
                let mut c = self.cars[i];
                c.collisions = true;
                self.cars.set(i, c);
            }
            i += 1;
        }
        assert(self.cars@ =~= mark_all(start));
    }

    /// Advances the simulation by one tick at time `now` (see `step`).
    pub fn tick(&mut self, now: u64)
        requires
            old(self).wf(),
        ensures
            (final(self).cars@, final(self).stats) == step(old(self).cars@, old(self).stats, now, old(self).core),
            final(self).core == old(self).core,
            final(self).wf(),
            forall|i: int|
                0 <= i < final(self).cars@.len() ==> (#[trigger] final(self).cars@[i]).orientation_holds()
                    && final(self).cars@[i].speed_is_quarter_step(),
    {
        self.retire_exited(now);
        proof {
            lemma_retire_kept(old(self).cars@, old(self).stats, now);
        }
        let ghost kept = self.cars@;
        self.negotiate_right_of_way();
        self.govern_speeds();
        assert forall|k: int| 0 <= k < self.cars@.len() implies !(#[trigger] self.cars@[k]).exited() by {
            assert(self.cars@[k].car_rect == kept[k].car_rect);
            assert(!kept[k].exited());
        }
        self.advance_cars();
        self.update_radars();
        self.turn_cars();
        self.record_collisions();
    }
}

} // verus!
