use vstd::prelude::*;
use crate::car::{lane_heading, Car};
use crate::geometry::Rect;
use crate::route::Heading;
use crate::simulation::all_wf;
use crate::turn::checks_turn;
use crate::stats::{elapsed, floor_sqrt, lemma_floor_sqrt_exists, Stats};
use crate::step::{
    advance_all, advance_prefix, govern_all, lemma_retire_kept, lemma_turn_prefix, negotiate_all,
    retire, sense_all, step, turn_all, turn_prefix,
};

verus! {

/// How far along its heading a body is: the coordinate that grows as the
/// car drives forward.
pub open spec fn progress(heading: Heading, r: Rect) -> int {
    match heading {
        Heading::West => -r.x,
        Heading::North => -r.y,
        Heading::South => r.y as int,
        Heading::East => r.x as int,
    }
}

/// The cross-axis coordinate of a body driving along `heading`.
pub open spec fn across(heading: Heading, r: Rect) -> int {
    if heading.is_vertical() {
        r.x as int
    } else {
        r.y as int
    }
}

/// During the movement phase a car changes nothing but its body, and that
/// only by a forward step along its heading of zero or its current speed:
/// its cross-axis coordinate and sides stay, and a waiting car stays put.
proof fn lemma_advance_prefix_forward(cars: Seq<Car>, n: nat, k: int)
    requires
        n <= cars.len(),
        0 <= k < cars.len(),
        all_wf(cars),
        forall|j: int| 0 <= j < cars.len() ==> !(#[trigger] cars[j]).exited(),
    ensures
        k >= n ==> advance_prefix(cars, n).0[k] == cars[k],
        ({
            let a = advance_prefix(cars, n).0[k];
            let c = cars[k];
            &&& a == Car { car_rect: a.car_rect, ..c }
            &&& a.car_rect.w == c.car_rect.w && a.car_rect.h == c.car_rect.h
            &&& across(c.current_direction, a.car_rect) == across(c.current_direction, c.car_rect)
            &&& (progress(c.current_direction, a.car_rect) == progress(c.current_direction, c.car_rect)
                || progress(c.current_direction, a.car_rect) == progress(c.current_direction, c.car_rect)
                + c.current_speed)
            &&& (c.waiting_flag ==> a == c)
        }),
        advance_prefix(cars, n).0.len() == cars.len(),
        advance_prefix(cars, n).1.len() == cars.len(),
    decreases n,
{
    if n > 0 {
        lemma_advance_prefix_forward(cars, (n - 1) as nat, k);
        lemma_advance_prefix_forward(cars, (n - 1) as nat, n - 1);
    }
}

/// A car that is yielding keeps its body through the movement phase.
pub proof fn yielding_car_holds_position(cars: Seq<Car>, i: int)
    requires
        all_wf(cars),
        forall|j: int| 0 <= j < cars.len() ==> !(#[trigger] cars[j]).exited(),
        0 <= i < cars.len(),
        cars[i].waiting_flag,
    ensures
        advance_all(cars).len() == cars.len(),
        advance_all(cars)[i] == cars[i],
{
    lemma_advance_prefix_forward(cars, cars.len(), i);
}

/// The movement phase never moves a car backward: each body moves forward
/// along its heading by zero or its current speed, keeps its sides and stays
/// in its lane, and nothing else about the car changes.
pub proof fn movement_never_reverses(cars: Seq<Car>, i: int)
    requires
        all_wf(cars),
        forall|j: int| 0 <= j < cars.len() ==> !(#[trigger] cars[j]).exited(),
        0 <= i < cars.len(),
    ensures
        advance_all(cars).len() == cars.len(),
        ({
            let a = advance_all(cars)[i];
            let c = cars[i];
            &&& a == Car { car_rect: a.car_rect, ..c }
            &&& across(c.current_direction, a.car_rect) == across(c.current_direction, c.car_rect)
            &&& (progress(c.current_direction, a.car_rect) == progress(c.current_direction, c.car_rect)
                || progress(c.current_direction, a.car_rect) == progress(c.current_direction, c.car_rect)
                + c.current_speed)
        }),
{
    lemma_advance_prefix_forward(cars, cars.len(), i);
}

/// Over one tick, the car at `i` of the cars that stay on the map: has the
/// same identity and route as before; once turned it stays turned; its
/// heading changes exactly when it turns in this tick; and while its heading
/// does not change, its body never moves backward and stays in its lane.
pub proof fn tick_turns_once_and_moves_forward(cars: Seq<Car>, stats: Stats, now: u64, core: Rect, i: int)
    requires
        all_wf(cars),
        0 <= i < retire(cars, stats, now).0.len(),
    ensures
        ({
            let before = retire(cars, stats, now).0[i];
            let after = step(cars, stats, now, core).0[i];
            &&& step(cars, stats, now, core).0.len() == retire(cars, stats, now).0.len()
            &&& after.uuid == before.uuid && after.behavior_code == before.behavior_code
            &&& (before.has_turned ==> after.has_turned)
            &&& (after.current_direction != before.current_direction <==> (!before.has_turned
                && after.has_turned))
            &&& (after.current_direction == before.current_direction ==> {
                &&& progress(before.current_direction, after.car_rect) >= progress(
                    before.current_direction,
                    before.car_rect,
                )
                &&& across(before.current_direction, after.car_rect) == across(
                    before.current_direction,
                    before.car_rect,
                )
            })
        }),
{
    lemma_retire_kept(cars, stats, now);
    let kept = retire(cars, stats, now).0;
    let before = kept[i];
    let n1 = negotiate_all(kept, core);
    let g = govern_all(n1);
    assert forall|j: int| 0 <= j < g.len() implies (#[trigger] g[j]).wf() && !g[j].exited() by {
        assert(kept[j].wf());
        assert(!kept[j].exited());
    }
    assert(g[i] == Car { current_speed: g[i].current_speed, close_calls: g[i].close_calls, waiting_flag: g[i].waiting_flag, ..before });
    assert(g[i].current_speed >= 0) by (nonlinear_arith)
        requires
            g[i].current_speed == (before.randomized_initial_speed as int) * (if before.gap() <= 300 { 0int } else if before.gap() <= (if before.current_direction.is_vertical() { 2000int } else { 3000int }) { 1int } else if before.gap() <= 3900 { 2int } else { 4int }) / 4,
            before.randomized_initial_speed > 0,
    ;
    lemma_advance_prefix_forward(g, g.len(), i);
    let a = advance_all(g);
    let s = sense_all(a);
    assert(s[i] == Car { radar: s[i].radar, ..a[i] });
    lemma_turn_prefix(s, s.len());
    lemma_turn_prefix(s, i as nat);
    let t = turn_all(s);
    assert(t[i] == s[i].turned(i, turn_prefix(s, i as nat)));
    assert(before.current_direction == lane_heading(before.behavior_code, before.has_turned));
}

/// In the turn phase, a car on a checked route that turns moves onto a box
/// that meets neither the body of any car before it, as that car stands
/// after its own attempt, nor the body of any car after it. So of two cars
/// whose post-turn boxes meet, at most one turns in a phase.
pub proof fn turns_exclude_each_other(cars: Seq<Car>, i: int, j: int)
    requires
        0 <= i < j < cars.len(),
        !cars[j].has_turned,
        turn_all(cars)[j].has_turned,
        checks_turn(cars[j].behavior_code),
    ensures
        turn_all(cars)[j].car_rect == cars[j].turn_box(),
        !turn_all(cars)[j].car_rect.meets(turn_all(cars)[i].car_rect),
        forall|k: int| j < k < cars.len() ==> !turn_all(cars)[j].car_rect.meets(#[trigger] cars[k].car_rect),
{
    lemma_turn_prefix(cars, cars.len());
    lemma_turn_prefix(cars, j as nat);
    let cs = turn_prefix(cars, j as nat);
    assert(cs[i] == turn_all(cars)[i]);
    assert(turn_all(cars)[j] == cars[j].turned(j, cs));
    assert(cars[j].clear_to_turn(j, cs));
    assert(!cars[j].turn_blocked_by(cs[i]));
    assert forall|k: int| j < k < cars.len() implies !turn_all(cars)[j].car_rect.meets(#[trigger] cars[k].car_rect) by {
        assert(cs[k] == cars[k]);
        assert(!cars[j].turn_blocked_by(cs[k]));
    }
}

/// Folding an arrival into the totals never lowers a count, and only
/// tightens the best and worst fields.
pub proof fn arrivals_only_tighten(stats: Stats, car: Car, now: u64)
    requires
        car.wf(),
    ensures
        ({
            let s = stats.with_arrival(car, now);
            &&& s.total_cars >= stats.total_cars
            &&& s.close_calls >= stats.close_calls
            &&& s.collisions >= stats.collisions
            &&& s.best_time <= stats.best_time
            &&& s.worst_time >= stats.worst_time
            &&& s.best_velocity >= stats.best_velocity
            &&& s.worst_velocity <= stats.worst_velocity
        }),
{
    car.behavior_code.lemma_points_on_map();
    let dx = car.spawn_point.x - car.dest_point.x;
    let dy = car.spawn_point.y - car.dest_point.y;
    let n = dx * dx + dy * dy;
    assert(0 <= n <= 2 * 110000 * 110000) by (nonlinear_arith)
        requires
            -110000 <= dx <= 110000,
            -110000 <= dy <= 110000,
            n == dx * dx + dy * dy,
    ;
    lemma_floor_sqrt_exists(n as nat);
    let d = floor_sqrt(n as nat) as int;
    assert(d <= 160000) by (nonlinear_arith)
        requires
            0 <= d,
            d * d <= n,
            n <= 2 * 110000 * 110000,
    ;
    let t = elapsed(car.spawn_time, now);
    let m = if t > 0 { t } else { 1 };
    assert(0 <= d * 1000 / m <= d * 1000) by (nonlinear_arith)
        requires
            0 <= d,
            m >= 1,
    ;
}

} // verus!
