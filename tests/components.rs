use smart_road::{isqrt, snapshot, Car, Heading, Point, Rect, RouteCode, Simulation, Stats, TrafficError, SENTINEL, UNIT};
use uuid::Uuid;

fn car(route: RouteCode, base: i64, id: u128) -> Car {
    let heading = route.entry_heading();
    Car::with_speed(route, heading, base, Uuid::from_u128(id), 0)
}

#[test]
fn parse_route_codes() {
    assert_eq!(RouteCode::parse("RU"), Ok(RouteCode::RU));
    assert_eq!(RouteCode::parse("UL"), Ok(RouteCode::UL));
    assert_eq!(RouteCode::parse("DR"), Ok(RouteCode::DR));
    assert_eq!(RouteCode::parse("XY"), Err(TrafficError::InvalidRouteCode));
    assert_eq!(RouteCode::parse("ru"), Err(TrafficError::InvalidRouteCode));
    assert_eq!(RouteCode::parse(""), Err(TrafficError::InvalidRouteCode));
    assert_eq!(RouteCode::parse("RUL"), Err(TrafficError::InvalidRouteCode));
}

#[test]
fn route_table_entries() {
    assert_eq!(RouteCode::RU.spawn_point(), Point::new(1050 * UNIT, 495 * UNIT));
    assert_eq!(RouteCode::RU.destination(), Point::new(683 * UNIT, 100 * UNIT));
    assert_eq!(RouteCode::LD.spawn_point(), Point::new(150 * UNIT, 695 * UNIT));
    assert_eq!(RouteCode::UR.destination(), Point::new(1057 * UNIT, 607 * UNIT));
    assert_eq!(RouteCode::DL.entry_heading(), Heading::North);
    assert_eq!(RouteCode::UL.entry_heading(), Heading::South);
    assert!(RouteCode::UR.yields_to(RouteCode::DL));
    assert!(RouteCode::DL.yields_to(RouteCode::UR));
    assert!(!RouteCode::LU.yields_to(RouteCode::DL));
    assert!(!RouteCode::RU.negotiates());
    assert!(RouteCode::DU.negotiates());
}

#[test]
fn boxes_that_touch_intersect() {
    let a = Rect::new(0, 0, 10, 10);
    assert!(a.intersects(&Rect::new(10, 0, 5, 5)));
    assert!(!a.intersects(&Rect::new(11, 0, 5, 5)));
    assert!(!a.intersects(&Rect::new(2, 2, -1, 5)));
}

#[test]
fn integer_square_roots() {
    assert_eq!(isqrt(0), 0);
    assert_eq!(isqrt(1), 1);
    assert_eq!(isqrt(15), 3);
    assert_eq!(isqrt(16), 4);
    assert_eq!(isqrt(95000 * 95000), 95000);
    assert_eq!(isqrt(95000 * 95000 - 1), 94999);
}

#[test]
fn a_trip_sets_best_and_worst() {
    let c = car(RouteCode::RL, 100, 1);
    let mut stats = Stats::new();
    assert_eq!(stats.best_time, SENTINEL);
    c.check_for_best_or_worst_time(&mut stats, 10000);
    assert_eq!(stats.best_time, 10000);
    assert_eq!(stats.worst_time, 10000);
    assert_eq!(stats.best_velocity, 9500);
    assert_eq!(stats.worst_velocity, 9500);
    c.check_for_best_or_worst_time(&mut stats, 20000);
    assert_eq!(stats.best_time, 10000);
    assert_eq!(stats.worst_time, 20000);
    assert_eq!(stats.best_velocity, 9500);
    assert_eq!(stats.worst_velocity, 4750);
    assert_eq!(stats.total_cars, 0);
}

#[test]
fn exited_cars_are_counted_and_removed() {
    let mut gone = car(RouteCode::RL, 100, 1);
    gone.car_rect.x = 99 * UNIT;
    gone.close_calls = 1;
    gone.collisions = true;
    let stay = car(RouteCode::DU, 100, 2);
    let mut sim = Simulation::new();
    sim.cars = vec![gone, stay];
    sim.retire_exited(5000);
    assert_eq!(sim.cars.len(), 1);
    assert_eq!(sim.cars[0].uuid, stay.uuid);
    assert_eq!(sim.stats.total_cars, 1);
    assert_eq!(sim.stats.close_calls, 1);
    assert_eq!(sim.stats.collisions, 1);
    assert_eq!(sim.stats.best_time, 5000);
    assert_eq!(sim.statistics_snapshot(), sim.stats);
}

#[test]
fn radar_shrinks_to_the_car_ahead() {
    let mut me = car(RouteCode::RL, 100, 1);
    me.car_rect.x = 800 * UNIT;
    let mut ahead = car(RouteCode::RL, 100, 2);
    ahead.car_rect.x = 750 * UNIT;
    let cars = vec![me, ahead];
    me.update_radar(0, &cars);
    assert_eq!(me.radar.x, 793 * UNIT);
    assert_eq!(me.radar.w, 7 * UNIT);
    me.adjust_current_speed();
    assert_eq!(me.current_speed, 25);
    // Alone, the radar reaches its full length ahead.
    let mut alone = car(RouteCode::UD, 100, 3);
    let solo = vec![alone];
    alone.update_radar(0, &solo);
    assert_eq!(alone.radar, Rect::new(alone.car_rect.x, alone.car_rect.y + 43 * UNIT, 33 * UNIT, 43 * UNIT));
}

#[test]
fn westbound_car_blocked_does_not_move() {
    let mut me = car(RouteCode::RL, 100, 1);
    me.car_rect.x = 800 * UNIT;
    let mut ahead = car(RouteCode::RL, 100, 2);
    ahead.car_rect.x = 800 * UNIT - 43 * UNIT - 50;
    let mut occupied = vec![Some(me.car_rect), Some(ahead.car_rect)];
    let start = me.car_rect;
    me.move_one_step_if_no_collide(0, &mut occupied);
    assert_eq!(me.car_rect, start);
    assert_eq!(occupied[0], Some(start));
    // Eastbound cars move without looking.
    let mut east = car(RouteCode::LR, 100, 3);
    let mut occupied = vec![Some(east.car_rect), Some(east.car_rect)];
    let start = east.car_rect;
    east.move_one_step_if_no_collide(0, &mut occupied);
    assert_eq!(east.car_rect.x, start.x + 100);
    assert_eq!(occupied[0], Some(east.car_rect));
}

#[test]
fn overlapping_cars_are_marked_as_collided() {
    let a = car(RouteCode::RL, 100, 1);
    let mut b = car(RouteCode::RL, 100, 2);
    b.car_rect.x += 10 * UNIT;
    let c = car(RouteCode::UD, 100, 3);
    let mut sim = Simulation::new();
    sim.cars = vec![a, b, c];
    sim.record_collisions();
    assert!(sim.cars[0].collisions);
    assert!(sim.cars[1].collisions);
    assert!(!sim.cars[2].collisions);
}

#[test]
fn random_speeds_and_identifiers() {
    let mut speeds = Vec::new();
    let mut ids = Vec::new();
    for _ in 0..50 {
        let c = Car::new(RouteCode::LR, Heading::East, 0);
        assert!(c.randomized_initial_speed >= 80 && c.randomized_initial_speed < 200);
        assert_eq!(c.randomized_initial_speed % 4, 0);
        assert_eq!(c.current_speed, c.randomized_initial_speed);
        speeds.push(c.randomized_initial_speed);
        ids.push(c.uuid);
    }
    assert!(speeds.iter().any(|s| *s != speeds[0]));
    assert!(ids.iter().all(|i| !i.is_nil()));
    assert!(ids.iter().any(|i| *i != ids[0]));
}

#[test]
fn snapshot_copies_every_car() {
    let cars = vec![car(RouteCode::RU, 100, 1), car(RouteCode::UD, 100, 2)];
    let copy = snapshot(&cars);
    assert_eq!(copy.len(), 2);
    assert_eq!(copy[1].uuid, cars[1].uuid);
}

#[test]
fn bodies_collide_only_when_they_meet() {
    let a = car(RouteCode::RL, 100, 1);
    let mut b = car(RouteCode::RL, 100, 2);
    b.car_rect.x += 43 * UNIT;
    assert!(a.collides_with(&b));
    b.car_rect.x += 1;
    assert!(!a.collides_with(&b));
}

#[test]
fn spawn_radar_lies_ahead_of_the_body() {
    let w = car(RouteCode::RL, 100, 1);
    assert_eq!(w.radar, Rect::new(w.car_rect.x - 43 * UNIT, w.car_rect.y, 43 * UNIT, 33 * UNIT));
    let e = car(RouteCode::LR, 100, 2);
    assert_eq!(e.radar, Rect::new(e.car_rect.x + 43 * UNIT, e.car_rect.y, 43 * UNIT, 33 * UNIT));
    let n = car(RouteCode::DU, 100, 3);
    assert_eq!(n.radar, Rect::new(n.car_rect.x, n.car_rect.y - 43 * UNIT, 33 * UNIT, 43 * UNIT));
    let s = car(RouteCode::UD, 100, 4);
    assert_eq!(s.radar, Rect::new(s.car_rect.x, s.car_rect.y + 43 * UNIT, 33 * UNIT, 43 * UNIT));
    // A fresh vertical car reads a full gap and keeps its free-flow speed.
    let mut n2 = n;
    n2.adjust_current_speed();
    assert_eq!(n2.current_speed, 100);
}

#[test]
fn later_mover_sees_a_blocked_car_that_moved_earlier() {
    // The first car is blocked and stays; its slot keeps its body, so the
    // second westbound car cannot move onto it.
    let mut lead = car(RouteCode::RL, 100, 1);
    lead.car_rect.x = 500 * UNIT;
    let mut wall = car(RouteCode::RL, 100, 2);
    wall.car_rect.x = 500 * UNIT - 43 * UNIT - 50;
    let mut follower = car(RouteCode::RL, 100, 3);
    follower.car_rect.x = 500 * UNIT + 43 * UNIT + 50;
    let mut sim = Simulation::new();
    sim.cars = vec![lead, wall, follower];
    sim.cars[1].waiting_flag = true;
    sim.advance_cars();
    assert_eq!(sim.cars[0].car_rect, lead.car_rect);
    assert_eq!(sim.cars[2].car_rect, follower.car_rect);
}

#[test]
fn northbound_radar_ignores_a_car_in_the_next_lane() {
    let mut du = car(RouteCode::DU, 100, 1);
    du.car_rect.y = 800 * UNIT;
    du.radar = Rect::new(du.car_rect.x - 43 * UNIT, du.car_rect.y, 43 * UNIT, 33 * UNIT);
    let mut dr = car(RouteCode::DR, 100, 2);
    dr.car_rect.y = 760 * UNIT;
    let cars = vec![dr, du];
    du.update_radar(1, &cars);
    assert_eq!(du.radar, Rect::new(du.car_rect.x, du.car_rect.y - 43 * UNIT, 33 * UNIT, 43 * UNIT));
}

#[test]
fn northbound_radar_counts_an_eastbound_radar() {
    let mut du = car(RouteCode::DU, 100, 1);
    du.car_rect.y = 800 * UNIT;
    let mut lu = car(RouteCode::LU, 100, 2);
    lu.car_rect.x = 560 * UNIT;
    lu.car_rect.y = 730 * UNIT;
    lu.radar = Rect::new(lu.car_rect.x + 43 * UNIT, lu.car_rect.y, 43 * UNIT, 33 * UNIT);
    assert!(!lu.car_rect.intersects(&Rect::new(du.car_rect.x, du.car_rect.y - 43 * UNIT, 33 * UNIT, 43 * UNIT)));
    let cars = vec![lu, du];
    du.update_radar(1, &cars);
    assert_eq!(du.radar.y, 763 * UNIT);
    assert_eq!(du.radar.h, 37 * UNIT);
}

#[test]
fn eastbound_radar_never_grows_past_its_reach() {
    let mut me = car(RouteCode::LR, 100, 1);
    me.car_rect.x = 300 * UNIT;
    let mut other = car(RouteCode::LR, 100, 2);
    other.car_rect.x = 400 * UNIT;
    // A radar box reaching back into this car's zone, its body far ahead.
    other.radar = Rect::new(350 * UNIT, other.car_rect.y, 43 * UNIT, 33 * UNIT);
    let cars = vec![me, other];
    me.update_radar(0, &cars);
    assert_eq!(me.radar.w, 43 * UNIT);
    // A radar box in the zone with the body nearer than the reach shrinks it.
    other.car_rect.x = 373 * UNIT;
    let cars = vec![me, other];
    me.update_radar(0, &cars);
    assert_eq!(me.radar.w, 30 * UNIT);
}
