use smart_road::{Car, Heading, RouteCode, Simulation, UNIT};
use uuid::Uuid;

fn car(route: RouteCode, base: i64, id: u128) -> Car {
    let heading = route.entry_heading();
    Car::with_speed(route, heading, base, Uuid::from_u128(id), 0)
}

fn progress(heading: Heading, c: &Car) -> i64 {
    match heading {
        Heading::West => -c.car_rect.x,
        Heading::North => -c.car_rect.y,
        Heading::South => c.car_rect.y,
        Heading::East => c.car_rect.x,
    }
}

fn oriented(c: &Car) -> bool {
    match c.current_direction {
        Heading::North | Heading::South => c.car_rect.w == 33 * UNIT && c.car_rect.h == 43 * UNIT,
        _ => c.car_rect.w == 43 * UNIT && c.car_rect.h == 33 * UNIT,
    }
}

const ROUTES: [RouteCode; 12] = [
    RouteCode::RU,
    RouteCode::RL,
    RouteCode::RD,
    RouteCode::DU,
    RouteCode::DL,
    RouteCode::DR,
    RouteCode::LU,
    RouteCode::LR,
    RouteCode::LD,
    RouteCode::UD,
    RouteCode::UR,
    RouteCode::UL,
];

#[test]
fn spawned_bodies_are_oriented_by_heading() {
    let west = car(RouteCode::RU, 100, 1);
    assert_eq!((west.car_rect.w, west.car_rect.h), (43 * UNIT, 33 * UNIT));
    let north = car(RouteCode::DU, 100, 2);
    assert_eq!((north.car_rect.w, north.car_rect.h), (33 * UNIT, 43 * UNIT));
    let south = car(RouteCode::UD, 100, 3);
    assert_eq!((south.car_rect.w, south.car_rect.h), (33 * UNIT, 43 * UNIT));
    let east = car(RouteCode::LR, 100, 4);
    assert_eq!((east.car_rect.w, east.car_rect.h), (43 * UNIT, 33 * UNIT));
}

#[test]
fn each_route_drives_forward_turns_once_and_arrives() {
    for (k, route) in ROUTES.iter().enumerate() {
        let mut sim = Simulation::new();
        assert!(sim.spawn(*route, route.entry_heading(), 0).is_ok());
        let base = sim.cars[0].randomized_initial_speed;
        let mut turns = 0;
        let mut ticks: u64 = 0;
        while !sim.cars.is_empty() && ticks < 10000 {
            let before = sim.cars[0];
            ticks += 1;
            sim.tick(ticks * 16);
            if sim.cars.is_empty() {
                break;
            }
            let after = sim.cars[0];
            assert!(oriented(&after), "route {}", k);
            let s = after.current_speed * 4;
            assert!(s == 0 || s == base || s == 2 * base || s == 4 * base);
            assert!(!before.has_turned || after.has_turned);
            if after.current_direction != before.current_direction {
                assert!(!before.has_turned && after.has_turned);
                turns += 1;
            } else {
                assert_eq!(before.has_turned, after.has_turned);
                assert!(progress(after.current_direction, &after) >= progress(before.current_direction, &before));
            }
        }
        assert!(sim.cars.is_empty(), "route {} did not arrive", k);
        let expected_turns = if route.entry_heading() == exit_heading(*route) { 0 } else { 1 };
        assert_eq!(turns, expected_turns, "route {}", k);
        assert_eq!(sim.stats.total_cars, 1);
        assert_eq!(sim.stats.best_time, sim.stats.worst_time);
        assert!(sim.stats.best_time > 0);
    }
}

fn exit_heading(route: RouteCode) -> Heading {
    match route {
        RouteCode::DU | RouteCode::RU | RouteCode::LU => Heading::North,
        RouteCode::RL | RouteCode::DL | RouteCode::UL => Heading::West,
        RouteCode::LR | RouteCode::DR | RouteCode::UR => Heading::East,
        _ => Heading::South,
    }
}

#[test]
fn yielding_car_keeps_its_body_in_the_movement_phase() {
    let mut waiting = car(RouteCode::RL, 100, 1);
    waiting.waiting_flag = true;
    let moving = car(RouteCode::DU, 100, 2);
    let mut sim = Simulation::new();
    sim.cars = vec![waiting, moving];
    sim.advance_cars();
    assert_eq!(sim.cars[0].car_rect, waiting.car_rect);
    assert_eq!(sim.cars[1].car_rect.y, moving.car_rect.y - 100);
    assert_eq!(sim.cars[1].car_rect.x, moving.car_rect.x);
}

#[test]
fn busy_crossing_keeps_speeds_on_quarter_steps() {
    let mut sim = Simulation::new();
    let mut now: u64 = 0;
    for t in 0..600u64 {
        now = t * 16;
        if t % 7 == 0 {
            let route = ROUTES[(t as usize / 7) % 12];
            let _ = sim.spawn(route, route.entry_heading(), now);
        }
        sim.tick(now);
        for c in sim.cars.iter() {
            let b = c.randomized_initial_speed;
            let s = c.current_speed * 4;
            assert!(s == 0 || s == b || s == 2 * b || s == 4 * b);
            assert!(oriented(c));
        }
    }
    assert!(now > 0);
}

#[test]
fn turning_happens_once() {
    let mut c = car(RouteCode::RU, 100, 1);
    c.car_rect.x = 683 * UNIT;
    let others: Vec<Car> = vec![c];
    c.turn_if_can(0, &others);
    assert!(c.has_turned);
    assert_eq!(c.current_direction, Heading::North);
    let turned_box = c.car_rect;
    let again: Vec<Car> = vec![c];
    c.turn_if_can(0, &again);
    assert_eq!(c.current_direction, Heading::North);
    assert_eq!(c.car_rect, turned_box);
}
