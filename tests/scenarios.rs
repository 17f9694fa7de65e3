use smart_road::{Car, Heading, Rect, RouteCode, Simulation, TrafficError, MAX_CARS, UNIT};
use uuid::Uuid;

fn car(route: RouteCode, base: i64, id: u128) -> Car {
    let heading = route.entry_heading();
    Car::with_speed(route, heading, base, Uuid::from_u128(id), 0)
}

fn sim_with(cars: Vec<Car>) -> Simulation {
    let mut sim = Simulation::new();
    sim.cars = cars;
    sim
}

#[test]
fn two_right_up_cars_at_the_trigger_only_one_turns() {
    let mut first = car(RouteCode::RU, 100, 1);
    first.car_rect.x = 683 * UNIT;
    let mut second = car(RouteCode::RU, 100, 2);
    second.car_rect.x = 683 * UNIT - 44 * UNIT;
    let mut sim = sim_with(vec![first, second]);
    sim.turn_cars();
    let a = sim.cars[0];
    let b = sim.cars[1];
    assert!(a.has_turned);
    assert_eq!(a.current_direction, Heading::North);
    assert!(!a.waiting_flag);
    assert_eq!(a.car_rect, Rect::new(683 * UNIT, 485 * UNIT, 33 * UNIT, 43 * UNIT));
    assert!(!b.has_turned);
    assert_eq!(b.current_direction, Heading::West);
    assert!(b.waiting_flag);
    assert_eq!(b.car_rect, second.car_rect);
}

#[test]
fn close_gap_stops_and_records_a_close_call() {
    let mut c = car(RouteCode::RL, 100, 1);
    c.radar.w = UNIT / 2;
    c.adjust_current_speed();
    assert_eq!(c.current_speed, 0);
    assert_eq!(c.close_calls, 1);
}

#[test]
fn gap_of_twenty_five_units_runs_at_a_quarter_eastbound() {
    let mut c = car(RouteCode::LR, 100, 1);
    c.radar.w = 25 * UNIT;
    c.adjust_current_speed();
    assert_eq!(c.current_speed, 25);
    assert_eq!(c.close_calls, 0);
}

#[test]
fn speed_staircase_by_axis() {
    // Vertical travel: a quarter up to twenty units, half up to thirty-nine.
    let mut v = car(RouteCode::DU, 100, 1);
    v.radar.h = 25 * UNIT;
    v.adjust_current_speed();
    assert_eq!(v.current_speed, 50);
    v.radar.h = 20 * UNIT;
    v.adjust_current_speed();
    assert_eq!(v.current_speed, 25);
    v.radar.h = 40 * UNIT;
    v.adjust_current_speed();
    assert_eq!(v.current_speed, 100);
    v.radar.h = 3 * UNIT;
    v.adjust_current_speed();
    assert_eq!(v.current_speed, 0);
    assert_eq!(v.close_calls, 0);
    // Horizontal travel: a quarter up to thirty units.
    let mut h = car(RouteCode::RL, 100, 2);
    h.radar.w = 30 * UNIT;
    h.adjust_current_speed();
    assert_eq!(h.current_speed, 25);
    h.radar.w = 39 * UNIT;
    h.adjust_current_speed();
    assert_eq!(h.current_speed, 50);
    h.radar.w = 0;
    h.adjust_current_speed();
    assert_eq!(h.current_speed, 0);
    assert_eq!(h.close_calls, 0);
}

#[test]
fn up_right_yields_to_down_left_inside_the_footprint() {
    let mut dl = car(RouteCode::DL, 100, 1);
    dl.car_rect.y = 600 * UNIT;
    let mut ur = car(RouteCode::UR, 100, 2);
    ur.car_rect.y = 470 * UNIT;
    ur.radar = Rect::new(ur.car_rect.x, ur.car_rect.y + 43 * UNIT, 33 * UNIT, 43 * UNIT);
    assert!(!dl.car_rect.intersects(&ur.car_rect));
    let mut sim = sim_with(vec![dl, ur]);
    let core = sim.core;
    assert!(dl.car_rect.intersects(&core));
    assert!(!ur.car_rect.intersects(&core));
    sim.negotiate_right_of_way();
    assert!(sim.cars[1].waiting_flag);
    // With the footprint empty the same car goes on.
    let mut sim = sim_with(vec![ur]);
    sim.cars[0].waiting_flag = true;
    sim.negotiate_right_of_way();
    assert!(!sim.cars[0].waiting_flag);
}

#[test]
fn twenty_first_spawn_is_rejected() {
    let mut cars: Vec<Car> = Vec::new();
    for k in 0..(MAX_CARS as i64) {
        let mut c = car(RouteCode::LR, 100, k as u128);
        c.car_rect.x = -1000 * UNIT - k * 50 * UNIT;
        cars.push(c);
    }
    let r = Car::spawn_if_can(&mut cars, RouteCode::RU, Heading::West, 0);
    assert_eq!(r, Err(TrafficError::SpawnRejected));
    assert_eq!(cars.len(), MAX_CARS);
    cars.pop();
    let r = Car::spawn_if_can(&mut cars, RouteCode::RU, Heading::West, 0);
    assert!(r.is_ok());
    assert_eq!(cars.len(), MAX_CARS);
    assert_eq!(Ok(cars[MAX_CARS - 1].uuid), r);
}

#[test]
fn overlapping_spawn_is_rejected() {
    let mut sim = Simulation::new();
    assert!(sim.spawn(RouteCode::RU, Heading::West, 0).is_ok());
    assert_eq!(sim.spawn(RouteCode::RU, Heading::West, 0), Err(TrafficError::SpawnRejected));
    // The neighbouring lane starts forty units lower, clear of the first body.
    assert!(sim.spawn(RouteCode::RL, Heading::West, 0).is_ok());
    assert!(sim.spawn(RouteCode::DU, Heading::North, 0).is_ok());
    assert_eq!(sim.cars.len(), 3);
}

#[test]
fn two_right_up_cars_past_the_line_never_share_a_box() {
    let mut first = car(RouteCode::RU, 100, 1);
    first.car_rect.x = 600 * UNIT;
    let mut second = car(RouteCode::RU, 100, 2);
    second.car_rect.x = 550 * UNIT;
    let mut sim = sim_with(vec![first, second]);
    sim.turn_cars();
    assert!(sim.cars[0].has_turned);
    assert!(!sim.cars[1].has_turned);
    assert!(sim.cars[1].waiting_flag);
    assert_eq!(sim.cars[1].car_rect, second.car_rect);
    assert!(!sim.cars[0].car_rect.intersects(&sim.cars[1].car_rect));
}
