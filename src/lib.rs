//! A traffic simulation of autonomous cars crossing a four-way intersection
//! without lights: each car senses the road ahead, governs its own speed,
//! yields at the shared crossing according to fixed right-of-way rules, and
//! turns once from its entry lane into its exit lane.
//!
//! All geometry is in fixed point: one map unit is `UNIT` (one hundred)
//! integer steps, so every position, size and speed is an exact integer.

mod car;
mod geometry;
mod laws;
mod movement;
mod radar;
mod random;
mod right_of_way;
mod route;
mod simulation;
mod stats;
mod step;
mod turn;

pub use car::{Car, Dimensions, BOUND, LONG_EDGE, MAX_SPEED, SHORT_EDGE};
pub use geometry::{Point, Rect, UNIT};
pub use laws::{arrivals_only_tighten, movement_never_reverses, turns_exclude_each_other, tick_turns_once_and_moves_forward, yielding_car_holds_position};
pub use route::{Heading, RouteCode, TrafficError};
pub use simulation::{snapshot, Simulation, MAX_CARS};
pub use stats::{isqrt, Stats, SENTINEL};
