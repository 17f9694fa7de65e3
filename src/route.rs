use vstd::prelude::*;
use crate::geometry::{map_point, Point, UNIT};
use vstd::string::StringSliceAdditionalSpecFns;

verus! {

/// Direction of travel. `North` is up the map (decreasing `y`), `West` is
/// left (decreasing `x`).
#[derive(Clone, Copy, Debug, PartialEq, Eq, Structural)]
pub enum Heading {
    North,
    South,
    East,
    West,
}

impl Heading {
    /// Travel along the vertical axis.
    pub open spec fn is_vertical(self) -> bool {
        self == Heading::North || self == Heading::South
    }

    pub fn vertical(&self) -> (r: bool)
        ensures
            r == self.is_vertical(),
    {
        match self {
            Heading::North | Heading::South => true,
            _ => false,
        }
    }
}

/// A fixed route through the crossing, named by two letters: the edge the
/// car enters from (`R`ight, `D`own, `L`eft, `U`p) and the edge it leaves by.
#[derive(Clone, Copy, Debug, PartialEq, Eq, Structural)]
pub enum RouteCode {
    RU,
    RL,
    RD,
    DU,
    DL,
    DR,
    LU,
    LR,
    LD,
    UD,
    UR,
    UL,
}

/// The two ways a request can fail: a route code outside the twelve defined
/// ones, or a spawn that would overlap a car or exceed the cap.
#[derive(Clone, Copy, Debug, PartialEq, Eq, Structural)]
pub enum TrafficError {
    InvalidRouteCode,
    SpawnRejected,
}

impl RouteCode {
    /// The two ASCII letters that name the route.
    pub open spec fn letters(self) -> Seq<u8> {
        match self {
            RouteCode::RU => seq![82u8, 85u8],
            RouteCode::RL => seq![82u8, 76u8],
            RouteCode::RD => seq![82u8, 68u8],
            RouteCode::DU => seq![68u8, 85u8],
            RouteCode::DL => seq![68u8, 76u8],
            RouteCode::DR => seq![68u8, 82u8],
            RouteCode::LU => seq![76u8, 85u8],
            RouteCode::LR => seq![76u8, 82u8],
            RouteCode::LD => seq![76u8, 68u8],
            RouteCode::UD => seq![85u8, 68u8],
            RouteCode::UR => seq![85u8, 82u8],
            RouteCode::UL => seq![85u8, 76u8],
        }
    }

    /// Reads a route from its two-letter name, such as `"RU"`.
    pub fn parse(code: &str) -> (r: Result<RouteCode, TrafficError>)
        ensures
            match r {
                Ok(c) => c.letters() == code.spec_bytes(),
                Err(e) => e == TrafficError::InvalidRouteCode && forall|c: RouteCode|
                    #[trigger] c.letters() != code.spec_bytes(),
            },
    {
        let b = code.as_bytes();
        if b.len() != 2 {
            proof {
                assert forall|c: RouteCode| #[trigger] c.letters() != code.spec_bytes() by {
                    assert(c.letters().len() == 2);
                }
            }
            return Err(TrafficError::InvalidRouteCode);
        }
        let first = b[0];
        let second = b[1];
        let found: Option<RouteCode> = match (first, second) {
            (82u8, 85u8) => Some(RouteCode::RU),
            (82u8, 76u8) => Some(RouteCode::RL),
            (82u8, 68u8) => Some(RouteCode::RD),
            (68u8, 85u8) => Some(RouteCode::DU),
            (68u8, 76u8) => Some(RouteCode::DL),
            (68u8, 82u8) => Some(RouteCode::DR),
            (76u8, 85u8) => Some(RouteCode::LU),
            (76u8, 82u8) => Some(RouteCode::LR),
            (76u8, 68u8) => Some(RouteCode::LD),
            (85u8, 68u8) => Some(RouteCode::UD),
            (85u8, 82u8) => Some(RouteCode::UR),
            (85u8, 76u8) => Some(RouteCode::UL),
            _ => None,
        };
        match found {
            Some(c) => {
                assert(c.letters() =~= code.spec_bytes());
                Ok(c)
            },
            None => {
                proof {
                    assert forall|c: RouteCode| #[trigger] c.letters() != code.spec_bytes() by {
                        assert(c.letters()[0] != first || c.letters()[1] != second);
                    }
                }
                Err(TrafficError::InvalidRouteCode)
            },
        }
    }

    /// Where a car on this route appears: edge-adjacent, offset into its lane.
    pub open spec fn spawn_of(self) -> Point {
        match self {
            RouteCode::RU => map_point(1050, 495),
            RouteCode::RL => map_point(1050, 535),
            RouteCode::RD => map_point(1050, 574),
            RouteCode::DU => map_point(643, 1050),
            RouteCode::DL => map_point(603, 1050),
            RouteCode::DR => map_point(683, 1050),
            RouteCode::LU => map_point(150, 617),
            RouteCode::LR => map_point(150, 655),
            RouteCode::LD => map_point(150, 695),
            RouteCode::UD => map_point(516, 100),
            RouteCode::UR => map_point(558, 100),
            RouteCode::UL => map_point(477, 100),
        }
    }

    /// Where a car on this route is headed: a point by its exit edge.
    pub open spec fn destination_of(self) -> Point {
        match self {
            RouteCode::RU => map_point(683, 100),
            RouteCode::RL => map_point(100, 535),
            RouteCode::RD => map_point(555, 1050),
            RouteCode::DU => map_point(643, 100),
            RouteCode::DL => map_point(100, 574),
            RouteCode::DR => map_point(1057, 695),
            RouteCode::LU => map_point(593, 100),
            RouteCode::LR => map_point(1057, 655),
            RouteCode::LD => map_point(567, 1050),
            RouteCode::UD => map_point(516, 1050),
            RouteCode::UR => map_point(1057, 607),
            RouteCode::UL => map_point(100, 485),
        }
    }

    /// The heading a car enters with, fixed by the edge it enters from.
    pub open spec fn entry_heading_of(self) -> Heading {
        match self {
            RouteCode::RU | RouteCode::RL | RouteCode::RD => Heading::West,
            RouteCode::DU | RouteCode::DL | RouteCode::DR => Heading::North,
            RouteCode::LU | RouteCode::LR | RouteCode::LD => Heading::East,
            RouteCode::UD | RouteCode::UR | RouteCode::UL => Heading::South,
        }
    }

    /// The heading a car leaves with, fixed by its exit edge.
    pub open spec fn exit_heading_of(self) -> Heading {
        match self {
            RouteCode::DU | RouteCode::RU | RouteCode::LU => Heading::North,
            RouteCode::RL | RouteCode::DL | RouteCode::UL => Heading::West,
            RouteCode::LR | RouteCode::DR | RouteCode::UR => Heading::East,
            RouteCode::UD | RouteCode::RD | RouteCode::LD => Heading::South,
        }
    }

    /// Routes that change heading once inside the crossing.
    pub open spec fn turns(self) -> bool {
        self.entry_heading_of() != self.exit_heading_of()
    }

    /// Spawn and destination points lie on the map.
    pub proof fn lemma_points_on_map(self)
        ensures
            0 <= self.spawn_of().x <= 1100 * UNIT,
            0 <= self.spawn_of().y <= 1100 * UNIT,
            0 <= self.destination_of().x <= 1100 * UNIT,
            0 <= self.destination_of().y <= 1100 * UNIT,
    {
    }

    pub fn spawn_point(&self) -> (r: Point)
        ensures
            r == self.spawn_of(),
    {
        match self {
            RouteCode::RU => Point::new(1050 * UNIT, 495 * UNIT),
            RouteCode::RL => Point::new(1050 * UNIT, 535 * UNIT),
            RouteCode::RD => Point::new(1050 * UNIT, 574 * UNIT),
            RouteCode::DU => Point::new(643 * UNIT, 1050 * UNIT),
            RouteCode::DL => Point::new(603 * UNIT, 1050 * UNIT),
            RouteCode::DR => Point::new(683 * UNIT, 1050 * UNIT),
            RouteCode::LU => Point::new(150 * UNIT, 617 * UNIT),
            RouteCode::LR => Point::new(150 * UNIT, 655 * UNIT),
            RouteCode::LD => Point::new(150 * UNIT, 695 * UNIT),
            RouteCode::UD => Point::new(516 * UNIT, 100 * UNIT),
            RouteCode::UR => Point::new(558 * UNIT, 100 * UNIT),
            RouteCode::UL => Point::new(477 * UNIT, 100 * UNIT),
        }
    }

    pub fn destination(&self) -> (r: Point)
        ensures
            r == self.destination_of(),
    {
        match self {
            RouteCode::RU => Point::new(683 * UNIT, 100 * UNIT),
            RouteCode::RL => Point::new(100 * UNIT, 535 * UNIT),
            RouteCode::RD => Point::new(555 * UNIT, 1050 * UNIT),
            RouteCode::DU => Point::new(643 * UNIT, 100 * UNIT),
            RouteCode::DL => Point::new(100 * UNIT, 574 * UNIT),
            RouteCode::DR => Point::new(1057 * UNIT, 695 * UNIT),
            RouteCode::LU => Point::new(593 * UNIT, 100 * UNIT),
            RouteCode::LR => Point::new(1057 * UNIT, 655 * UNIT),
            RouteCode::LD => Point::new(567 * UNIT, 1050 * UNIT),
            RouteCode::UD => Point::new(516 * UNIT, 1050 * UNIT),
            RouteCode::UR => Point::new(1057 * UNIT, 607 * UNIT),
            RouteCode::UL => Point::new(100 * UNIT, 485 * UNIT),
        }
    }

    pub fn entry_heading(&self) -> (r: Heading)
        ensures
            r == self.entry_heading_of(),
    {
        match self {
            RouteCode::RU | RouteCode::RL | RouteCode::RD => Heading::West,
            RouteCode::DU | RouteCode::DL | RouteCode::DR => Heading::North,
            RouteCode::LU | RouteCode::LR | RouteCode::LD => Heading::East,
            RouteCode::UD | RouteCode::UR | RouteCode::UL => Heading::South,
        }
    }

    /// Routes whose cars negotiate right of way before entering the crossing.
    pub open spec fn negotiates_spec(self) -> bool {
        match self {
            RouteCode::LR | RouteCode::LU | RouteCode::RD | RouteCode::RL => true,
            RouteCode::UR | RouteCode::UD | RouteCode::DL | RouteCode::DU => true,
            _ => false,
        }
    }

    /// The conflict table: a car on route `self` waiting at the crossing
    /// gives way to a car on route `other` that is inside it. The table is
    /// deliberately not symmetric.
    pub open spec fn gives_way_to(self, other: RouteCode) -> bool {
        match self {
            RouteCode::LR => other == RouteCode::LR || other == RouteCode::DL,
            RouteCode::LU => other == RouteCode::LU,
            RouteCode::RD => other == RouteCode::RD,
            RouteCode::RL => other == RouteCode::RL,
            RouteCode::UR => other == RouteCode::UR || other == RouteCode::RL || other
                == RouteCode::DL,
            RouteCode::UD => other == RouteCode::UD || other == RouteCode::RL,
            RouteCode::DL => other == RouteCode::DL || other == RouteCode::UR || other
                == RouteCode::LU,
            RouteCode::DU => other == RouteCode::DU || other == RouteCode::LR,
            _ => false,
        }
    }

    pub fn negotiates(&self) -> (r: bool)
        ensures
            r == self.negotiates_spec(),
    {
        match self {
            RouteCode::LR | RouteCode::LU | RouteCode::RD | RouteCode::RL => true,
            RouteCode::UR | RouteCode::UD | RouteCode::DL | RouteCode::DU => true,
            _ => false,
        }
    }

    pub fn yields_to(&self, other: RouteCode) -> (r: bool)
        ensures
            r == self.gives_way_to(other),
    {
        match self {
            RouteCode::LR => other == RouteCode::LR || other == RouteCode::DL,
            RouteCode::LU => other == RouteCode::LU,
            RouteCode::RD => other == RouteCode::RD,
            RouteCode::RL => other == RouteCode::RL,
            RouteCode::UR => other == RouteCode::UR || other == RouteCode::RL || other
                == RouteCode::DL,
            RouteCode::UD => other == RouteCode::UD || other == RouteCode::RL,
            RouteCode::DL => other == RouteCode::DL || other == RouteCode::UR || other
                == RouteCode::LU,
            RouteCode::DU => other == RouteCode::DU || other == RouteCode::LR,
            _ => false,
        }
    }
}

} // verus!
