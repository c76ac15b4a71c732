//! The chart model: lanes, notes, and the fixed chart of the session.

use vstd::prelude::*;
use crate::shapes::Color;

verus! {

/// One of the five tracks a note can sit on. The order is fixed: each lane
/// has a stable horizontal slot index and a display colour.
#[derive(Clone, Copy, Debug, PartialEq, Eq, Structural)]
pub enum Lane {
    Green,
    Red,
    Yellow,
    Blue,
    Orange,
}

/// The display colour of a lane.
pub open spec fn spec_lane_color(lane: Lane) -> Color {
    match lane {
        Lane::Green => Color::Green,
        Lane::Red => Color::Red,
        Lane::Yellow => Color::Yellow,
        Lane::Blue => Color::Blue,
        Lane::Orange => Color::Rgb(255, 165, 0),
    }
}

/// The horizontal slot index of a lane, counted from the left.
pub open spec fn spec_lane_slot(lane: Lane) -> int {
    match lane {
        Lane::Green => 0,
        Lane::Red => 1,
        Lane::Yellow => 2,
        Lane::Blue => 3,
        Lane::Orange => 4,
    }
}

impl Lane {
    /// The display colour of this lane.
    pub fn get_color(&self) -> (r: Color)
        ensures
            r == spec_lane_color(*self),
    {
        match self {
            Lane::Green => Color::Green,
            Lane::Red => Color::Red,
            Lane::Yellow => Color::Yellow,
            Lane::Blue => Color::Blue,
            Lane::Orange => Color::Rgb(255, 165, 0),
        }
    }

    /// The horizontal slot index of this lane.
    pub fn get_x(&self) -> (r: u8)
        ensures
            r as int == spec_lane_slot(*self),
    {
        match self {
            Lane::Green => 0,
            Lane::Red => 1,
            Lane::Yellow => 2,
            Lane::Blue => 3,
            Lane::Orange => 4,
        }
    }
}

/// A note of the chart: a lane and the time step at which the note falls.
#[derive(Clone, Copy, Debug, PartialEq, Eq, Structural)]
pub struct Note {
    pub lane: Lane,
    pub time: u32,
}

/// The fixed chart of the session: fifteen notes in ascending time-step
/// order.
pub open spec fn spec_chart() -> Seq<Note> {
    seq![
        Note { lane: Lane::Green, time: 1 },
        Note { lane: Lane::Red, time: 2 },
        Note { lane: Lane::Yellow, time: 3 },
        Note { lane: Lane::Blue, time: 4 },
        Note { lane: Lane::Orange, time: 5 },
        Note { lane: Lane::Orange, time: 6 },
        Note { lane: Lane::Green, time: 7 },
        Note { lane: Lane::Blue, time: 8 },
        Note { lane: Lane::Yellow, time: 9 },
        Note { lane: Lane::Red, time: 10 },
        Note { lane: Lane::Green, time: 11 },
        Note { lane: Lane::Red, time: 12 },
        Note { lane: Lane::Yellow, time: 13 },
        Note { lane: Lane::Blue, time: 14 },
        Note { lane: Lane::Orange, time: 15 },
    ]
}

/// The chart is sorted: time steps strictly ascend along it.
pub proof fn lemma_chart_sorted()
    ensures
        forall|i: int, j: int|
            0 <= i < j < spec_chart().len() ==> spec_chart()[i].time < spec_chart()[j].time,
{
}

/// Build the fixed chart.
pub fn get_notes() -> (r: Vec<Note>)
    ensures
        r@ == spec_chart(),
{
    let r: Vec<Note> = vec![
        Note { lane: Lane::Green, time: 1 },
        Note { lane: Lane::Red, time: 2 },
        Note { lane: Lane::Yellow, time: 3 },
        Note { lane: Lane::Blue, time: 4 },
        Note { lane: Lane::Orange, time: 5 },
        Note { lane: Lane::Orange, time: 6 },
        Note { lane: Lane::Green, time: 7 },
        Note { lane: Lane::Blue, time: 8 },
        Note { lane: Lane::Yellow, time: 9 },
        Note { lane: Lane::Red, time: 10 },
        Note { lane: Lane::Green, time: 11 },
        Note { lane: Lane::Red, time: 12 },
        Note { lane: Lane::Yellow, time: 13 },
        Note { lane: Lane::Blue, time: 14 },
        Note { lane: Lane::Orange, time: 15 },
    ];
    assert(r@ =~= spec_chart());
    r
}

} // verus!
