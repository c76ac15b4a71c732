//! One frame of the viewer: gather the renderer's inputs from the playback
//! state and the fixed chart, and render the primitive list.

use vstd::prelude::*;
use crate::app::App;
use crate::lanes::{Lanes, LanesView};
use crate::note::{get_notes, spec_chart};
use crate::shapes::Primitive;

verus! {

/// The renderer input of one frame: the fields the renderer reads from the
/// playback state, the canvas size, and the fixed chart.
pub open spec fn spec_frame_input(app: App, width: u16, height: u16) -> LanesView {
    LanesView {
        lanes_count: app.lanes_count as int,
        time: app.time as int,
        speed_tenths: app.speed_tenths as int,
        width: width as int,
        height: height as int,
        notes: spec_chart(),
    }
}

/// Render one frame of the viewer on a `width` by `height` canvas: the lane
/// separators, the scroll grid and the markers of the notes visible from the
/// cursor, drawn from the fixed chart.
pub fn draw_lanes(app: &App, width: u16, height: u16) -> (r: Vec<Primitive>)
    requires
        app.wf(),
    ensures
        r@ == spec_frame_input(*app, width, height).spec_primitives(),
{
    let notes = get_notes();
    let lanes = Lanes {
        lanes_count: app.lanes_count,
        time: app.time,
        speed_tenths: app.speed_tenths,
        width,
        height,
        notes,
    };
    lanes.draw()
}

} // verus!
