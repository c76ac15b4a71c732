use lanechart::app::App;
use lanechart::draw::draw_lanes;
use lanechart::lanes::Lanes;
use lanechart::note::{get_notes, Lane, Note};
use lanechart::shapes::{Color, Primitive, SCALE};

fn lanes(lanes_count: i32, time: u32, speed_tenths: u8, width: u16, height: u16, notes: Vec<Note>) -> Lanes {
    Lanes { lanes_count, time, speed_tenths, width, height, notes }
}

#[test]
fn separator_layer_has_five_lines_at_exact_positions() {
    // 4 lanes, speed 1.0, 100 x 40 canvas, cursor 0: lane_note_x is 25,
    // so the separators sit at x = 25, 35, 45, 55, 65 (all times SCALE).
    let l = lanes(4, 0, 10, 100, 40, get_notes());
    let seps = l.separator_lines();
    assert_eq!(seps.len(), 5);
    for (i, line) in seps.iter().enumerate() {
        let x = 25 * SCALE + (i as i128) * 10 * SCALE;
        assert_eq!(line.x1, x);
        assert_eq!(line.x2, x);
        assert_eq!(line.y1, SCALE);
        assert_eq!(line.y2, 40 * SCALE);
        assert_eq!(line.color, Color::White);
    }
}

#[test]
fn separator_layer_has_six_lines_with_five_lanes() {
    let l = lanes(5, 0, 10, 100, 40, get_notes());
    let seps = l.separator_lines();
    assert_eq!(seps.len(), 6);
    // lane_note_x is 20 with 5 lanes.
    assert_eq!(seps[0].x1, 20 * SCALE);
    assert_eq!(seps[5].x1, 20 * SCALE + 5 * 10 * SCALE);
}

#[test]
fn fifth_lane_note_hidden_with_four_lanes_shown_with_five() {
    let orange = vec![Note { lane: Lane::Orange, time: 1 }];
    let hidden = lanes(4, 0, 10, 100, 40, orange.clone());
    assert_eq!(hidden.note_markers().len(), 0);
    let shown = lanes(5, 0, 10, 100, 40, orange);
    let markers = shown.note_markers();
    assert_eq!(markers.len(), 1);
    assert_eq!(markers[0].color, Color::Rgb(255, 165, 0));
}

#[test]
fn markers_empty_when_cursor_reaches_chart_length() {
    let l = lanes(4, 15, 10, 100, 40, get_notes());
    assert_eq!(l.note_markers().len(), 0);
    // The rest of the frame is still rendered without fault.
    let d = l.draw();
    assert_eq!(d.last(), Some(&Primitive::LayerBreak));
    let far = lanes(4, 1000, 10, 100, 40, get_notes());
    assert_eq!(far.note_markers().len(), 0);
}

#[test]
fn renderer_is_deterministic() {
    let a = lanes(5, 3, 13, 120, 37, get_notes()).draw();
    let b = lanes(5, 3, 13, 120, 37, get_notes()).draw();
    assert_eq!(a, b);
}

#[test]
fn grid_skipped_when_step_rounds_to_zero() {
    // 4 lanes at speed 0.1: lane_height 0.4 rounds to a zero step.
    let l = lanes(4, 0, 1, 100, 40, get_notes());
    assert_eq!(l.grid_lines().len(), 0);
}

#[test]
fn grid_lines_every_rounded_step() {
    // 4 lanes at speed 1.0: lane_height 4.0, step 4; height 10 gives rows
    // 0, 4 and 8. Each line runs from width/3.9 to lane_note_x + 40 - 1.
    let l = lanes(4, 0, 10, 100, 10, get_notes());
    let grid = l.grid_lines();
    assert_eq!(grid.len(), 3);
    let x1 = 100 * 188000;  // 100 / 3.9, times SCALE
    let x2 = 25 * SCALE + 40 * SCALE - SCALE;
    for (k, line) in grid.iter().enumerate() {
        assert_eq!(line.x1, x1);
        assert_eq!(line.x2, x2);
        let y = 4 * SCALE + (k as i128) * 4 * SCALE;
        assert_eq!(line.y1, y);
        assert_eq!(line.y2, y);
        assert_eq!(line.color, Color::White);
    }
}

#[test]
fn grid_step_rounds_half_up() {
    // 5 lanes at speed 0.3: lane_height 1.5 rounds to step 2.
    let l = lanes(5, 0, 3, 100, 8, get_notes());
    let grid = l.grid_lines();
    // Rows 0, 2, 4, 6.
    assert_eq!(grid.len(), 4);
    // y = lane_height + row = 1.5 + row, times SCALE.
    assert_eq!(grid[0].y1, 3 * SCALE / 2);
    assert_eq!(grid[1].y1, 3 * SCALE / 2 + 2 * SCALE);
}

#[test]
fn marker_position_is_exact() {
    // One note on the first lane at time step 1, 4 lanes, speed 1.0,
    // 100 x 40 canvas, cursor 0:
    //   x = 25 + 0 + 25/4 - 1 = 30.25, y = 1 * 4 - 2.5 = 1.5 (times SCALE).
    let l = lanes(4, 0, 10, 100, 40, vec![Note { lane: Lane::Green, time: 1 }]);
    let markers = l.note_markers();
    assert_eq!(markers.len(), 1);
    assert_eq!(markers[0].x, 121 * SCALE / 4);
    assert_eq!(markers[0].y, 3 * SCALE / 2);
    assert_eq!(markers[0].radius, SCALE);
    assert_eq!(markers[0].color, Color::Green);
}

#[test]
fn cursor_shifts_markers_and_trims_the_chart() {
    // Cursor 1: the first chart note is skipped and every remaining y drops
    // by one lane spacing (3.9 with 4 lanes).
    let l = lanes(4, 1, 10, 100, 40, get_notes());
    let markers = l.note_markers();
    // Notes 1..15 minus the three 5th-lane notes that remain.
    assert_eq!(markers.len(), 11);
    // First marker: the Red note at time step 2: y = 2 * 4 - 2.5 - 1 * 3.9.
    assert_eq!(markers[0].color, Color::Red);
    assert_eq!(markers[0].y, 2 * 4 * SCALE - 5 * SCALE / 2 - 39 * SCALE / 10);
}

#[test]
fn full_chart_marker_counts() {
    let four = lanes(4, 0, 10, 100, 40, get_notes());
    assert_eq!(four.note_markers().len(), 12);
    let five = lanes(5, 0, 10, 100, 40, get_notes());
    assert_eq!(five.note_markers().len(), 15);
}

#[test]
fn draw_orders_the_layers_with_breaks() {
    let l = lanes(4, 0, 10, 100, 40, get_notes());
    let seps = l.separator_lines();
    let grid = l.grid_lines();
    let markers = l.note_markers();
    let d = l.draw();
    assert_eq!(d.len(), seps.len() + 1 + grid.len() + 1 + markers.len());
    let mut expected: Vec<Primitive> = Vec::new();
    for s in &seps {
        expected.push(Primitive::Line(*s));
    }
    expected.push(Primitive::LayerBreak);
    for g in &grid {
        expected.push(Primitive::Line(*g));
    }
    expected.push(Primitive::LayerBreak);
    for m in &markers {
        expected.push(Primitive::Circle(*m));
    }
    assert_eq!(d, expected);
}

#[test]
fn draw_lanes_renders_the_fixed_chart_from_the_state() {
    let app = App::new();
    let frame = draw_lanes(&app, 100, 40);
    let expected = lanes(4, 0, 10, 100, 40, get_notes()).draw();
    assert_eq!(frame, expected);
}

#[test]
fn draw_lanes_follows_the_state_fields() {
    let mut app = App::new();
    app.lanes_count = 5;
    app.speed_tenths = 13;
    app.time = 2;
    let frame = draw_lanes(&app, 80, 24);
    let expected = lanes(5, 2, 13, 80, 24, get_notes()).draw();
    assert_eq!(frame, expected);
}
