use lanechart::note::{get_notes, Lane};
use lanechart::shapes::Color;

#[test]
fn chart_has_fifteen_notes_in_ascending_order() {
    let notes = get_notes();
    assert_eq!(notes.len(), 15);
    for (i, note) in notes.iter().enumerate() {
        assert_eq!(note.time, i as u32 + 1);
    }
    assert_eq!(notes[0].lane, Lane::Green);
    assert_eq!(notes[4].lane, Lane::Orange);
    assert_eq!(notes[14].lane, Lane::Orange);
}

#[test]
fn lane_colors_match_the_palette() {
    assert_eq!(Lane::Green.get_color(), Color::Green);
    assert_eq!(Lane::Red.get_color(), Color::Red);
    assert_eq!(Lane::Yellow.get_color(), Color::Yellow);
    assert_eq!(Lane::Blue.get_color(), Color::Blue);
    assert_eq!(Lane::Orange.get_color(), Color::Rgb(255, 165, 0));
}

#[test]
fn lane_slots_run_left_to_right() {
    assert_eq!(Lane::Green.get_x(), 0);
    assert_eq!(Lane::Red.get_x(), 1);
    assert_eq!(Lane::Yellow.get_x(), 2);
    assert_eq!(Lane::Blue.get_x(), 3);
    assert_eq!(Lane::Orange.get_x(), 4);
}
