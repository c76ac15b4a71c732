//! The lane renderer: a pure function from playback state, chart and canvas
//! size to the ordered list of drawable primitives of one frame.
//!
//! All real-valued quantities of the transform are exact multiples of
//! 1/[`SCALE`], so every coordinate is held as an `i128` fixed-point number
//! (the real value times `SCALE`) and nothing is ever rounded — except the
//! scroll-grid step, which the transform itself rounds to a whole number of
//! rows.

use vstd::prelude::*;
use crate::note::{Lane, Note, spec_lane_color, spec_lane_slot};
use crate::shapes::{CircleShape, Color, LineShape, Primitive, SCALE};

verus! {

/// One tenth, in fixed-point: SCALE / 10.
pub const TENTH: i128 = 73320;

/// The constant 2.5 of the marker transform, in fixed-point: 5 * SCALE / 2.
pub const MARKER_DROP: i128 = 1833000;

/// A product of two non-negative bounded factors is bounded by the product
/// of the bounds.
proof fn lemma_mul_le(a: int, am: int, b: int, bm: int)
    by (nonlinear_arith)
    requires
        0 <= a <= am,
        0 <= b <= bm,
    ensures
        0 <= a * b <= am * bm,
{
}

/// Everything one frame is rendered from: the playback state fields the
/// renderer reads, the canvas size, and the chart.
pub struct Lanes {
    /// Number of active lanes: 4 or 5.
    pub lanes_count: i32,
    /// The playback cursor: first visible note, and vertical scroll offset.
    pub time: u32,
    /// Scroll speed in tenths of the speed factor.
    pub speed_tenths: u8,
    pub width: u16,
    pub height: u16,
    /// The chart: notes in ascending time-step order.
    pub notes: Vec<Note>,
}

/// The mathematical content of a [`Lanes`] value: the same fields as plain
/// integers and a sequence. The whole frame a `LanesView` describes is
/// [`LanesView::spec_primitives`].
pub ghost struct LanesView {
    pub lanes_count: int,
    pub time: int,
    pub speed_tenths: int,
    pub width: int,
    pub height: int,
    pub notes: Seq<Note>,
}

impl View for Lanes {
    type V = LanesView;

    open spec fn view(&self) -> LanesView {
        LanesView {
            lanes_count: self.lanes_count as int,
            time: self.time as int,
            speed_tenths: self.speed_tenths as int,
            width: self.width as int,
            height: self.height as int,
            notes: self.notes@,
        }
    }
}

impl LanesView {
    /// The renderer's input invariant: 4 or 5 lanes, speed factor in
    /// [0.1, 2.0].
    pub open spec fn wf(self) -> bool {
        &&& (self.lanes_count == 4 || self.lanes_count == 5)
        &&& 1 <= self.speed_tenths <= 20
    }

    /// SCALE / lanes_count: multiplying a width by this is an exact division
    /// of the scaled width by the lane count.
    pub open spec fn note_x_coef(self) -> int {
        if self.lanes_count == 5 {
            146640
        } else {
            183300
        }
    }

    /// SCALE / lanes_count^2: one more exact division by the lane count.
    pub open spec fn slot_coef(self) -> int {
        if self.lanes_count == 5 {
            29328
        } else {
            45825
        }
    }

    /// 10 * SCALE / 47 or 10 * SCALE / 39: multiplying a width by this is an
    /// exact division of the scaled width by the lane spacing (4.7 or 3.9).
    pub open spec fn grid_left_coef(self) -> int {
        if self.lanes_count == 5 {
            156000
        } else {
            188000
        }
    }

    /// The lane spacing in tenths: 47 (4.7) with 5 lanes, 39 (3.9) with 4.
    pub open spec fn spacing_tenths(self) -> int {
        if self.lanes_count == 5 {
            47
        } else {
            39
        }
    }

    /// The base horizontal slot width `width / lanes_count`, scaled.
    pub open spec fn lane_note_x(self) -> int {
        self.width * self.note_x_coef()
    }

    /// The vertical distance one time step advances a note:
    /// `lanes_count * speed`, scaled.
    pub open spec fn lane_height(self) -> int {
        self.lanes_count * self.speed_tenths * (TENTH as int)
    }

    /// The scroll-grid step: `lanes_count * speed` rounded to the nearest
    /// whole row (not scaled).
    pub open spec fn grid_step(self) -> int {
        (self.lanes_count * self.speed_tenths + 5) / 10
    }

    /// The lane-separator line of lane boundary `i`: a vertical line at
    /// `x = lane_note_x + i * width / 10`, from `y = 1` up to `y = height`.
    pub open spec fn separator(self, i: int) -> LineShape {
        let x = self.lane_note_x() + i * (self.width * (TENTH as int));
        LineShape {
            x1: x as i128,
            y1: SCALE,
            x2: x as i128,
            y2: (self.height * (SCALE as int)) as i128,
            color: Color::White,
        }
    }

    /// The lane-separator layer: one vertical line for each lane boundary
    /// `i` in `0 ..= lanes_count`.
    pub open spec fn separators(self) -> Seq<LineShape> {
        Seq::new((self.lanes_count + 1) as nat, |i: int| self.separator(i))
    }

    /// The scroll-grid line at row offset `g`: a horizontal line at
    /// `y = lane_height + g`, from `x = width / lane_spacing` to
    /// `x = lane_note_x + lanes_count * width / 10 - 1`.
    pub open spec fn grid_line(self, g: int) -> LineShape {
        let y = self.lane_height() + g * (SCALE as int);
        LineShape {
            x1: (self.width * self.grid_left_coef()) as i128,
            y1: y as i128,
            x2: (self.lane_note_x() + self.lanes_count * (self.width * (TENTH as int))
                - SCALE as int) as i128,
            y2: y as i128,
            color: Color::White,
        }
    }

    /// The scroll-grid lines from row offset `g` upward: one line every
    /// `grid_step` rows while `g < height`. With a step of zero the layer is
    /// empty rather than endless.
    pub open spec fn grid_from(self, g: int) -> Seq<LineShape>
        decreases self.height + self.grid_step() - g,
    {
        if self.grid_step() <= 0 || g < 0 || g >= self.height {
            Seq::empty()
        } else {
            seq![self.grid_line(g)] + self.grid_from(g + self.grid_step())
        }
    }

    /// The whole scroll-grid layer, starting at row offset 0.
    pub open spec fn grid(self) -> Seq<LineShape> {
        self.grid_from(0)
    }

    /// Whether a note is shown: the 5-lane-only lane (highest slot) is
    /// hidden while 4 lanes are active.
    pub open spec fn note_visible(self, note: Note) -> bool {
        !(self.lanes_count == 4 && note.lane == Lane::Orange)
    }

    /// The marker of one note: a circle of radius 1 at
    /// `x = lane_note_x + slot * width / 10 + lane_note_x / lanes_count - speed`,
    /// `y = time_step * lane_height - 2.5 - cursor * lane_spacing`,
    /// in the note's lane colour.
    pub open spec fn marker(self, note: Note) -> CircleShape {
        CircleShape {
            x: (self.lane_note_x() + spec_lane_slot(note.lane) * (self.width * (TENTH as int))
                + self.width * self.slot_coef() - self.speed_tenths * (TENTH as int)) as i128,
            y: (note.time as int * (self.lanes_count * self.speed_tenths * (TENTH as int))
                - MARKER_DROP as int - self.time * self.spacing_tenths() * (TENTH as int)) as i128,
            radius: SCALE,
            color: spec_lane_color(note.lane),
        }
    }

    /// The markers of the notes from chart index `i` on, visible ones only,
    /// in chart order. Past the end of the chart the layer is empty.
    pub open spec fn markers_from(self, i: int) -> Seq<CircleShape>
        decreases self.notes.len() - i,
    {
        if i < 0 || i >= self.notes.len() {
            Seq::empty()
        } else if self.note_visible(self.notes[i]) {
            seq![self.marker(self.notes[i])] + self.markers_from(i + 1)
        } else {
            self.markers_from(i + 1)
        }
    }

    /// The note-marker layer: the visible notes from the cursor to the end
    /// of the chart.
    pub open spec fn markers(self) -> Seq<CircleShape> {
        self.markers_from(self.time)
    }

    /// The whole frame: separators, scroll grid and markers in that order,
    /// one layer break between consecutive layers.
    pub open spec fn spec_primitives(self) -> Seq<Primitive> {
        self.separators().map_values(|l: LineShape| Primitive::Line(l)) + seq![
            Primitive::LayerBreak,
        ] + self.grid().map_values(|l: LineShape| Primitive::Line(l)) + seq![
            Primitive::LayerBreak,
        ] + self.markers().map_values(|c: CircleShape| Primitive::Circle(c))
    }
}

/// A cursor at or past the chart length gives an empty marker layer.
pub proof fn lemma_markers_empty_past_end(v: LanesView)
    requires
        v.time >= v.notes.len(),
    ensures
        v.markers() == Seq::<CircleShape>::empty(),
{
    assert(v.markers_from(v.time) =~= Seq::<CircleShape>::empty());
}

/// With 4 active lanes the 5th lane is hidden: no marker from chart index
/// `i` on carries the 5th lane's colour, because no 5th-lane note is mapped
/// at all.
pub proof fn lemma_fifth_lane_excluded(v: LanesView, i: int)
    requires
        v.lanes_count == 4,
    ensures
        forall|k: int|
            0 <= k < v.markers_from(i).len() ==> v.markers_from(i)[k].color != spec_lane_color(
                Lane::Orange,
            ),
    decreases v.notes.len() - i,
{
    if 0 <= i < v.notes.len() {
        lemma_fifth_lane_excluded(v, i + 1);
    }
}

/// Every visible note from chart index `i` on has its marker in the layer.
/// With 5 active lanes every note is visible, a 5th-lane note too; with 4,
/// every note off the 5th lane.
pub proof fn lemma_visible_note_included(v: LanesView, i: int, j: int)
    requires
        0 <= i <= j < v.notes.len(),
        v.note_visible(v.notes[j]),
    ensures
        v.markers_from(i).contains(v.marker(v.notes[j])),
    decreases j - i,
{
    if i == j {
        assert(v.markers_from(i)[0] == v.marker(v.notes[j]));
    } else {
        lemma_visible_note_included(v, i + 1, j);
        let rest = v.markers_from(i + 1);
        let k = choose|k: int| 0 <= k < rest.len() && rest[k] == v.marker(v.notes[j]);
        if v.note_visible(v.notes[i]) {
            assert(v.markers_from(i)[k + 1] == v.marker(v.notes[j]));
        } else {
            assert(v.markers_from(i) == rest);
        }
    }
}

/// The renderer is a pure function: `Lanes::draw` pins its result to
/// `spec_primitives` of its input, so any two primitive lists rendered from
/// the same state, chart and canvas size are equal.
pub proof fn lemma_draw_deterministic(v: LanesView, a: Seq<Primitive>, b: Seq<Primitive>)
    requires
        a == v.spec_primitives(),
        b == v.spec_primitives(),
    ensures
        a == b,
{
}

impl Lanes {
    /// The lane-separator layer: `lanes_count + 1` vertical lines, one at
    /// each lane boundary.
    pub fn separator_lines(&self) -> (r: Vec<LineShape>)
        requires
            self@.wf(),
        ensures
            r@ == self@.separators(),
    {
        let lane_note_x: i128 = if self.lanes_count == 5 {
            (self.width as i128) * 146640
        } else {
            (self.width as i128) * 183300
        };
        let step: i128 = (self.width as i128) * TENTH;
        let top: i128 = (self.height as i128) * SCALE;
        let mut r: Vec<LineShape> = Vec::new();
        let mut i: i32 = 0;
        while i <= self.lanes_count
            invariant
                self@.wf(),
                0 <= i <= self.lanes_count + 1,
                lane_note_x == self@.lane_note_x(),
                step == self@.width * (TENTH as int),
                top == self@.height * (SCALE as int),
                r@.len() == i as int,
                forall|j: int| 0 <= j < i as int ==> r@[j] == self@.separator(j),
            decreases self.lanes_count + 1 - i,
        {
            proof {
                lemma_mul_le(i as int, 6, step as int, (65535 * 73320) as int);
            }
            let x: i128 = lane_note_x + (i as i128) * step;
            r.push(LineShape { x1: x, y1: SCALE, x2: x, y2: top, color: Color::White });
            i = i + 1;
        }
        assert(r@ =~= self@.separators());
        r
    }

    /// The scroll-grid layer: horizontal lines every `grid_step` rows, or no
    /// lines at all when the rounded step is zero.
    pub fn grid_lines(&self) -> (r: Vec<LineShape>)
        requires
            self@.wf(),
        ensures
            r@ == self@.grid(),
    {
        let mut r: Vec<LineShape> = Vec::new();
        let lc: u32 = if self.lanes_count == 5 {
            5
        } else {
            4
        };
        proof {
            lemma_mul_le(lc as int, 5, self.speed_tenths as int, 20);
        }
        let step: u32 = (lc * (self.speed_tenths as u32) + 5) / 10;
        if step == 0 {
            assert(r@ =~= self@.grid());
            return r;
        }
        let lane_height: i128 = (self.lanes_count as i128) * (self.speed_tenths as i128) * TENTH;
        let x1: i128 = if self.lanes_count == 5 {
            (self.width as i128) * 156000
        } else {
            (self.width as i128) * 188000
        };
        let lane_note_x: i128 = if self.lanes_count == 5 {
            (self.width as i128) * 146640
        } else {
            (self.width as i128) * 183300
        };
        proof {
            lemma_mul_le(self.lanes_count as int, 5, self.width as int * (TENTH as int), (65535
                * 73320) as int);
        }
        let x2: i128 = lane_note_x + (self.lanes_count as i128) * ((self.width as i128) * TENTH)
            - SCALE;
        let mut g: u32 = 0;
        while g < self.height as u32
            invariant
                self@.wf(),
                step == self@.grid_step(),
                1 <= step <= 10,
                0 <= g <= self.height + step,
                lane_height == self@.lane_height(),
                x1 == self@.width * self@.grid_left_coef(),
                x2 == self@.lane_note_x() + self@.lanes_count * (self@.width * (TENTH as int))
                    - SCALE as int,
                self@.grid() == r@ + self@.grid_from(g as int),
            decreases self.height + step - g,
        {
            let y: i128 = lane_height + (g as i128) * SCALE;
            let line = LineShape { x1, y1: y, x2, y2: y, color: Color::White };
            proof {
                assert(line == self@.grid_line(g as int));
                assert(self@.grid_from(g as int) == seq![self@.grid_line(g as int)]
                    + self@.grid_from(g as int + step as int));
                assert(r@ + self@.grid_from(g as int) =~= (r@ + seq![line]) + self@.grid_from(
                    g as int + step as int));
            }
            r.push(line);
            g = g + step;
        }
        proof {
            assert(self@.grid_from(g as int) =~= Seq::<LineShape>::empty());
            assert(r@ + self@.grid_from(g as int) =~= r@);
        }
        r
    }

    /// The note-marker layer: one circle for each visible note from the
    /// cursor to the end of the chart, in chart order. A cursor at or past
    /// the chart length gives an empty layer.
    pub fn note_markers(&self) -> (r: Vec<CircleShape>)
        requires
            self@.wf(),
        ensures
            r@ == self@.markers(),
    {
        let mut r: Vec<CircleShape> = Vec::new();
        let len = self.notes.len();
        let mut i: usize = if self.time as usize <= len {
            self.time as usize
        } else {
            len
        };
        proof {
            if self.time as int >= len as int {
                assert(self@.markers_from(self.time as int) =~= Seq::<CircleShape>::empty());
                assert(self@.markers_from(i as int) =~= Seq::<CircleShape>::empty());
            }
        }
        let lane_note_x: i128 = if self.lanes_count == 5 {
            (self.width as i128) * 146640
        } else {
            (self.width as i128) * 183300
        };
        let slot_x: i128 = if self.lanes_count == 5 {
            (self.width as i128) * 29328
        } else {
            (self.width as i128) * 45825
        };
        let spacing_tenths: i128 = if self.lanes_count == 5 {
            47
        } else {
            39
        };
        let width_tenth: i128 = (self.width as i128) * TENTH;
        proof {
            lemma_mul_le(self.lanes_count as int, 5, self.speed_tenths as int, 20);
        }
        let note_coeff: i128 = (self.lanes_count as i128) * (self.speed_tenths as i128) * TENTH;
        proof {
            lemma_mul_le(self.time as int, 0xFFFF_FFFF, spacing_tenths as int, 47);
        }
        let scroll: i128 = (self.time as i128) * spacing_tenths * TENTH;
        let base_x: i128 = lane_note_x + slot_x - (self.speed_tenths as i128) * TENTH;
        while i < len
            invariant
                self@.wf(),
                len == self@.notes.len(),
                0 <= i <= len,
                lane_note_x == self@.lane_note_x(),
                slot_x == self@.width * self@.slot_coef(),
                spacing_tenths == self@.spacing_tenths(),
                width_tenth == self@.width * (TENTH as int),
                note_coeff == self@.lanes_count * self@.speed_tenths * (TENTH as int),
                0 <= note_coeff <= 100 * (TENTH as int),
                scroll == self@.time * self@.spacing_tenths() * (TENTH as int),
                0 <= scroll <= 0xFFFF_FFFF * 47 * (TENTH as int),
                base_x == self@.lane_note_x() + self@.width * self@.slot_coef()
                    - self@.speed_tenths * (TENTH as int),
                self@.markers() == r@ + self@.markers_from(i as int),
            decreases len - i,
        {
            let note = self.notes[i];
            if !(self.lanes_count == 4 && note.lane == Lane::Orange) {
                let slot = note.lane.get_x();
                proof {
                    lemma_mul_le(slot as int, 4, width_tenth as int, (65535 * 73320) as int);
                    lemma_mul_le(note.time as int, 0xFFFF_FFFF, note_coeff as int, 100 * (
                    TENTH as int));
                }
                let x: i128 = base_x + (slot as i128) * width_tenth;
                let y: i128 = (note.time as i128) * note_coeff - MARKER_DROP - scroll;
                let marker = CircleShape { x, y, radius: SCALE, color: note.lane.get_color() };
                proof {
                    assert(marker == self@.marker(self@.notes[i as int]));
                    assert(r@ + self@.markers_from(i as int) =~= (r@ + seq![marker])
                        + self@.markers_from(i as int + 1));
                }
                r.push(marker);
            }
            i = i + 1;
        }
        proof {
            assert(self@.markers_from(i as int) =~= Seq::<CircleShape>::empty());
            assert(r@ + self@.markers_from(i as int) =~= r@);
        }
        r
    }

    /// Render one frame: the lane separators, the scroll grid and the note
    /// markers, in that order, a layer break between consecutive layers.
    /// The result is a function of `self` alone, so identical inputs give
    /// identical primitive lists.
    pub fn draw(&self) -> (r: Vec<Primitive>)
        requires
            self@.wf(),
        ensures
            r@ == self@.spec_primitives(),
    {
        let mut r: Vec<Primitive> = Vec::new();
        let separators = self.separator_lines();
        let mut i: usize = 0;
        while i < separators.len()
            invariant
                separators@ == self@.separators(),
                0 <= i <= separators@.len(),
                r@ =~= separators@.map_values(|l: LineShape| Primitive::Line(l)).take(i as int),
            decreases separators@.len() - i,
        {
            r.push(Primitive::Line(separators[i]));
            i = i + 1;
        }
        r.push(Primitive::LayerBreak);
        let grid = self.grid_lines();
        let mut j: usize = 0;
        while j < grid.len()
            invariant
                separators@ == self@.separators(),
                grid@ == self@.grid(),
                0 <= j <= grid@.len(),
                r@ =~= separators@.map_values(|l: LineShape| Primitive::Line(l)) + seq![
                    Primitive::LayerBreak,
                ] + grid@.map_values(|l: LineShape| Primitive::Line(l)).take(j as int),
            decreases grid@.len() - j,
        {
            r.push(Primitive::Line(grid[j]));
            j = j + 1;
        }
        r.push(Primitive::LayerBreak);
        let markers = self.note_markers();
        let mut k: usize = 0;
        while k < markers.len()
            invariant
                separators@ == self@.separators(),
                grid@ == self@.grid(),
                markers@ == self@.markers(),
                0 <= k <= markers@.len(),
                r@ =~= separators@.map_values(|l: LineShape| Primitive::Line(l)) + seq![
                    Primitive::LayerBreak,
                ] + grid@.map_values(|l: LineShape| Primitive::Line(l)) + seq![
                    Primitive::LayerBreak,
                ] + markers@.map_values(|c: CircleShape| Primitive::Circle(c)).take(k as int),
            decreases markers@.len() - k,
        {
            r.push(Primitive::Circle(markers[k]));
            k = k + 1;
        }
        proof {
            assert(r@ =~= self@.spec_primitives());
        }
        r
    }
}

} // verus!
