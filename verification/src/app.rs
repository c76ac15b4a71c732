//! Playback state and the input dispatcher.
//!
//! The state records the playback cursor, the scroll speed, the active lane
//! count, the last pointer position, and the running and redraw flags. The
//! dispatcher turns one abstract input event into a state transition; it is
//! the only writer of the state.
//!
//! Speed is held in tenths (`speed_tenths`), so the real speed factor is
//! `speed_tenths / 10`; the dispatcher keeps it between 1 (0.1) and 20 (2.0).

use vstd::prelude::*;

verus! {

/// A key identity, as far as the dispatcher cares: a printable character,
/// the escape key, or anything else.
#[derive(Clone, Copy, Debug, PartialEq, Eq, Structural)]
pub enum KeyCode {
    Char(char),
    Esc,
    Other,
}

/// The modifier keys held together with a key press.
#[derive(Clone, Copy, Debug, PartialEq, Eq, Structural)]
pub struct KeyModifiers {
    pub control: bool,
    pub shift: bool,
    pub alt: bool,
}

/// One key press: its key and the modifiers held with it.
#[derive(Clone, Copy, Debug, PartialEq, Eq, Structural)]
pub struct KeyEvent {
    pub code: KeyCode,
    pub modifiers: KeyModifiers,
}

/// One abstract input event. Key releases and other events the dispatcher
/// ignores arrive as `Other`.
#[derive(Clone, Copy, Debug, PartialEq, Eq, Structural)]
pub enum Event {
    Key(KeyEvent),
    Mouse { column: u16, row: u16 },
    Resize(u16, u16),
    Other,
}

/// The playback state of the viewer.
#[derive(Clone, Copy, Debug, PartialEq, Eq, Structural)]
pub struct App {
    /// Is the application running?
    pub running: bool,
    /// Scroll speed in tenths: 10 stands for a speed factor of 1.0.
    pub speed_tenths: u8,
    /// Is a redraw owed before the next event is read?
    pub should_draw: bool,
    pub mouse_x: i32,
    pub mouse_y: i32,
    /// Number of active lanes: always 4 or 5.
    pub lanes_count: i32,
    /// Playback cursor: index of the first visible note, and the vertical
    /// scroll offset term. Never negative.
    pub time: u32,
}

/// The key press is the advance key, whose transition raises the cursor.
pub open spec fn is_advance_key(event: Event) -> bool {
    event matches Event::Key(key) && key.code == KeyCode::Char('d')
}

impl App {
    /// The state invariant: the speed factor lies in [0.1, 2.0] (1 to 20
    /// tenths) and the lane count is 4 or 5.
    pub open spec fn wf(self) -> bool {
        &&& 1 <= self.speed_tenths <= 20
        &&& (self.lanes_count == 4 || self.lanes_count == 5)
    }

    /// The transition one key press makes, as a mathematical function.
    pub open spec fn spec_on_key(self, key: KeyEvent) -> App {
        if key.code == KeyCode::Char('d') {
            // Advance: the cursor is never negative, so this always applies.
            App { time: (self.time + 1) as u32, should_draw: true, ..self }
        } else if key.code == KeyCode::Char('f') {
            if self.time > 0 {
                App { time: (self.time - 1) as u32, should_draw: true, ..self }
            } else {
                self
            }
        } else if key.code == KeyCode::Char('a') {
            if 1 <= self.speed_tenths && self.speed_tenths < 20 {
                App { speed_tenths: (self.speed_tenths + 1) as u8, should_draw: true, ..self }
            } else {
                self
            }
        } else if key.code == KeyCode::Char('z') {
            if self.lanes_count == 4 {
                App { lanes_count: 5, should_draw: true, ..self }
            } else {
                App { lanes_count: 4, should_draw: true, ..self }
            }
        } else if key.code == KeyCode::Char('s') {
            // The lower guard is 2 tenths (0.2), one step above the lower
            // speed bound: between 0.1 and 0.2 the speed can be raised but
            // not lowered again. That asymmetry is deliberate policy.
            if 2 <= self.speed_tenths && self.speed_tenths <= 20 {
                App { speed_tenths: (self.speed_tenths - 1) as u8, should_draw: true, ..self }
            } else {
                self
            }
        } else if key.code == KeyCode::Esc || key.code == KeyCode::Char('q') || (key.modifiers
            == (KeyModifiers { control: true, shift: false, alt: false }) && (key.code
            == KeyCode::Char('c') || key.code == KeyCode::Char('C'))) {
            App { running: false, ..self }
        } else {
            self
        }
    }

    /// The transition one event makes, as a mathematical function.
    pub open spec fn spec_handle_event(self, event: Event) -> App {
        match event {
            Event::Key(key) => self.spec_on_key(key),
            Event::Mouse { column, row } => App {
                mouse_x: row as i32,
                mouse_y: column as i32,
                should_draw: true,
                ..self
            },
            Event::Resize(_, _) => self,
            Event::Other => self,
        }
    }

    /// Construct the initial state: running, speed 1.0, 4 lanes, cursor 0.
    pub fn new() -> (r: App)
        ensures
            r == (App {
                running: true,
                speed_tenths: 10,
                should_draw: true,
                mouse_x: 0,
                mouse_y: 0,
                lanes_count: 4,
                time: 0,
            }),
            r.wf(),
    {
        App {
            running: true,
            speed_tenths: 10,
            should_draw: true,
            mouse_x: 0,
            mouse_y: 0,
            lanes_count: 4,
            time: 0,
        }
    }

    /// Apply one key press to the state.
    pub fn on_key_event(&mut self, key: KeyEvent)
        requires
            key.code == KeyCode::Char('d') ==> old(self).time < u32::MAX,
        ensures
            *final(self) == old(self).spec_on_key(key),
    {
        match key.code {
            KeyCode::Char('d') => {
                self.time = self.time + 1;
                self.should_draw = true;
            },
            KeyCode::Char('f') => {
                if self.time > 0 {
                    self.time = self.time - 1;
                    self.should_draw = true;
                }
            },
            KeyCode::Char('a') => {
                if 1 <= self.speed_tenths && self.speed_tenths < 20 {
                    self.speed_tenths = self.speed_tenths + 1;
                    self.should_draw = true;
                }
            },
            KeyCode::Char('z') => {
                if self.lanes_count == 4 {
                    self.lanes_count = 5;
                } else {
                    self.lanes_count = 4;
                }
                self.should_draw = true;
            },
            KeyCode::Char('s') => {
                if 2 <= self.speed_tenths && self.speed_tenths <= 20 {
                    self.speed_tenths = self.speed_tenths - 1;
                    self.should_draw = true;
                }
            },
            _ => {
                if key.code == KeyCode::Esc || key.code == KeyCode::Char('q') || (key.modifiers
                    == (KeyModifiers { control: true, shift: false, alt: false }) && (key.code
                    == KeyCode::Char('c') || key.code == KeyCode::Char('C'))) {
                    self.quit();
                }
            },
        }
    }

    /// Apply one event to the state: key presses go to the key dispatcher, a
    /// pointer move records its position, everything else is ignored.
    pub fn handle_event(&mut self, event: Event)
        requires
            is_advance_key(event) ==> old(self).time < u32::MAX,
        ensures
            *final(self) == old(self).spec_handle_event(event),
    {
        match event {
            Event::Key(key) => self.on_key_event(key),
            Event::Mouse { column, row } => {
                self.mouse_x = row as i32;
                self.mouse_y = column as i32;
                self.should_draw = true;
            },
            Event::Resize(_, _) => {},
            Event::Other => {},
        }
    }

    /// Stop running, so the frame loop exits before its next blocking read.
    pub fn quit(&mut self)
        ensures
            *final(self) == (App { running: false, ..*old(self) }),
    {
        self.running = false;
    }
}

/// The state after a whole sequence of events, applied in order.
pub open spec fn spec_run_events(s: App, events: Seq<Event>) -> App
    decreases events.len(),
{
    if events.len() == 0 {
        s
    } else {
        spec_run_events(s.spec_handle_event(events[0]), events.skip(1))
    }
}

/// One transition keeps the invariant: from a state with speed in [0.1, 2.0]
/// and 4 or 5 lanes, any event leads to such a state again.
pub proof fn lemma_handle_event_preserves_wf(s: App, event: Event)
    requires
        s.wf(),
    ensures
        s.spec_handle_event(event).wf(),
{
}

/// Every sequence of events keeps the invariant: the speed factor stays in
/// [0.1, 2.0] and the lane count stays 4 or 5 at every step, whatever the
/// events are. The cursor can never turn negative: it is unsigned.
pub proof fn lemma_run_events_preserves_wf(s: App, events: Seq<Event>)
    requires
        s.wf(),
    ensures
        spec_run_events(s, events).wf(),
    decreases events.len(),
{
    if events.len() > 0 {
        lemma_handle_event_preserves_wf(s, events[0]);
        lemma_run_events_preserves_wf(s.spec_handle_event(events[0]), events.skip(1));
    }
}

/// Toggling the lane count twice restores it: from a valid state, two
/// lane-toggle presses leave `lanes_count` as it was.
pub proof fn lemma_toggle_twice(s: App, k1: KeyEvent, k2: KeyEvent)
    requires
        s.wf(),
        k1.code == KeyCode::Char('z'),
        k2.code == KeyCode::Char('z'),
    ensures
        s.spec_on_key(k1).spec_on_key(k2).lanes_count == s.lanes_count,
{
}

/// A rewind at cursor 0 changes nothing at all.
pub proof fn lemma_rewind_at_zero_is_noop(s: App, key: KeyEvent)
    requires
        s.time == 0,
        key.code == KeyCode::Char('f'),
    ensures
        s.spec_on_key(key) == s,
{
}

/// Advance then rewind restores the cursor — from cursor 0 too, where the
/// rewind undoes the advance rather than being the no-op. Only the redraw
/// flag is left set; every other field is exactly as before.
pub proof fn lemma_advance_then_rewind(s: App, ka: KeyEvent, kr: KeyEvent)
    requires
        s.time < u32::MAX,
        ka.code == KeyCode::Char('d'),
        kr.code == KeyCode::Char('f'),
    ensures
        s.spec_on_key(ka).spec_on_key(kr) == (App { should_draw: true, ..s }),
        s.spec_on_key(ka).spec_on_key(kr).time == s.time,
{
}

} // verus!
