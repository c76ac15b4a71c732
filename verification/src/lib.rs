//! A terminal note-chart viewer core: a fixed chart of timed notes on
//! coloured lanes, a playback state driven by input events, and a pure
//! renderer that maps the visible notes onto drawable primitives.

pub mod app;
pub mod draw;
pub mod lanes;
pub mod note;
pub mod shapes;
