//! Command entry and map validation for an air-traffic-control simulation.
//!
//! A command for an aircraft is typed one key at a time; [`grammar`] says
//! which keys may follow which, [`phrase`] how the keys typed so far read,
//! and [`resolve`] what a finished command means. [`command`] holds the
//! writer that does all three. An airspace is described by a map; [`rules`]
//! says what a map must meet and [`labels`] how its objects are numbered,
//! and [`map`] holds the map with its validation. [`game`] ties both into a
//! session that is driven by key events.

pub mod command;
pub mod errors;
pub mod game;
pub mod grammar;
pub mod labels;
pub mod map;
pub mod object;
pub mod phrase;
pub mod plane;
pub mod resolve;
pub mod rules;
pub mod std_specs;
pub mod text;
pub mod util;
