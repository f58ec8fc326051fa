//! Quick weather: the verified core of a terse, emoji-rich weather report.
use vstd::prelude::*;

pub mod text;
pub mod model;
pub mod binary64;
pub mod fields;
pub mod pattern;
pub mod clock;
pub mod display;
pub mod laws;
pub mod weather_api;
pub mod cli;
pub mod config;

verus! {
}
