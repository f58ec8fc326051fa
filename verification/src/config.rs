//! The user's settings: a default location, the last location shown, and a
//! custom format for the current-weather line.
use vstd::prelude::*;
use crate::model::opt_view;

verus! {

/// The user's settings.
#[derive(Debug)]
pub struct Config {
    pub default_location: Option<String>,
    pub last_location: Option<String>,
    pub current_format: Option<String>,
}

impl Default for Config {
    fn default() -> (c: Self)
        ensures
            c.default_location is None,
            c.last_location is None,
            c.current_format is None,
    {
        Config { default_location: None, last_location: None, current_format: None }
    }
}

/// The location to report on: the one given on the command line, else the
/// configured default, else the last one shown; `None` when there is none
/// (the location is then looked up from the network address).
pub open spec fn chosen_location(
    cli: Option<Seq<char>>,
    default: Option<Seq<char>>,
    last: Option<Seq<char>>,
) -> Option<Seq<char>> {
    match cli {
        Some(l) => Some(l),
        None => match default {
            Some(l) => Some(l),
            None => last,
        },
    }
}

impl Config {
    /// The location to report on (see `chosen_location`).
    pub fn location_to_use(&self, cli_location: Option<String>) -> (r: Option<String>)
        ensures
            opt_view(r) == chosen_location(
                opt_view(cli_location),
                opt_view(self.default_location),
                opt_view(self.last_location),
            ),
    {
        match cli_location {
            Some(l) => Some(l),
            None => match &self.default_location {
                Some(l) => Some(l.clone()),
                None => match &self.last_location {
                    Some(l) => Some(l.clone()),
                    None => None,
                },
            },
        }
    }

    /// Records the location of a report that was fetched, as the last
    /// location shown.
    pub fn remember_location(&mut self, location: String)
        ensures
            opt_view(final(self).last_location) == Some(location@),
            opt_view(final(self).default_location) == opt_view(old(self).default_location),
            opt_view(final(self).current_format) == opt_view(old(self).current_format),
    {
        self.last_location = Some(location);
    }
}

} // verus!
