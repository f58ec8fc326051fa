//! The parts of an OpenWeatherMap answer that carry no measurements.
use vstd::prelude::*;
use crate::model::{named_condition, WeatherCondition};

verus! {

/// One weather group of an OpenWeatherMap answer.
#[derive(Debug)]
pub struct OwmWeather {
    pub id: u16,
    pub main: String,
    pub description: String,
    pub icon: String,
}

/// The system part of an OpenWeatherMap answer.
#[derive(Debug)]
pub struct OwmSys {
    pub type_field: Option<u16>,
    pub id: Option<u32>,
    pub country: String,
    /// Unix timestamp, seconds.
    pub sunrise: i64,
    /// Unix timestamp, seconds.
    pub sunset: i64,
}

impl<'a> From<&'a OwmWeather> for WeatherCondition {
    fn from(owm_weather: &'a OwmWeather) -> (c: Self) {
        WeatherCondition::from_main(owm_weather.main.as_str())
    }
}

impl<'a> vstd::std_specs::convert::FromSpecImpl<&'a OwmWeather> for WeatherCondition {
    open spec fn obeys_from_spec() -> bool {
        true
    }

    open spec fn from_spec(v: &'a OwmWeather) -> Self {
        named_condition(v.main@)
    }
}

} // verus!
