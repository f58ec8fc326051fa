//! The weather data that the rest of the library reads and formats.
//!
//! Temperatures are held in tenths of a degree Fahrenheit, wind speeds in
//! hundredths of a kilometre per hour, pressures in whole hectopascals,
//! instants as Unix timestamps in seconds, calendar dates as days since
//! 1970-01-01, and coordinates in millionths of a degree.
use vstd::prelude::*;
use crate::text::{str_equal, string_views};

verus! {

/// The kind of weather, as far as the display distinguishes it.
#[derive(PartialEq, Eq, Structural, Clone, Copy, Debug)]
pub enum WeatherCondition {
    Clear,
    Clouds,
    Rain,
    Thunderstorm,
    Snow,
    Mist,
    Fog,
    Haze,
    Smoke,
    Dust,
    Sand,
    Ash,
    Squall,
    Tornado,
    Drizzle,
    FreezingDrizzle,
    FreezingRain,
    Unknown,
}

/// The condition that a WMO weather interpretation code stands for.
pub open spec fn wmo_condition(code: u8) -> WeatherCondition {
    if code == 0 {
        WeatherCondition::Clear
    } else if code == 1 || code == 2 || code == 3 {
        WeatherCondition::Clouds
    } else if code == 45 || code == 48 {
        WeatherCondition::Fog
    } else if code == 51 || code == 53 || code == 55 {
        WeatherCondition::Drizzle
    } else if code == 56 || code == 57 {
        WeatherCondition::FreezingDrizzle
    } else if code == 61 || code == 63 || code == 65 || code == 80 || code == 81 || code == 82 {
        WeatherCondition::Rain
    } else if code == 66 || code == 67 {
        WeatherCondition::FreezingRain
    } else if code == 71 || code == 73 || code == 75 || code == 77 || code == 85 || code == 86 {
        WeatherCondition::Snow
    } else if code == 95 || code == 96 || code == 99 {
        WeatherCondition::Thunderstorm
    } else {
        WeatherCondition::Unknown
    }
}

/// The emoji that the display shows for a condition.
pub open spec fn condition_emoji(c: WeatherCondition) -> Seq<char> {
    match c {
        WeatherCondition::Clear => "☀️"@,
        WeatherCondition::Clouds => "☁️"@,
        WeatherCondition::Rain | WeatherCondition::Drizzle | WeatherCondition::FreezingDrizzle
        | WeatherCondition::FreezingRain => "🌧️"@,
        WeatherCondition::Thunderstorm => "⛈️"@,
        WeatherCondition::Snow => "❄️"@,
        WeatherCondition::Mist | WeatherCondition::Fog | WeatherCondition::Haze
        | WeatherCondition::Smoke | WeatherCondition::Dust | WeatherCondition::Sand
        | WeatherCondition::Ash => "🌫️"@,
        WeatherCondition::Squall | WeatherCondition::Tornado => "🌪️"@,
        WeatherCondition::Unknown => "❓"@,
    }
}

/// The condition whose name is `name` (an OpenWeatherMap "main" group such as
/// "Rain"); any other name is `Unknown`.
pub open spec fn named_condition(name: Seq<char>) -> WeatherCondition {
    if name == "Clear"@ {
        WeatherCondition::Clear
    } else if name == "Clouds"@ {
        WeatherCondition::Clouds
    } else if name == "Rain"@ {
        WeatherCondition::Rain
    } else if name == "Thunderstorm"@ {
        WeatherCondition::Thunderstorm
    } else if name == "Snow"@ {
        WeatherCondition::Snow
    } else if name == "Mist"@ {
        WeatherCondition::Mist
    } else if name == "Fog"@ {
        WeatherCondition::Fog
    } else if name == "Haze"@ {
        WeatherCondition::Haze
    } else if name == "Smoke"@ {
        WeatherCondition::Smoke
    } else if name == "Dust"@ {
        WeatherCondition::Dust
    } else if name == "Sand"@ {
        WeatherCondition::Sand
    } else if name == "Ash"@ {
        WeatherCondition::Ash
    } else if name == "Squall"@ {
        WeatherCondition::Squall
    } else if name == "Tornado"@ {
        WeatherCondition::Tornado
    } else if name == "Drizzle"@ {
        WeatherCondition::Drizzle
    } else if name == "FreezingDrizzle"@ {
        WeatherCondition::FreezingDrizzle
    } else if name == "FreezingRain"@ {
        WeatherCondition::FreezingRain
    } else {
        WeatherCondition::Unknown
    }
}

impl WeatherCondition {
    /// Maps a WMO weather interpretation code to a condition.
    pub fn from_wmo_code(code: u8) -> (c: Self)
        ensures
            c == wmo_condition(code),
    {
        match code {
            0 => WeatherCondition::Clear,
            1 | 2 | 3 => WeatherCondition::Clouds,
            45 | 48 => WeatherCondition::Fog,
            51 | 53 | 55 => WeatherCondition::Drizzle,
            56 | 57 => WeatherCondition::FreezingDrizzle,
            61 | 63 | 65 => WeatherCondition::Rain,
            66 | 67 => WeatherCondition::FreezingRain,
            71 | 73 | 75 => WeatherCondition::Snow,
            77 => WeatherCondition::Snow,
            80 | 81 | 82 => WeatherCondition::Rain,
            85 | 86 => WeatherCondition::Snow,
            95 => WeatherCondition::Thunderstorm,
            96 | 99 => WeatherCondition::Thunderstorm,
            _ => WeatherCondition::Unknown,
        }
    }

    /// The emoji for this condition.
    pub fn emoji(&self) -> (e: &'static str)
        ensures
            e@ == condition_emoji(*self),
    {
        match self {
            WeatherCondition::Clear => "☀️",
            WeatherCondition::Clouds => "☁️",
            WeatherCondition::Rain | WeatherCondition::Drizzle | WeatherCondition::FreezingDrizzle
            | WeatherCondition::FreezingRain => "🌧️",
            WeatherCondition::Thunderstorm => "⛈️",
            WeatherCondition::Snow => "❄️",
            WeatherCondition::Mist | WeatherCondition::Fog | WeatherCondition::Haze
            | WeatherCondition::Smoke | WeatherCondition::Dust | WeatherCondition::Sand
            | WeatherCondition::Ash => "🌫️",
            WeatherCondition::Squall | WeatherCondition::Tornado => "🌪️",
            WeatherCondition::Unknown => "❓",
        }
    }

    /// The condition named by an OpenWeatherMap "main" group.
    pub fn from_main(main: &str) -> (c: Self)
        ensures
            c == named_condition(main@),
    {
        if str_equal(main, "Clear") {
            WeatherCondition::Clear
        } else if str_equal(main, "Clouds") {
            WeatherCondition::Clouds
        } else if str_equal(main, "Rain") {
            WeatherCondition::Rain
        } else if str_equal(main, "Thunderstorm") {
            WeatherCondition::Thunderstorm
        } else if str_equal(main, "Snow") {
            WeatherCondition::Snow
        } else if str_equal(main, "Mist") {
            WeatherCondition::Mist
        } else if str_equal(main, "Fog") {
            WeatherCondition::Fog
        } else if str_equal(main, "Haze") {
            WeatherCondition::Haze
        } else if str_equal(main, "Smoke") {
            WeatherCondition::Smoke
        } else if str_equal(main, "Dust") {
            WeatherCondition::Dust
        } else if str_equal(main, "Sand") {
            WeatherCondition::Sand
        } else if str_equal(main, "Ash") {
            WeatherCondition::Ash
        } else if str_equal(main, "Squall") {
            WeatherCondition::Squall
        } else if str_equal(main, "Tornado") {
            WeatherCondition::Tornado
        } else if str_equal(main, "Drizzle") {
            WeatherCondition::Drizzle
        } else if str_equal(main, "FreezingDrizzle") {
            WeatherCondition::FreezingDrizzle
        } else if str_equal(main, "FreezingRain") {
            WeatherCondition::FreezingRain
        } else {
            WeatherCondition::Unknown
        }
    }
}

/// One day of the daily forecast.
#[derive(Clone, Copy, Debug)]
pub struct DailyForecastEntry {
    /// Days since 1970-01-01.
    pub date: i64,
    pub weather_condition: WeatherCondition,
    /// Tenths of a degree Fahrenheit.
    pub temp_max: i64,
    /// Tenths of a degree Fahrenheit.
    pub temp_min: i64,
    /// Percent.
    pub precipitation_chance: Option<u8>,
}

/// One hour of the hourly forecast.
#[derive(Clone, Copy, Debug)]
pub struct HourlyForecastEntry {
    /// Unix timestamp, seconds.
    pub time: i64,
    /// Tenths of a degree Fahrenheit.
    pub temperature: i64,
    pub weather_condition: WeatherCondition,
    /// Percent.
    pub precipitation_chance: Option<u8>,
    /// Hundredths of a kilometre per hour.
    pub wind_speed: u32,
    /// Degrees.
    pub wind_deg: Option<u16>,
    /// Tenths of a degree Fahrenheit.
    pub dew_point: Option<i64>,
    /// Tenths of a degree Fahrenheit.
    pub feels_like: Option<i64>,
    /// Percent.
    pub humidity: Option<u8>,
    /// Hectopascals.
    pub pressure: Option<u16>,
}

/// A raw METAR observation.
#[derive(Debug)]
pub struct MetarReport {
    pub raw: String,
    pub station_id: String,
    /// Unix timestamp, seconds.
    pub observation_time: i64,
}

/// A raw TAF forecast and its time blocks.
#[derive(Debug)]
pub struct TafReport {
    pub raw: String,
    pub station_id: String,
    pub lines: Vec<String>,
}

/// What a `MetarReport` holds.
#[verifier::ext_equal]
pub struct MetarView {
    pub raw: Seq<char>,
    pub station_id: Seq<char>,
    pub observation_time: i64,
}

/// What a `TafReport` holds.
#[verifier::ext_equal]
pub struct TafView {
    pub raw: Seq<char>,
    pub station_id: Seq<char>,
    pub lines: Seq<Seq<char>>,
}

impl View for MetarReport {
    type V = MetarView;

    open spec fn view(&self) -> MetarView {
        MetarView { raw: self.raw@, station_id: self.station_id@, observation_time: self.observation_time }
    }
}

impl View for TafReport {
    type V = TafView;

    open spec fn view(&self) -> TafView {
        TafView { raw: self.raw@, station_id: self.station_id@, lines: string_views(self.lines@) }
    }
}

/// The characters of an optional string.
pub open spec fn opt_view(o: Option<String>) -> Option<Seq<char>> {
    match o {
        Some(s) => Some(s@),
        None => None,
    }
}

/// A complete weather report: current conditions, forecasts, and, for an
/// aviation station, the raw METAR and TAF.
#[derive(Debug)]
pub struct WeatherReport {
    pub city_name: Option<String>,
    pub state: Option<String>,
    pub country: Option<String>,
    /// Tenths of a degree Fahrenheit.
    pub temperature: i64,
    /// Tenths of a degree Fahrenheit.
    pub dew_point: Option<i64>,
    /// Tenths of a degree Fahrenheit.
    pub feels_like: i64,
    /// Tenths of a degree Fahrenheit.
    pub temp_min: Option<i64>,
    /// Tenths of a degree Fahrenheit.
    pub temp_max: Option<i64>,
    /// Hectopascals.
    pub pressure: Option<u16>,
    /// Percent.
    pub humidity: Option<u8>,
    /// Percent.
    pub current_precipitation_chance: Option<u8>,
    /// Hundredths of a kilometre per hour.
    pub wind_speed: u32,
    /// Degrees (0-360).
    pub wind_deg: Option<u16>,
    /// Unix timestamp, seconds.
    pub sunrise: Option<i64>,
    /// Unix timestamp, seconds.
    pub sunset: Option<i64>,
    pub weather_condition: WeatherCondition,
    /// Unix timestamp, seconds.
    pub datetime: i64,
    /// Seconds east of UTC.
    pub timezone_offset: Option<i32>,
    /// Millionths of a degree.
    pub latitude: i64,
    /// Millionths of a degree.
    pub longitude: i64,
    pub daily_forecast: Vec<DailyForecastEntry>,
    pub hourly_forecast: Vec<HourlyForecastEntry>,
    pub metar: Option<MetarReport>,
    pub taf: Option<TafReport>,
}

/// What a `WeatherReport` holds, with every string taken as its characters.
#[verifier::ext_equal]
pub struct ReportView {
    pub city_name: Option<Seq<char>>,
    pub state: Option<Seq<char>>,
    pub country: Option<Seq<char>>,
    pub temperature: i64,
    pub dew_point: Option<i64>,
    pub feels_like: i64,
    pub temp_min: Option<i64>,
    pub temp_max: Option<i64>,
    pub pressure: Option<u16>,
    pub humidity: Option<u8>,
    pub current_precipitation_chance: Option<u8>,
    pub wind_speed: u32,
    pub wind_deg: Option<u16>,
    pub sunrise: Option<i64>,
    pub sunset: Option<i64>,
    pub weather_condition: WeatherCondition,
    pub datetime: i64,
    pub timezone_offset: Option<i32>,
    pub latitude: i64,
    pub longitude: i64,
    pub daily_forecast: Seq<DailyForecastEntry>,
    pub hourly_forecast: Seq<HourlyForecastEntry>,
    pub metar: Option<MetarView>,
    pub taf: Option<TafView>,
}

impl View for WeatherReport {
    type V = ReportView;

    open spec fn view(&self) -> ReportView {
        ReportView {
            city_name: opt_view(self.city_name),
            state: opt_view(self.state),
            country: opt_view(self.country),
            temperature: self.temperature,
            dew_point: self.dew_point,
            feels_like: self.feels_like,
            temp_min: self.temp_min,
            temp_max: self.temp_max,
            pressure: self.pressure,
            humidity: self.humidity,
            current_precipitation_chance: self.current_precipitation_chance,
            wind_speed: self.wind_speed,
            wind_deg: self.wind_deg,
            sunrise: self.sunrise,
            sunset: self.sunset,
            weather_condition: self.weather_condition,
            datetime: self.datetime,
            timezone_offset: self.timezone_offset,
            latitude: self.latitude,
            longitude: self.longitude,
            daily_forecast: self.daily_forecast@,
            hourly_forecast: self.hourly_forecast@,
            metar: match self.metar {
                Some(m) => Some(m@),
                None => None,
            },
            taf: match self.taf {
                Some(t) => Some(t@),
                None => None,
            },
        }
    }
}

} // verus!
