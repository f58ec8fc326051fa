//! Weather from Open-Meteo: resolving a search term to a place, and turning
//! the forecast service's readings into a report.
use vstd::prelude::*;
use vstd::string::StringExecFns;
use crate::text::owned;
use crate::model::{
    opt_view, wmo_condition, DailyForecastEntry, HourlyForecastEntry, ReportView, WeatherCondition,
    WeatherReport,
};
use crate::clock::{
    chrono_accepts_timestamp, timestamp_is_representable, timezone_offset_at, unix_time_now,
    zone_offset_at,
};
use super::{ErrorView, WeatherApiError};

verus! {

/// One place that the geocoding service found for a search term.
#[derive(Debug)]
pub struct GeoCandidate {
    pub name: Option<String>,
    pub admin1: Option<String>,
    pub admin2: Option<String>,
    pub admin3: Option<String>,
    pub admin4: Option<String>,
    /// Millionths of a degree.
    pub latitude: Option<i64>,
    /// Millionths of a degree.
    pub longitude: Option<i64>,
    pub country_code: Option<String>,
    /// IANA time-zone name.
    pub timezone: Option<String>,
}

/// The place a search term resolved to.
#[derive(Debug)]
pub struct ResolvedLocation {
    pub name: String,
    /// The first-level administrative area (state), when known.
    pub state: Option<String>,
    pub country_code: String,
    /// Millionths of a degree.
    pub latitude: i64,
    /// Millionths of a degree.
    pub longitude: i64,
    /// Seconds east of UTC.
    pub timezone_offset: Option<i32>,
}

/// The error for a candidate that lacks its latitude, longitude or country
/// code (checked in that order), if it lacks one.
pub open spec fn candidate_problem(c: GeoCandidate, search_term: Seq<char>) -> Option<ErrorView> {
    if c.latitude is None {
        Some(ErrorView::Other("Location latitude is missing for search term: "@ + search_term))
    } else if c.longitude is None {
        Some(ErrorView::Other("Location longitude is missing for search term: "@ + search_term))
    } else if c.country_code is None {
        Some(ErrorView::Other("Location country code is missing for search term: "@ + search_term))
    } else {
        None
    }
}

/// The error for a candidate, built.
fn candidate_error(prefix: &str, search_term: &str) -> (e: WeatherApiError)
    ensures
        e@ == ErrorView::Other(prefix@ + search_term@),
{
    let mut m = String::new();
    m.append(prefix);
    m.append(search_term);
    WeatherApiError::Other(m)
}

/// The name shown for a place: its own name, else the first of its
/// administrative areas that is known, else `Unknown Location`.
pub open spec fn place_name(c: GeoCandidate) -> Seq<char> {
    match c.name {
        Some(n) => n@,
        None => match c.admin1 {
            Some(n) => n@,
            None => match c.admin2 {
                Some(n) => n@,
                None => match c.admin3 {
                    Some(n) => n@,
                    None => match c.admin4 {
                        Some(n) => n@,
                        None => "Unknown Location"@,
                    },
                },
            },
        },
    }
}

/// The error for a search term that found no place.
pub open spec fn no_location_error(search_term: Seq<char>) -> ErrorView {
    ErrorView::Other("No location found for search term: "@ + search_term)
}

/// Whether `l` is the place resolved from candidate `c`, with time-zone
/// offset `offset`.
pub open spec fn resolved_from(l: ResolvedLocation, c: GeoCandidate, offset: Option<i32>) -> bool {
    &&& l.name@ == place_name(c)
    &&& opt_view(l.state) == opt_view(c.admin1)
    &&& Some(l.country_code@) == opt_view(c.country_code)
    &&& Some(l.latitude) == c.latitude
    &&& Some(l.longitude) == c.longitude
    &&& l.timezone_offset == offset
}

/// Copies an optional string.
fn copy_opt(o: &Option<String>) -> (r: Option<String>)
    ensures
        opt_view(r) == opt_view(*o),
{
    match o {
        Some(s) => Some(s.clone()),
        None => None,
    }
}

/// Resolves a search term to the first place the geocoding service found,
/// given the time-zone offset to record for it (used only when the place
/// names a time zone).
pub fn locate(
    search_term: &str,
    results: &Option<Vec<GeoCandidate>>,
    zone_offset: Option<i32>,
) -> (r: Result<ResolvedLocation, WeatherApiError>)
    ensures
        match *results {
            Some(v) if v@.len() > 0 => match candidate_problem(v@[0], search_term@) {
                Some(p) => r matches Err(e) && e@ == p,
                None => r matches Ok(l) && resolved_from(
                    l,
                    v@[0],
                    if v@[0].timezone is Some {
                        zone_offset
                    } else {
                        None
                    },
                ),
            },
            _ => r matches Err(e) && e@ == no_location_error(search_term@),
        },
{
    let first = match results {
        Some(v) if v.len() > 0 => &v[0],
        _ => {
            let mut m = String::new();
            m.append("No location found for search term: ");
            m.append(search_term);
            return Err(WeatherApiError::Other(m));
        },
    };
    let name = match &first.name {
        Some(n) => n.clone(),
        None => match &first.admin1 {
            Some(n) => n.clone(),
            None => match &first.admin2 {
                Some(n) => n.clone(),
                None => match &first.admin3 {
                    Some(n) => n.clone(),
                    None => match &first.admin4 {
                        Some(n) => n.clone(),
                        None => owned("Unknown Location"),
                    },
                },
            },
        },
    };
    let latitude = match first.latitude {
        Some(x) => x,
        None => {
            return Err(candidate_error("Location latitude is missing for search term: ", search_term));
        },
    };
    let longitude = match first.longitude {
        Some(x) => x,
        None => {
            return Err(candidate_error("Location longitude is missing for search term: ", search_term));
        },
    };
    let country_code = match &first.country_code {
        Some(c) => c.clone(),
        None => {
            return Err(candidate_error("Location country code is missing for search term: ", search_term));
        },
    };
    let timezone_offset = match &first.timezone {
        Some(_) => zone_offset,
        None => None,
    };
    Ok(
        ResolvedLocation {
            name,
            state: copy_opt(&first.admin1),
            country_code,
            latitude,
            longitude,
            timezone_offset,
        },
    )
}

/// Resolves a search term to the first place the geocoding service found,
/// with the offset from UTC that its time zone has now (the clock is read;
/// no offset is recorded when the clock cannot be read).
pub fn resolve_location(search_term: &str, results: &Option<Vec<GeoCandidate>>) -> (r: Result<
    ResolvedLocation,
    WeatherApiError,
>)
    ensures
        match *results {
            Some(v) if v@.len() > 0 => match candidate_problem(v@[0], search_term@) {
                Some(p) => r matches Err(e) && e@ == p,
                None => r matches Ok(l) && resolved_from(l, v@[0], l.timezone_offset)
                    && match v@[0].timezone {
                    None => l.timezone_offset is None,
                    Some(z) => l.timezone_offset is None || exists|now: i64|
                        l.timezone_offset == zone_offset_at(z@, now),
                } && (l.timezone_offset matches Some(o) ==> -86400 < o < 86400),
            },
            _ => r matches Err(e) && e@ == no_location_error(search_term@),
        },
{
    let offset = match results {
        Some(v) if v.len() > 0 => match &v[0].timezone {
            Some(tz) => match unix_time_now() {
                Some(now) => {
                    let o = timezone_offset_at(tz.as_str(), now);
                    assert(o == zone_offset_at(tz@, now));
                    o
                },
                None => None,
            },
            None => None,
        },
        _ => None,
    };
    locate(search_term, results, offset)
}


/// One value read from the forecast service: missing, present but not a
/// number, or a number (already in the library's units).
#[derive(Clone, Copy, Debug)]
pub enum Reading<T> {
    Absent,
    NotNumber,
    Value(T),
}

/// The current conditions as the forecast service reported them.
#[derive(Clone, Copy, Debug)]
pub struct CurrentReadings {
    /// Unix timestamp, seconds.
    pub datetime: i64,
    pub weather_code: Reading<u8>,
    /// Tenths of a degree Fahrenheit.
    pub temperature: Reading<i64>,
    /// Tenths of a degree Fahrenheit.
    pub dew_point: Reading<i64>,
    /// Hundredths of a kilometre per hour.
    pub wind_speed: Reading<u32>,
    /// Degrees.
    pub wind_direction: Reading<u16>,
    /// Percent.
    pub humidity: Reading<u8>,
    /// Hectopascals.
    pub pressure: Reading<u16>,
    /// Percent.
    pub precipitation_probability: Option<u8>,
}

/// One hour as the forecast service reported it (each value present only
/// when it is a number).
#[derive(Clone, Copy, Debug)]
pub struct HourlyReadings {
    /// Unix timestamp, seconds.
    pub time: i64,
    pub temperature: Option<i64>,
    pub weather_code: Option<u8>,
    pub precipitation_probability: Option<u8>,
    pub wind_speed: Option<u32>,
    pub wind_direction: Option<u16>,
    pub dew_point: Option<i64>,
    pub apparent_temperature: Option<i64>,
    pub humidity: Option<u8>,
    pub pressure: Option<u16>,
}

/// One day as the forecast service reported it (each value present only
/// when it is a number).
#[derive(Clone, Copy, Debug)]
pub struct DailyReadings {
    /// Days since 1970-01-01.
    pub date: i64,
    pub weather_code: Option<u8>,
    pub temp_max: Option<i64>,
    pub temp_min: Option<i64>,
    pub precipitation_probability: Option<u8>,
    /// Unix timestamp, seconds.
    pub sunrise: Option<i64>,
    /// Unix timestamp, seconds.
    pub sunset: Option<i64>,
}

/// Everything the forecast service answered.
#[derive(Debug)]
pub struct ForecastReadings {
    pub current: Option<CurrentReadings>,
    pub hourly: Option<Vec<HourlyReadings>>,
    pub daily: Option<Vec<DailyReadings>>,
}

/// The error message for a reading that cannot be used, if it cannot.
pub open spec fn reading_problem<T>(r: Reading<T>, absent: Seq<char>, not_number: Seq<char>) -> Option<Seq<char>> {
    match r {
        Reading::Absent => Some(absent),
        Reading::NotNumber => Some(not_number),
        Reading::Value(_) => None,
    }
}

/// The number a usable reading holds.
pub open spec fn reading_value<T>(r: Reading<T>) -> T {
    match r {
        Reading::Value(v) => v,
        _ => arbitrary(),
    }
}

/// The first problem with the current readings, checked in the order
/// weather code, temperature, dew point, wind speed, wind direction,
/// humidity, pressure.
pub open spec fn current_problem(c: CurrentReadings) -> Option<Seq<char>> {
    let checks = seq![
        reading_problem(c.weather_code, "Failed to get weather_code from values"@, "Failed to convert weather_code to f64"@),
        reading_problem(c.temperature, "Failed to get temperature_2m from values"@, "Failed to convert temperature to f64"@),
        reading_problem(c.dew_point, "Failed to get dew_point_2m from values"@, "Failed to convert dew_point to f64"@),
        reading_problem(c.wind_speed, "Failed to convert wind_speed to f64"@, "Failed to convert wind_speed to f64"@),
        reading_problem(c.wind_direction, "Failed to convert wind_direction_10m to f64"@, "Failed to convert wind_direction_10m to f64"@),
        reading_problem(c.humidity, "Failed to get relative_humidity_2m from values"@, "Failed to convert relative_humidity_2m to f64"@),
        reading_problem(c.pressure, "Failed to get surface_pressure from values"@, "Failed to convert surface_pressure to f64"@),
    ];
    first_problem(checks)
}

/// The first problem in a list of checks.
pub open spec fn first_problem(checks: Seq<Option<Seq<char>>>) -> Option<Seq<char>>
    decreases checks.len(),
{
    if checks.len() == 0 {
        None
    } else if checks[0] is Some {
        checks[0]
    } else {
        first_problem(checks.drop_first())
    }
}

/// The forecast entry for one hour, or why it cannot be made.
pub open spec fn hourly_entry_of(h: HourlyReadings) -> Result<HourlyForecastEntry, Seq<char>> {
    match h.temperature {
        None => Err("Failed to get hourly temperature"@),
        Some(t) => match h.weather_code {
            None => Err("Failed to get hourly weather_code"@),
            Some(code) => match h.wind_speed {
                None => Err("Failed to get hourly wind_speed"@),
                Some(ws) => Ok(
                    HourlyForecastEntry {
                        time: h.time,
                        temperature: t,
                        weather_condition: wmo_condition(code),
                        precipitation_chance: h.precipitation_probability,
                        wind_speed: ws,
                        wind_deg: h.wind_direction,
                        dew_point: h.dew_point,
                        feels_like: h.apparent_temperature,
                        humidity: h.humidity,
                        pressure: h.pressure,
                    },
                ),
            },
        },
    }
}

/// The forecast entries for the hours `hs`, or the problem with the first
/// hour that has one.
pub open spec fn hourly_entries_of(hs: Seq<HourlyReadings>) -> Result<Seq<HourlyForecastEntry>, Seq<char>>
    decreases hs.len(),
{
    if hs.len() == 0 {
        Ok(seq![])
    } else {
        match hourly_entries_of(hs.drop_last()) {
            Err(m) => Err(m),
            Ok(v) => match hourly_entry_of(hs.last()) {
                Err(m) => Err(m),
                Ok(e) => Ok(v.push(e)),
            },
        }
    }
}

/// The lowest of the hourly temperatures that are known.
pub open spec fn lowest_temperature(hs: Seq<HourlyReadings>) -> Option<i64>
    decreases hs.len(),
{
    if hs.len() == 0 {
        None
    } else {
        let prev = lowest_temperature(hs.drop_last());
        match (prev, hs.last().temperature) {
            (Some(a), Some(b)) => Some(if b < a { b } else { a }),
            (None, t) => t,
            (p, None) => p,
        }
    }
}

/// The highest of the hourly temperatures that are known.
pub open spec fn highest_temperature(hs: Seq<HourlyReadings>) -> Option<i64>
    decreases hs.len(),
{
    if hs.len() == 0 {
        None
    } else {
        let prev = highest_temperature(hs.drop_last());
        match (prev, hs.last().temperature) {
            (Some(a), Some(b)) => Some(if b > a { b } else { a }),
            (None, t) => t,
            (p, None) => p,
        }
    }
}

/// The forecast entries of the days that have both a high and a low.
pub open spec fn daily_entries_of(ds: Seq<DailyReadings>) -> Seq<DailyForecastEntry>
    decreases ds.len(),
{
    if ds.len() == 0 {
        seq![]
    } else {
        let prev = daily_entries_of(ds.drop_last());
        let d = ds.last();
        match (d.temp_max, d.temp_min) {
            (Some(mx), Some(mn)) => prev.push(
                DailyForecastEntry {
                    date: d.date,
                    weather_condition: match d.weather_code {
                        Some(c) => wmo_condition(c),
                        None => WeatherCondition::Unknown,
                    },
                    temp_max: mx,
                    temp_min: mn,
                    precipitation_chance: d.precipitation_probability,
                },
            ),
            _ => prev,
        }
    }
}

/// The first of `times` that is known and marked valid.
pub open spec fn first_valid_time(times: Seq<Option<i64>>, valid: Seq<bool>) -> Option<i64>
    decreases times.len(),
{
    if times.len() == 0 {
        None
    } else {
        match first_valid_time(times.drop_last(), valid) {
            Some(t) => Some(t),
            None => if times.last() is Some && valid[times.len() - 1] {
                times.last()
            } else {
                None
            },
        }
    }
}

/// The sunrise times of the days.
pub open spec fn sunrises(ds: Seq<DailyReadings>) -> Seq<Option<i64>> {
    ds.map_values(|d: DailyReadings| d.sunrise)
}

/// The sunset times of the days.
pub open spec fn sunsets(ds: Seq<DailyReadings>) -> Seq<Option<i64>> {
    ds.map_values(|d: DailyReadings| d.sunset)
}

/// Whether `chrono` accepts each of the times (a missing time counts as not).
pub open spec fn accepted_times(times: Seq<Option<i64>>) -> Seq<bool> {
    times.map_values(
        |t: Option<i64>|
            match t {
                Some(ts) => chrono_accepts_timestamp(ts),
                None => false,
            },
    )
}

/// The hourly readings, or none.
pub open spec fn hours_of(f: ForecastReadings) -> Seq<HourlyReadings> {
    match f.hourly {
        Some(v) => v@,
        None => seq![],
    }
}

/// The daily readings, or none.
pub open spec fn days_of(f: ForecastReadings) -> Seq<DailyReadings> {
    match f.daily {
        Some(v) => v@,
        None => seq![],
    }
}

/// The report made of a resolved place and the forecast service's readings,
/// given which sunrise and sunset times (by day) `chrono` accepts; or the
/// first problem found: no current conditions, an unusable current reading,
/// or an hour without its temperature, weather code or wind speed.
pub open spec fn open_meteo_report(
    loc: ResolvedLocation,
    f: ForecastReadings,
    sunrise_ok: Seq<bool>,
    sunset_ok: Seq<bool>,
) -> Result<ReportView, ErrorView> {
    match f.current {
        None => Err(ErrorView::Other("No current weather data found in Open-Meteo response"@)),
        Some(c) => match current_problem(c) {
            Some(m) => Err(ErrorView::Other(m)),
            None => match hourly_entries_of(hours_of(f)) {
                Err(m) => Err(ErrorView::Other(m)),
                Ok(hours) => Ok(
                    ReportView {
                        city_name: Some(loc.name@),
                        state: opt_view(loc.state),
                        country: Some(loc.country_code@),
                        temperature: reading_value(c.temperature),
                        dew_point: Some(reading_value(c.dew_point)),
                        feels_like: reading_value(c.temperature),
                        temp_min: lowest_temperature(hours_of(f)),
                        temp_max: highest_temperature(hours_of(f)),
                        pressure: Some(reading_value(c.pressure)),
                        humidity: Some(reading_value(c.humidity)),
                        current_precipitation_chance: c.precipitation_probability,
                        wind_speed: reading_value(c.wind_speed),
                        wind_deg: Some(reading_value(c.wind_direction)),
                        sunrise: first_valid_time(sunrises(days_of(f)), sunrise_ok),
                        sunset: first_valid_time(sunsets(days_of(f)), sunset_ok),
                        weather_condition: wmo_condition(reading_value(c.weather_code)),
                        datetime: c.datetime,
                        timezone_offset: loc.timezone_offset,
                        latitude: loc.latitude,
                        longitude: loc.longitude,
                        daily_forecast: daily_entries_of(days_of(f)),
                        hourly_forecast: hours,
                        metar: None,
                        taf: None,
                    },
                ),
            },
        },
    }
}


/// Copies a string literal's message into an error.
fn other_error(m: &str) -> (e: WeatherApiError)
    ensures
        e@ == ErrorView::Other(m@),
{
    WeatherApiError::Other(owned(m))
}

/// Finds the first problem with the current readings.
pub fn check_current(c: &CurrentReadings) -> (r: Option<String>)
    ensures
        opt_view(r) == current_problem(*c),
{
    proof {
        reveal_with_fuel(first_problem, 8);
    }
    match c.weather_code {
        Reading::Absent => return Some(owned("Failed to get weather_code from values")),
        Reading::NotNumber => return Some(owned("Failed to convert weather_code to f64")),
        Reading::Value(_) => {},
    }
    match c.temperature {
        Reading::Absent => return Some(owned("Failed to get temperature_2m from values")),
        Reading::NotNumber => return Some(owned("Failed to convert temperature to f64")),
        Reading::Value(_) => {},
    }
    match c.dew_point {
        Reading::Absent => return Some(owned("Failed to get dew_point_2m from values")),
        Reading::NotNumber => return Some(owned("Failed to convert dew_point to f64")),
        Reading::Value(_) => {},
    }
    match c.wind_speed {
        Reading::Absent => return Some(owned("Failed to convert wind_speed to f64")),
        Reading::NotNumber => return Some(owned("Failed to convert wind_speed to f64")),
        Reading::Value(_) => {},
    }
    match c.wind_direction {
        Reading::Absent => return Some(owned("Failed to convert wind_direction_10m to f64")),
        Reading::NotNumber => return Some(owned("Failed to convert wind_direction_10m to f64")),
        Reading::Value(_) => {},
    }
    match c.humidity {
        Reading::Absent => return Some(owned("Failed to get relative_humidity_2m from values")),
        Reading::NotNumber => return Some(owned("Failed to convert relative_humidity_2m to f64")),
        Reading::Value(_) => {},
    }
    match c.pressure {
        Reading::Absent => return Some(owned("Failed to get surface_pressure from values")),
        Reading::NotNumber => return Some(owned("Failed to convert surface_pressure to f64")),
        Reading::Value(_) => {},
    }
    None
}

/// The forecast entry for one hour, or why it cannot be made.
pub fn hourly_entry_from(h: &HourlyReadings) -> (r: Result<HourlyForecastEntry, String>)
    ensures
        match r {
            Ok(e) => hourly_entry_of(*h) == Ok::<HourlyForecastEntry, Seq<char>>(e),
            Err(m) => hourly_entry_of(*h) == Err::<HourlyForecastEntry, Seq<char>>(m@),
        },
{
    let t = match h.temperature {
        Some(t) => t,
        None => return Err(owned("Failed to get hourly temperature")),
    };
    let code = match h.weather_code {
        Some(c) => c,
        None => return Err(owned("Failed to get hourly weather_code")),
    };
    let ws = match h.wind_speed {
        Some(w) => w,
        None => return Err(owned("Failed to get hourly wind_speed")),
    };
    Ok(
        HourlyForecastEntry {
            time: h.time,
            temperature: t,
            weather_condition: WeatherCondition::from_wmo_code(code),
            precipitation_chance: h.precipitation_probability,
            wind_speed: ws,
            wind_deg: h.wind_direction,
            dew_point: h.dew_point,
            feels_like: h.apparent_temperature,
            humidity: h.humidity,
            pressure: h.pressure,
        },
    )
}

/// The forecast entries for a run of hours, or the problem with the first
/// hour that has one.
pub fn hourly_entries_from(hs: &Vec<HourlyReadings>) -> (r: Result<Vec<HourlyForecastEntry>, String>)
    ensures
        match r {
            Ok(v) => hourly_entries_of(hs@) == Ok::<Seq<HourlyForecastEntry>, Seq<char>>(v@),
            Err(m) => hourly_entries_of(hs@) == Err::<Seq<HourlyForecastEntry>, Seq<char>>(m@),
        },
{
    let mut out: Vec<HourlyForecastEntry> = Vec::new();
    let mut i: usize = 0;
    while i < hs.len()
        invariant
            i <= hs.len(),
            hourly_entries_of(hs@.take(i as int)) == Ok::<Seq<HourlyForecastEntry>, Seq<char>>(out@),
        decreases hs.len() - i,
    {
        assert(hs@.take(i + 1).drop_last() =~= hs@.take(i as int));
        assert(hs@.take(i + 1).last() == hs@[i as int]);
        match hourly_entry_from(&hs[i]) {
            Ok(e) => {
                out.push(e);
            },
            Err(m) => {
                proof {
                    lemma_hourly_error_sticks(hs@, i + 1);
                }
                return Err(m);
            },
        }
        i = i + 1;
    }
    assert(hs@.take(hs.len() as int) =~= hs@);
    Ok(out)
}

/// Once a prefix of the hours fails, every longer prefix fails the same way.
proof fn lemma_hourly_error_sticks(hs: Seq<HourlyReadings>, n: int)
    requires
        0 <= n <= hs.len(),
        hourly_entries_of(hs.take(n)) is Err,
    ensures
        hourly_entries_of(hs) == hourly_entries_of(hs.take(n)),
    decreases hs.len() - n,
{
    if n < hs.len() {
        assert(hs.take(n + 1).drop_last() =~= hs.take(n));
        lemma_hourly_error_sticks(hs, n + 1);
    } else {
        assert(hs.take(n) =~= hs);
    }
}

/// The lowest and highest known hourly temperatures.
pub fn temperature_range(hs: &Vec<HourlyReadings>) -> (r: (Option<i64>, Option<i64>))
    ensures
        r == (lowest_temperature(hs@), highest_temperature(hs@)),
{
    let mut lo: Option<i64> = None;
    let mut hi: Option<i64> = None;
    let mut i: usize = 0;
    while i < hs.len()
        invariant
            i <= hs.len(),
            lo == lowest_temperature(hs@.take(i as int)),
            hi == highest_temperature(hs@.take(i as int)),
        decreases hs.len() - i,
    {
        assert(hs@.take(i + 1).drop_last() =~= hs@.take(i as int));
        assert(hs@.take(i + 1).last() == hs@[i as int]);
        match hs[i].temperature {
            Some(t) => {
                lo = match lo {
                    Some(a) => Some(if t < a { t } else { a }),
                    None => Some(t),
                };
                hi = match hi {
                    Some(a) => Some(if t > a { t } else { a }),
                    None => Some(t),
                };
            },
            None => {},
        }
        i = i + 1;
    }
    assert(hs@.take(hs.len() as int) =~= hs@);
    (lo, hi)
}

/// The forecast entries of the days that have both a high and a low.
pub fn daily_entries_from(ds: &Vec<DailyReadings>) -> (v: Vec<DailyForecastEntry>)
    ensures
        v@ == daily_entries_of(ds@),
{
    let mut out: Vec<DailyForecastEntry> = Vec::new();
    let mut i: usize = 0;
    while i < ds.len()
        invariant
            i <= ds.len(),
            out@ == daily_entries_of(ds@.take(i as int)),
        decreases ds.len() - i,
    {
        assert(ds@.take(i + 1).drop_last() =~= ds@.take(i as int));
        assert(ds@.take(i + 1).last() == ds@[i as int]);
        let d = ds[i];
        match (d.temp_max, d.temp_min) {
            (Some(mx), Some(mn)) => {
                let condition = match d.weather_code {
                    Some(c) => WeatherCondition::from_wmo_code(c),
                    None => WeatherCondition::Unknown,
                };
                out.push(
                    DailyForecastEntry {
                        date: d.date,
                        weather_condition: condition,
                        temp_max: mx,
                        temp_min: mn,
                        precipitation_chance: d.precipitation_probability,
                    },
                );
            },
            _ => {},
        }
        i = i + 1;
    }
    assert(ds@.take(ds.len() as int) =~= ds@);
    out
}

/// The first sunrise (`sunrise` set) or sunset time of the days that is
/// known and marked valid.
pub fn first_valid_sun_time(ds: &Vec<DailyReadings>, valid: &Vec<bool>, sunrise: bool) -> (r: Option<i64>)
    requires
        valid.len() == ds.len(),
    ensures
        r == first_valid_time(
            if sunrise {
                sunrises(ds@)
            } else {
                sunsets(ds@)
            },
            valid@,
        ),
{
    let ghost times = if sunrise {
        sunrises(ds@)
    } else {
        sunsets(ds@)
    };
    let mut found: Option<i64> = None;
    let mut i: usize = 0;
    while i < ds.len()
        invariant
            i <= ds.len(),
            valid.len() == ds.len(),
            times == (if sunrise {
                sunrises(ds@)
            } else {
                sunsets(ds@)
            }),
            found == first_valid_time(times.take(i as int), valid@),
        decreases ds.len() - i,
    {
        assert(times.take(i + 1).drop_last() =~= times.take(i as int));
        assert(times.take(i + 1).last() == times[i as int]);
        let t = if sunrise {
            ds[i].sunrise
        } else {
            ds[i].sunset
        };
        assert(t == times[i as int]);
        if found.is_none() {
            if t.is_some() && valid[i] {
                found = t;
            }
        }
        i = i + 1;
    }
    assert(times.take(ds.len() as int) =~= times);
    found
}

/// Makes the report of a resolved place from the forecast service's
/// readings, given which sunrise and sunset times (by day) `chrono` accepts.
pub fn assemble_open_meteo_report(
    loc: ResolvedLocation,
    forecast: &ForecastReadings,
    sunrise_ok: &Vec<bool>,
    sunset_ok: &Vec<bool>,
) -> (res: Result<WeatherReport, WeatherApiError>)
    requires
        sunrise_ok.len() == days_of(*forecast).len(),
        sunset_ok.len() == days_of(*forecast).len(),
    ensures
        match res {
            Ok(r) => open_meteo_report(loc, *forecast, sunrise_ok@, sunset_ok@) == Ok::<
                ReportView,
                ErrorView,
            >(r@),
            Err(e) => open_meteo_report(loc, *forecast, sunrise_ok@, sunset_ok@) == Err::<
                ReportView,
                ErrorView,
            >(e@),
        },
{
    let c = match forecast.current {
        Some(c) => c,
        None => return Err(other_error("No current weather data found in Open-Meteo response")),
    };
    match check_current(&c) {
        Some(m) => return Err(WeatherApiError::Other(m)),
        None => {},
    }
    let empty_hours: Vec<HourlyReadings> = Vec::new();
    let hours: &Vec<HourlyReadings> = match &forecast.hourly {
        Some(v) => v,
        None => &empty_hours,
    };
    assert(hours@ == hours_of(*forecast));
    let hourly = match hourly_entries_from(hours) {
        Ok(v) => v,
        Err(m) => return Err(WeatherApiError::Other(m)),
    };
    let (lo, hi) = temperature_range(hours);
    let empty_days: Vec<DailyReadings> = Vec::new();
    let days: &Vec<DailyReadings> = match &forecast.daily {
        Some(v) => v,
        None => &empty_days,
    };
    assert(days@ == days_of(*forecast));
    let daily = daily_entries_from(days);
    let sunrise = first_valid_sun_time(days, sunrise_ok, true);
    let sunset = first_valid_sun_time(days, sunset_ok, false);
    let temperature = match c.temperature {
        Reading::Value(v) => v,
        _ => 0,
    };
    let dew_point = match c.dew_point {
        Reading::Value(v) => v,
        _ => 0,
    };
    let pressure = match c.pressure {
        Reading::Value(v) => v,
        _ => 0,
    };
    let humidity = match c.humidity {
        Reading::Value(v) => v,
        _ => 0,
    };
    let wind_speed = match c.wind_speed {
        Reading::Value(v) => v,
        _ => 0,
    };
    let wind_direction = match c.wind_direction {
        Reading::Value(v) => v,
        _ => 0,
    };
    let code = match c.weather_code {
        Reading::Value(v) => v,
        _ => 0,
    };
    let ghost loc0 = loc;
    let report = WeatherReport {
        city_name: Some(loc.name),
        state: loc.state,
        country: Some(loc.country_code),
        temperature,
        dew_point: Some(dew_point),
        feels_like: temperature,
        temp_min: lo,
        temp_max: hi,
        pressure: Some(pressure),
        humidity: Some(humidity),
        current_precipitation_chance: c.precipitation_probability,
        wind_speed,
        wind_deg: Some(wind_direction),
        sunrise,
        sunset,
        weather_condition: WeatherCondition::from_wmo_code(code),
        datetime: c.datetime,
        timezone_offset: loc.timezone_offset,
        latitude: loc.latitude,
        longitude: loc.longitude,
        daily_forecast: daily,
        hourly_forecast: hourly,
        metar: None,
        taf: None,
    };
    assert(hourly_entries_of(hours_of(*forecast)) == Ok::<Seq<HourlyForecastEntry>, Seq<char>>(
        hourly@,
    ));
    assert(current_problem(c) is None);
    proof {
        reveal_with_fuel(first_problem, 8);
    }
    assert(c.temperature is Value && c.dew_point is Value && c.pressure is Value && c.humidity is Value
        && c.wind_speed is Value && c.wind_direction is Value && c.weather_code is Value);
    assert(open_meteo_report(loc0, *forecast, sunrise_ok@, sunset_ok@) == Ok::<
        ReportView,
        ErrorView,
    >(report@));
    Ok(report)
}

/// The accepted-by-`chrono` flags of the days' sunrise (`sunrise` set) or
/// sunset times.
fn accepted_sun_times(ds: &Vec<DailyReadings>, sunrise: bool) -> (v: Vec<bool>)
    ensures
        v@ == accepted_times(
            if sunrise {
                sunrises(ds@)
            } else {
                sunsets(ds@)
            },
        ),
{
    let ghost times = if sunrise {
        sunrises(ds@)
    } else {
        sunsets(ds@)
    };
    let mut v: Vec<bool> = Vec::new();
    let mut i: usize = 0;
    while i < ds.len()
        invariant
            i <= ds.len(),
            times == (if sunrise {
                sunrises(ds@)
            } else {
                sunsets(ds@)
            }),
            v@ == accepted_times(times).take(i as int),
        decreases ds.len() - i,
    {
        let t = if sunrise {
            ds[i].sunrise
        } else {
            ds[i].sunset
        };
        assert(t == times[i as int]);
        let ok = match t {
            Some(ts) => timestamp_is_representable(ts),
            None => false,
        };
        v.push(ok);
        i = i + 1;
        assert(v@ =~= accepted_times(times).take(i as int));
    }
    assert(accepted_times(times).take(ds.len() as int) =~= accepted_times(times));
    v
}

/// Makes the report of a resolved place from the forecast service's
/// readings; a sunrise or sunset time is used only when `chrono` can
/// represent it.
pub fn build_open_meteo_report(loc: ResolvedLocation, forecast: &ForecastReadings) -> (res: Result<
    WeatherReport,
    WeatherApiError,
>)
    ensures
        ({
            let ok_rise = accepted_times(sunrises(days_of(*forecast)));
            let ok_set = accepted_times(sunsets(days_of(*forecast)));
            match res {
                Ok(r) => open_meteo_report(loc, *forecast, ok_rise, ok_set) == Ok::<
                    ReportView,
                    ErrorView,
                >(r@),
                Err(e) => open_meteo_report(loc, *forecast, ok_rise, ok_set) == Err::<
                    ReportView,
                    ErrorView,
                >(e@),
            }
        }),
{
    let empty_days: Vec<DailyReadings> = Vec::new();
    let days: &Vec<DailyReadings> = match &forecast.daily {
        Some(v) => v,
        None => &empty_days,
    };
    assert(days@ == days_of(*forecast));
    let rise = accepted_sun_times(days, true);
    let set = accepted_sun_times(days, false);
    assemble_open_meteo_report(loc, forecast, &rise, &set)
}

} // verus!
