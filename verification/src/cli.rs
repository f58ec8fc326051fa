//! What the command line asks for: which forecast to show, how many
//! entries of it, and the report text that answers.
use vstd::prelude::*;
use vstd::string::StringExecFns;
use crate::text::{chars_of, join, join_strings, owned, str_equal, string_views};
use crate::model::{HourlyForecastEntry, ReportView, WeatherReport};
use crate::display::{report_line_strings, report_lines};
use crate::weather_api::{is_aviation_location, looks_like_aviation_id};

verus! {

/// Whether `c` is an ASCII decimal digit.
pub open spec fn is_ascii_digit(c: char) -> bool {
    48 <= c as u32 <= 57
}

/// The value of a run of ASCII digits.
pub open spec fn decimal_value(s: Seq<char>) -> nat
    decreases s.len(),
{
    if s.len() == 0 {
        0
    } else {
        decimal_value(s.drop_last()) * 10 + (s.last() as u32 - 48) as nat
    }
}

/// What `str::parse::<u8>` gives: an optional `+` followed by at least one
/// ASCII digit, with a value of at most 255.
pub open spec fn parsed_u8(s: Seq<char>) -> Option<u8> {
    let body = sign_stripped(s);
    if body.len() > 0 && (forall|i: int| 0 <= i < body.len() ==> is_ascii_digit(#[trigger] body[i]))
        && decimal_value(body) <= 255 {
        Some(decimal_value(body) as u8)
    } else {
        None
    }
}

/// `s` without a leading `+`.
pub open spec fn sign_stripped(s: Seq<char>) -> Seq<char> {
    if s.len() > 0 && s[0] == '+' {
        s.drop_first()
    } else {
        s
    }
}

/// Parses a count (`str::parse::<u8>`).
pub fn parse_u8(s: &str) -> (r: Option<u8>)
    ensures
        r == parsed_u8(s@),
{
    let v = chars_of(s);
    let start: usize = if v.len() > 0 && v[0] == '+' {
        1
    } else {
        0
    };
    let ghost body = sign_stripped(s@);
    assert(body =~= v@.skip(start as int));
    if start >= v.len() {
        return None;
    }
    let mut value: u32 = 0;
    let mut all_digits = true;
    let mut i: usize = start;
    while i < v.len()
        invariant
            start <= i <= v.len(),
            body == v@.skip(start as int),
            all_digits == (forall|k: int| 0 <= k < i - start ==> is_ascii_digit(#[trigger] body[k])),
            all_digits ==> value == if decimal_value(body.take(i - start)) < 256 {
                decimal_value(body.take(i - start))
            } else {
                256
            },
        decreases v.len() - i,
    {
        let c = v[i];
        let u = c as u32;
        assert(body[i - start] == c);
        assert(body.take(i - start + 1).drop_last() =~= body.take(i - start));
        if 48 <= u && u <= 57 {
            if all_digits {
                let next: u32 = value * 10 + (u - 48);
                value = if next < 256 {
                    next
                } else {
                    256
                };
            }
        } else {
            all_digits = false;
        }
        i = i + 1;
    }
    assert(body.take(v.len() - start) =~= body);
    assert(body.len() == v.len() - start);
    assert(all_digits == (forall|k: int| 0 <= k < body.len() ==> is_ascii_digit(#[trigger] body[k])));
    if all_digits && value <= 255 {
        assert(decimal_value(body) <= 255);
        assert(parsed_u8(s@) == Some(decimal_value(body) as u8));
        Some(value as u8)
    } else {
        if all_digits {
            assert(value == 256);
            assert(decimal_value(body) >= 256);
            assert(parsed_u8(s@) is None);
        } else {
            proof {
                let k = choose|k: int| 0 <= k < body.len() && !is_ascii_digit(#[trigger] body[k]);
                assert(!is_ascii_digit(sign_stripped(s@)[k]));
            }
            assert(parsed_u8(s@) is None);
        }
        None
    }
}

/// What the command line asks to be shown.
#[derive(PartialEq, Eq, Structural, Clone, Copy, Debug)]
pub struct DisplayChoice {
    /// Show the TAF of an aviation station.
    pub show_taf: bool,
    /// Show this many hours of the hourly forecast.
    pub hourly_count: Option<u8>,
    /// Show this many days of the daily forecast.
    pub daily_count: Option<u8>,
}

/// The count given after the forecast kind, or `default` when none is
/// given or it is no count.
pub open spec fn count_or(args: Seq<Seq<char>>, default: u8) -> u8 {
    if args.len() > 1 {
        match parsed_u8(args[1]) {
            Some(n) => n,
            None => default,
        }
    } else {
        default
    }
}

/// What the forecast arguments `args` (the values after `-f`, if `-f` was
/// given) ask for, given the `-t` flag and whether the location is an
/// aviation identifier: `h [count]` hours (12 by default), `d [count]` days
/// (7 by default); for an aviation identifier, anything else asks for the
/// TAF; for other locations, anything else is refused.
pub open spec fn chosen_display(args: Option<Seq<Seq<char>>>, taf: bool, aviation: bool) -> Result<
    DisplayChoice,
    Seq<char>,
> {
    match args {
        None => Ok(DisplayChoice { show_taf: taf, hourly_count: None, daily_count: None }),
        Some(a) => if a.len() == 0 {
            if aviation {
                Ok(DisplayChoice { show_taf: true, hourly_count: None, daily_count: None })
            } else {
                Err("Please specify 'h' (hourly) or 'd' (daily) for the forecast, e.g., -f h 12"@)
            }
        } else if a[0] == "h"@ {
            Ok(DisplayChoice { show_taf: taf, hourly_count: Some(count_or(a, 12)), daily_count: None })
        } else if a[0] == "d"@ {
            Ok(DisplayChoice { show_taf: taf, hourly_count: None, daily_count: Some(count_or(a, 7)) })
        } else if aviation {
            Ok(DisplayChoice { show_taf: true, hourly_count: None, daily_count: None })
        } else {
            Err("Invalid forecast option: '"@ + a[0] + "'. Use 'h' or 'd'."@)
        },
    }
}

/// The count after the forecast kind, or `default`.
fn count_from(args: &Vec<String>, default: u8) -> (n: u8)
    ensures
        n == count_or(string_views(args@), default),
{
    if args.len() > 1 {
        match parse_u8(args[1].as_str()) {
            Some(n) => n,
            None => default,
        }
    } else {
        default
    }
}

/// Decides what the forecast arguments ask for (see `chosen_display`),
/// given whether the location is an aviation identifier.
pub fn forecast_choice(args: Option<&Vec<String>>, taf: bool, aviation: bool) -> (r: Result<
    DisplayChoice,
    String,
>)
    ensures
        match r {
            Ok(c) => chosen_display(
                match args {
                    Some(a) => Some(string_views(a@)),
                    None => None,
                },
                taf,
                aviation,
            ) == Ok::<DisplayChoice, Seq<char>>(c),
            Err(m) => chosen_display(
                match args {
                    Some(a) => Some(string_views(a@)),
                    None => None,
                },
                taf,
                aviation,
            ) == Err::<DisplayChoice, Seq<char>>(m@),
        },
{
    match args {
        None => Ok(DisplayChoice { show_taf: taf, hourly_count: None, daily_count: None }),
        Some(a) => {
            if a.len() == 0 {
                if aviation {
                    Ok(DisplayChoice { show_taf: true, hourly_count: None, daily_count: None })
                } else {
                    Err(
                        owned(
                            "Please specify 'h' (hourly) or 'd' (daily) for the forecast, e.g., -f h 12",
                        ),
                    )
                }
            } else if str_equal(a[0].as_str(), "h") {
                Ok(
                    DisplayChoice {
                        show_taf: taf,
                        hourly_count: Some(count_from(a, 12)),
                        daily_count: None,
                    },
                )
            } else if str_equal(a[0].as_str(), "d") {
                Ok(
                    DisplayChoice {
                        show_taf: taf,
                        hourly_count: None,
                        daily_count: Some(count_from(a, 7)),
                    },
                )
            } else if aviation {
                Ok(DisplayChoice { show_taf: true, hourly_count: None, daily_count: None })
            } else {
                let mut m = String::new();
                m.append("Invalid forecast option: '");
                m.append(a[0].as_str());
                m.append("'. Use 'h' or 'd'.");
                Err(m)
            }
        },
    }
}

/// Decides what the forecast arguments ask for, for `location`.
pub fn forecast_choice_for(location: &str, args: Option<&Vec<String>>, taf: bool) -> (r: Result<
    DisplayChoice,
    String,
>)
    ensures
        match r {
            Ok(c) => chosen_display(
                match args {
                    Some(a) => Some(string_views(a@)),
                    None => None,
                },
                taf,
                looks_like_aviation_id(location@),
            ) == Ok::<DisplayChoice, Seq<char>>(c),
            Err(m) => chosen_display(
                match args {
                    Some(a) => Some(string_views(a@)),
                    None => None,
                },
                taf,
                looks_like_aviation_id(location@),
            ) == Err::<DisplayChoice, Seq<char>>(m@),
        },
{
    let aviation = is_aviation_location(location);
    forecast_choice(args, taf, aviation)
}


/// The hours of the forecast strictly after the instant `t`, in order.
pub open spec fn hours_after(hs: Seq<HourlyForecastEntry>, t: i64) -> Seq<HourlyForecastEntry>
    decreases hs.len(),
{
    if hs.len() == 0 {
        seq![]
    } else {
        let prev = hours_after(hs.drop_last(), t);
        if hs.last().time > t {
            prev.push(hs.last())
        } else {
            prev
        }
    }
}

/// The first `n` items of `s` (all of them when there are fewer).
pub open spec fn first_n<T>(s: Seq<T>, n: nat) -> Seq<T> {
    if n < s.len() {
        s.take(n as int)
    } else {
        s
    }
}

/// The report cut down to what the command line asks for: the first
/// `daily_count` days, and the first `hourly_count` hours after the
/// report's own time.
pub open spec fn shown_report(r: ReportView, c: DisplayChoice) -> ReportView {
    ReportView {
        daily_forecast: match c.daily_count {
            Some(n) => first_n(r.daily_forecast, n as nat),
            None => r.daily_forecast,
        },
        hourly_forecast: match c.hourly_count {
            Some(n) => first_n(hours_after(r.hourly_forecast, r.datetime), n as nat),
            None => r.hourly_forecast,
        },
        ..r
    }
}

/// The lines printed for a report on the command line: the report's lines
/// as the choice asks, with a `Daily Forecast:` heading over the days.
pub open spec fn cli_lines(r: ReportView, c: DisplayChoice, custom: Option<Seq<char>>) -> Seq<Seq<char>> {
    let v = shown_report(r, c);
    let show_forecast = if r.metar is Some {
        c.show_taf
    } else {
        c.daily_count is Some
    };
    let lines = report_lines(v, show_forecast, c.hourly_count is Some, custom);
    if r.metar is None && c.daily_count is Some && v.daily_forecast.len() > 0 {
        lines.insert(1, "Daily Forecast:"@)
    } else {
        lines
    }
}

/// The hours of a forecast strictly after `t`.
fn upcoming_hours(hs: &Vec<HourlyForecastEntry>, t: i64) -> (v: Vec<HourlyForecastEntry>)
    ensures
        v@ == hours_after(hs@, t),
{
    let mut v: Vec<HourlyForecastEntry> = Vec::new();
    let mut i: usize = 0;
    while i < hs.len()
        invariant
            i <= hs.len(),
            v@ == hours_after(hs@.take(i as int), t),
        decreases hs.len() - i,
    {
        assert(hs@.take(i + 1).drop_last() =~= hs@.take(i as int));
        assert(hs@.take(i + 1).last() == hs@[i as int]);
        if hs[i].time > t {
            v.push(hs[i]);
        }
        i = i + 1;
    }
    assert(hs@.take(hs.len() as int) =~= hs@);
    v
}

/// The report text printed on the command line for `report`, as `choice`
/// asks.
pub fn render_cli_report(report: WeatherReport, choice: DisplayChoice, custom_format: Option<&String>) -> (out: String)
    ensures
        out@ == join(
            cli_lines(
                report@,
                choice,
                match custom_format {
                    Some(t) => Some(t@),
                    None => None,
                },
            ),
            "\n"@,
        ),
{
    let ghost r0 = report@;
    let mut report = report;
    match choice.daily_count {
        Some(n) => report.daily_forecast.truncate(n as usize),
        None => {},
    }
    match choice.hourly_count {
        Some(n) => {
            let mut hours = upcoming_hours(&report.hourly_forecast, report.datetime);
            hours.truncate(n as usize);
            report.hourly_forecast = hours;
        },
        None => {},
    }
    assert(report@ =~= shown_report(r0, choice));
    let show_forecast = if report.metar.is_some() {
        choice.show_taf
    } else {
        choice.daily_count.is_some()
    };
    let mut lines = report_line_strings(&report, show_forecast, choice.hourly_count.is_some(), custom_format);
    if report.metar.is_none() && choice.daily_count.is_some() && report.daily_forecast.len() > 0 {
        let ghost before = string_views(lines@);
        assert(before.len() >= 1);
        lines.insert(1, owned("Daily Forecast:"));
        assert(string_views(lines@) =~= before.insert(1, "Daily Forecast:"@));
    }
    join_strings(&lines, "\n")
}

} // verus!
