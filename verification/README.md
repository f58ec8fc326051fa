# qwx

A terse, emoji-rich weather report for the terminal: current conditions,
daily and hourly forecasts from Open-Meteo, and raw METAR/TAF for aviation
stations from NOAA's Aviation Weather Center.

- `src/` is the library, verified with Verus: the report model
  (`model`), how single values are spelled (`fields`), the report layout,
  line wrapping, forecast packing and custom formats (`display`), provider
  choice, retries and the interpretation of the services' answers
  (`weather_api`), the command line's choices (`cli`), the settings
  (`config`), character-level text utilities (`text`), and the properties
  that hold across functions (`laws`). Calls into `regex`, `chrono` and
  `chrono-tz` stand behind the trusted items in `pattern` and `clock`.
- `app/` is the program around it: argument parsing, the configuration
  file, network access, and the conversion of the services' floating-point
  numbers into the library's fixed-point units (tenths of a degree,
  hundredths of a km/h, millionths of a degree).
- `tests/` runs the library on concrete reports.
