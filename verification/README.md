# weather_station

Library and collecting server of a DIY weather station (a Raspberry Pi Pico
with I2C and analog sensors, polled over HTTP by a server that stores the
readings in InfluxDB and forwards them to PWSWeather).

- `src/` is verified with Verus:
  - `payloads`: the per-sensor payloads, the UV conversion, the gas index and their log text.
  - `errors`: bus, driver and sensor-set errors, how they convert, and their log text.
  - `readings`: assembling one round of readings, first failure first.
  - `light`: enabling the TSL2591 light sensor and its gain search.
  - `dfu`: how a firmware update ends, why it fails, and the text of a failure.
  - `flash_task`, `upload`: the flash task and the upload endpoint of a
    firmware update as state machines.
  - `dfu_task`: the flash task with its pipe buffer, and what its writes
    leave in the update partition.
  - `schedule`: polling alignment and the once-a-minute PWSWeather rule.
  - `config`: the server configuration, the station URL and the PWSWeather update URL.
  - `formats`: URL and date text from the `url` (through `reqwest`) and `chrono` crates.
  - `station`: lightning and rain gauges, and the web server's state.
  - `text`: decimal text of integers for log messages.
- `app/` is the collecting server: configuration file, HTTP polling,
  InfluxDB and PWSWeather requests, and the floating-point unit conversions.
- `tests/` exercises the library on concrete values.
