# cloudy_with_a_chance_of_rust

The verified core of a weather-station firmware for the ESP32-C6 with a
Waveshare 2.13" e-paper panel, which fetches the WeatherAPI.com forecast and
draws a summary.

- `src/` is the library, verified with Verus:
  - `condition_icons`: condition codes to icon names, day and night;
  - `weather`: the forecast document (decimal readings kept as the bit
    patterns of their binary64 values);
  - `dashboard`: the summary drawn on the panel;
  - `forecast_request`: the forecast URL, the HTTP status verdict and
    `WeatherError`;
  - `icon_bitmap`: icon lookup, BMP decoding (tinybmp) and the dots that
    draw an icon;
  - `schedule`: when to refresh the forecast and when to reconnect;
  - `seed`: the 64-bit seeds built from two random draws.
- `app/` is the firmware around it: peripherals, Wi-Fi, the HTTP exchange,
  JSON decoding with serde, and drawing on the panel.
- `tests/` runs the library on concrete values.
