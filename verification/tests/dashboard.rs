use cloudy_with_a_chance_of_rust::dashboard::Dashboard;
use cloudy_with_a_chance_of_rust::weather::{
    Astro, Condition, Current, Day, DayForecast, Forecast, Location, Reading, WeatherData,
};

fn r(value: f64) -> Reading {
    Reading { bits: value.to_bits() }
}

fn condition(code: i64) -> Condition {
    Condition { text: "Sunny".to_string(), icon: "//cdn/113.png".to_string(), code }
}

fn day(min: f64, max: f64, rain_chance: i64, rain_mm: f64, snow_chance: i64, snow_cm: f64) -> Day {
    Day {
        maxtemp_c: r(max),
        maxtemp_f: r(max * 9.0 / 5.0 + 32.0),
        mintemp_c: r(min),
        mintemp_f: r(min * 9.0 / 5.0 + 32.0),
        avgtemp_c: r((min + max) / 2.0),
        avgtemp_f: r(0.0),
        maxwind_mph: r(5.0),
        maxwind_kph: r(8.0),
        totalprecip_mm: r(rain_mm),
        totalprecip_in: r(0.0),
        totalsnow_cm: r(snow_cm),
        avgvis_km: r(10.0),
        avgvis_miles: r(6.0),
        avghumidity: 70,
        daily_will_it_rain: 1,
        daily_chance_of_rain: rain_chance,
        daily_will_it_snow: 0,
        daily_chance_of_snow: snow_chance,
        condition: condition(1000),
        uv: r(3.0),
    }
}

fn astro() -> Astro {
    Astro {
        sunrise: "07:01 AM".to_string(),
        sunset: "04:30 PM".to_string(),
        moonrise: "01:00 PM".to_string(),
        moonset: "02:00 AM".to_string(),
        moon_phase: "Waxing Gibbous".to_string(),
        moon_illumination: 80,
        is_moon_up: 0,
        is_sun_up: 1,
    }
}

fn current(last_updated: &str) -> Current {
    Current {
        last_updated_epoch: 1_700_000_000,
        last_updated: last_updated.to_string(),
        temp_c: r(-3.5),
        temp_f: r(25.7),
        is_day: 1,
        condition: condition(1003),
        wind_mph: r(4.0),
        wind_kph: r(6.5),
        wind_degree: 270,
        wind_dir: "W".to_string(),
        pressure_mb: r(1015.0),
        pressure_in: r(29.97),
        precip_mm: r(0.0),
        precip_in: r(0.0),
        humidity: 80,
        cloud: 25,
        feelslike_c: r(-6.0),
        feelslike_f: r(21.0),
        windchill_c: r(-6.0),
        windchill_f: r(21.0),
        heatindex_c: r(-3.5),
        heatindex_f: r(25.7),
        dewpoint_c: r(-6.0),
        dewpoint_f: r(21.0),
        vis_km: r(10.0),
        vis_miles: r(6.0),
        uv: r(1.0),
        gust_mph: r(7.0),
        gust_kph: r(11.0),
        will_it_rain: 0,
        chance_of_rain: 0,
        will_it_snow: 0,
        chance_of_snow: 0,
        short_rad: r(0.0),
        diff_rad: r(0.0),
        dni: r(0.0),
        gti: r(0.0),
    }
}

fn location() -> Location {
    Location {
        name: "Montreal".to_string(),
        region: "Quebec".to_string(),
        country: "Canada".to_string(),
        lat: r(45.5),
        lon: r(-73.58),
        tz_id: "America/Toronto".to_string(),
        localtime_epoch: 1_700_000_100,
        localtime: "2023-11-14 17:15".to_string(),
    }
}

fn weather(days: Vec<Day>) -> WeatherData {
    let forecastday = days
        .into_iter()
        .enumerate()
        .map(|(i, day)| DayForecast {
            date: format!("2023-11-{}", 14 + i),
            date_epoch: 1_699_920_000 + 86_400 * i as i64,
            day,
            astro: astro(),
            hour: Vec::new(),
        })
        .collect();
    WeatherData {
        location: location(),
        current: current("2023-11-14 17:00"),
        forecast: Forecast { forecastday },
    }
}

#[test]
fn dashboard_summarises_the_first_day() {
    let data = weather(vec![
        day(-7.2, 1.4, 30, 2.5, 60, 4.0),
        day(10.0, 20.0, 90, 15.0, 0, 0.0),
    ]);
    let dashboard = Dashboard::from_weather_data(&data);
    assert_eq!(dashboard.last_update, "2023-11-14 17:00");
    assert_eq!(f64::from_bits(dashboard.min_temp.bits), -7.2);
    assert_eq!(f64::from_bits(dashboard.max_temp.bits), 1.4);
    assert_eq!(dashboard.chance_of_rain, 30);
    assert_eq!(f64::from_bits(dashboard.total_rain_mm.bits), 2.5);
    assert_eq!(dashboard.chance_of_snow, 60);
    assert_eq!(f64::from_bits(dashboard.total_snow_cm.bits), 4.0);
}

#[test]
fn dashboard_keeps_readings_bit_for_bit() {
    let data = weather(vec![day(-0.0, f64::MAX, 0, f64::MIN_POSITIVE, 100, 1e-300)]);
    let dashboard = Dashboard::from_weather_data(&data);
    assert_eq!(dashboard.min_temp, r(-0.0));
    assert_eq!(dashboard.max_temp, r(f64::MAX));
    assert_eq!(dashboard.total_rain_mm, r(f64::MIN_POSITIVE));
    assert_eq!(dashboard.total_snow_cm, r(1e-300));
    assert_eq!(dashboard.chance_of_rain, 0);
    assert_eq!(dashboard.chance_of_snow, 100);
}
