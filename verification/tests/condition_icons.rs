use cloudy_with_a_chance_of_rust::condition_icons::{icon_for, icon_for_with_day};

const ICON_SET: [&str; 17] = [
    "sunny",
    "nights_stay",
    "partly_cloudy_day",
    "partly_cloudy_night",
    "cloud",
    "air",
    "mist",
    "rainy_light",
    "rainy",
    "rainy_heavy",
    "rainy_snow",
    "snowing",
    "snowing_heavy",
    "weather_mix",
    "weather_hail",
    "thunderstorm",
    "foggy",
];

#[test]
fn clear_sky_has_day_and_night_icons() {
    assert_eq!(icon_for_with_day(1000, 1), "sunny");
    assert_eq!(icon_for_with_day(1000, 0), "nights_stay");
    assert_eq!(icon_for(1000), "sunny");
}

#[test]
fn partly_cloudy_has_day_and_night_icons() {
    assert_eq!(icon_for_with_day(1003, 1), "partly_cloudy_day");
    assert_eq!(icon_for_with_day(1003, 0), "partly_cloudy_night");
    assert_eq!(icon_for(1003), "partly_cloudy_day");
}

#[test]
fn one_code_of_each_group() {
    assert_eq!(icon_for(1006), "cloud");
    assert_eq!(icon_for(1009), "cloud");
    assert_eq!(icon_for(1012), "air");
    assert_eq!(icon_for(1048), "air");
    assert_eq!(icon_for(1030), "mist");
    assert_eq!(icon_for(1063), "rainy_light");
    assert_eq!(icon_for(1066), "snowing");
    assert_eq!(icon_for(1069), "weather_mix");
    assert_eq!(icon_for(1072), "rainy_snow");
    assert_eq!(icon_for(1087), "thunderstorm");
    assert_eq!(icon_for(1117), "snowing_heavy");
    assert_eq!(icon_for(1135), "foggy");
    assert_eq!(icon_for(1147), "foggy");
    assert_eq!(icon_for(1189), "rainy");
    assert_eq!(icon_for(1195), "rainy_heavy");
    assert_eq!(icon_for(1237), "weather_hail");
    assert_eq!(icon_for(1264), "weather_hail");
    assert_eq!(icon_for(1282), "thunderstorm");
}

#[test]
fn unknown_codes_fall_back_to_cloud() {
    assert_eq!(icon_for(0), "cloud");
    assert_eq!(icon_for(-1), "cloud");
    assert_eq!(icon_for(1001), "cloud");
    assert_eq!(icon_for(9999), "cloud");
    assert_eq!(icon_for(i64::MIN), "cloud");
    assert_eq!(icon_for(i64::MAX), "cloud");
    assert_eq!(icon_for_with_day(1001, 0), "cloud");
}

#[test]
fn day_flag_only_matters_for_clear_and_partly_cloudy() {
    for code in 990..1300 {
        if code != 1000 && code != 1003 {
            assert_eq!(icon_for_with_day(code, 0), icon_for(code));
            assert_eq!(icon_for_with_day(code, 1), icon_for(code));
        }
    }
}

#[test]
fn daylight_agrees_with_plain_mapping() {
    for code in 990..1300 {
        for is_day in [1, 2, -1, i64::MAX] {
            assert_eq!(icon_for_with_day(code, is_day), icon_for(code));
        }
    }
}

#[test]
fn every_code_maps_into_the_icon_set() {
    for code in 990..1300 {
        assert!(ICON_SET.contains(&icon_for(code)));
        assert!(ICON_SET.contains(&icon_for_with_day(code, 0)));
        assert!(ICON_SET.contains(&icon_for_with_day(code, 1)));
    }
}
