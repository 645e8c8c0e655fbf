use cloudy_with_a_chance_of_rust::forecast_request::{
    check_status, forecast_url, WeatherError, FORECAST_ENDPOINT,
};
use reqwless::response::StatusCode;

#[test]
fn url_is_endpoint_followed_by_key() {
    let url = forecast_url("abc123");
    assert_eq!(
        url,
        "https://api.weatherapi.com/v1/forecast.json?q=Montreal&days=1&aqi=no&alerts=no&key=abc123"
    );
    assert!(url.starts_with(FORECAST_ENDPOINT));
    assert_eq!(&url[FORECAST_ENDPOINT.len()..], "abc123");
}

#[test]
fn url_with_empty_key_is_the_endpoint() {
    assert_eq!(forecast_url(""), FORECAST_ENDPOINT);
}

#[test]
fn success_statuses_pass() {
    assert!(check_status(StatusCode(200)).is_ok());
    assert!(check_status(StatusCode(204)).is_ok());
    assert!(check_status(StatusCode(299)).is_ok());
}

#[test]
fn other_statuses_are_reported() {
    for code in [0u16, 100, 199, 300, 301, 401, 404, 500, 503, u16::MAX] {
        match check_status(StatusCode(code)) {
            Err(WeatherError::HttpStatus(status)) => assert_eq!(status, StatusCode(code)),
            other => panic!("unexpected {:?} for {}", other, code),
        }
    }
}

#[test]
fn http_errors_convert_to_http_variant() {
    let e: WeatherError = reqwless::Error::Dns.into();
    assert!(matches!(e, WeatherError::Http(reqwless::Error::Dns)));
    let e = WeatherError::from(reqwless::Error::BufferTooSmall);
    assert!(matches!(e, WeatherError::Http(reqwless::Error::BufferTooSmall)));
}

#[test]
fn json_errors_convert_to_json_variant() {
    let json_error = serde_json::from_str::<u8>("not json").unwrap_err();
    let line = json_error.line();
    let e = WeatherError::from(json_error);
    match e {
        WeatherError::Json(inner) => assert_eq!(inner.line(), line),
        other => panic!("unexpected {:?}", other),
    }
}
