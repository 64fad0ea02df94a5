use weather::iter::{DefaultIfEmpty, DefaultIter};
use weather::model::{parse_response, ApiResponse, Conditions, Coords, Weather, Wind};
use weather::number::{parse_i32, parse_milli};
use weather::present::{floor_div, int_string, WindDisplay};
use weather::query::{build_url, Args, Query, API_HOST};
use weather::report::{report, report_body};

const LONDON: &str = r#"{"name":"London","coord":{"lon":-0.13,"lat":51.51},"main":{"temp":288.15,"humidity":70,"pressure":1012,"temp_min":287,"temp_max":289},"wind":{"speed":4.1,"deg":200}}"#;

const NOT_FOUND: &str = r#"{"cod":"404","message":"city not found"}"#;

fn weather_at(temp: i64, speed: i64, deg: i64) -> Weather {
    Weather {
        name: "Here".to_string(),
        coords: Coords { lon: 0, lat: 0 },
        conditions: Conditions { temp, humidity: 50, pressure: 1_000_000, temp_min: temp, temp_max: temp },
        wind: Wind { speed, deg },
    }
}

fn label_at(deg: i64) -> &'static str {
    Wind { speed: 0, deg }.display().label()
}

#[test]
fn deserialize() {
    match parse_response(LONDON) {
        Ok(ApiResponse::Weather(_)) => {}
        _ => panic!("a report body did not decode to a report"),
    }
}

#[test]
fn url_for_city() {
    let url = build_url(API_HOST, "KEY", &Query::City("London"));
    assert_eq!(url, "http://api.openweathermap.org/data/2.5/weather?APPID=KEY&q=London");
}

#[test]
fn url_for_zip() {
    let url = build_url(API_HOST, "KEY", &Query::Zip("94040"));
    assert_eq!(url, "http://api.openweathermap.org/data/2.5/weather?APPID=KEY&zip=94040");
}

#[test]
fn url_for_id() {
    let url = build_url(API_HOST, "KEY", &Query::Id("2643743"));
    assert_eq!(url, "http://api.openweathermap.org/data/2.5/weather?APPID=KEY&id=2643743");
}

#[test]
fn url_has_one_location_parameter() {
    for q in [Query::City("Paris"), Query::Zip("75001"), Query::Id("2988507")] {
        let url = build_url(API_HOST, "abc", &q);
        let query = url.split('?').nth(1).unwrap();
        let params: Vec<&str> = query.split('&').collect();
        assert_eq!(params.len(), 2);
        assert_eq!(params[0], "APPID=abc");
        let n = ["q=", "zip=", "id="].iter().filter(|p| params[1].starts_with(**p)).count();
        assert_eq!(n, 1);
    }
}

#[test]
fn args_give_their_query() {
    let a = Args::Zip { zip: "10001".to_string() };
    match a.query() {
        Query::Zip(z) => assert_eq!(z, "10001"),
        _ => panic!("wrong variant"),
    }
    assert_eq!(Args::City { city: "Oslo".to_string() }.query().param(), "q=Oslo");
    assert_eq!(Args::Id { id: "7".to_string() }.query().param(), "id=7");
}

#[test]
fn report_body_decodes_fields() {
    match parse_response(LONDON) {
        Ok(ApiResponse::Weather(w)) => {
            assert_eq!(w.city(), "London");
            assert_eq!(w.coords.lon, -130);
            assert_eq!(w.coords.lat, 51_510);
            assert_eq!(w.conditions.temp, 288_150);
            assert_eq!(w.conditions.humidity, 70);
            assert_eq!(w.conditions.pressure, 1_012_000);
            assert_eq!(w.conditions.temp_min, 287_000);
            assert_eq!(w.conditions.temp_max, 289_000);
            assert_eq!(w.wind.speed, 4_100);
            assert_eq!(w.wind.deg, 200_000);
        }
        _ => panic!("a report body did not decode to a report"),
    }
}

#[test]
fn error_body_decodes_code() {
    match parse_response(NOT_FOUND) {
        Ok(ApiResponse::Error(e)) => {
            assert_eq!(e.code, 404);
            assert_eq!(e.message, "city not found");
            assert_eq!(e.text(), "404: city not found");
        }
        _ => panic!("an error body did not decode to an error"),
    }
}

#[test]
fn report_shape_wins_over_error_shape() {
    let body = r#"{"cod":"200","message":"ok","name":"Rome","coord":{"lon":12.5,"lat":41.9},"main":{"temp":300,"humidity":40,"pressure":1010,"temp_min":299,"temp_max":301},"wind":{"speed":1,"deg":90}}"#;
    assert!(matches!(parse_response(body), Ok(ApiResponse::Weather(_))));
}

#[test]
fn malformed_body_fails() {
    let body = r#"{"coord":{"lon":1,"lat":2},"message":"nothing"}"#;
    match parse_response(body) {
        Err(d) => assert_eq!(d.body, body),
        _ => panic!("a malformed body decoded"),
    }
}

#[test]
fn non_numeric_code_fails() {
    let body = r#"{"cod":"abc","message":"bad"}"#;
    assert!(parse_response(body).is_err());
}

#[test]
fn numeric_code_field_fails() {
    let body = r#"{"cod":404,"message":"bad"}"#;
    assert!(parse_response(body).is_err());
}

#[test]
fn text_that_is_no_json_fails() {
    match parse_response("not json") {
        Err(d) => assert_eq!(d.body, "not json"),
        _ => panic!("text that is no JSON decoded"),
    }
}

#[test]
fn freezing_point_in_fahrenheit() {
    let w = weather_at(273_150, 0, 0);
    assert_eq!(w.temperature(), 32_000);
}

#[test]
fn fahrenheit_rounds_down_below_zero() {
    let w = weather_at(0, 0, 0);
    assert_eq!(w.temperature(), -459_670);
    let w = weather_at(1, 0, 0);
    assert_eq!(w.temperature(), -459_669);
}

#[test]
fn compass_buckets_at_listed_directions() {
    assert_eq!(label_at(0), "N");
    assert_eq!(label_at(44_900), "NE");
    assert_eq!(label_at(45_000), "NE");
    assert_eq!(label_at(89_900), "E");
    assert_eq!(label_at(90_000), "E");
    assert_eq!(label_at(315_000), "NW");
    assert_eq!(label_at(359_900), "N");
}

#[test]
fn compass_boundary_belongs_to_lower_sector() {
    assert_eq!(label_at(22_500), label_at(0));
    assert_eq!(label_at(22_501), "NE");
    assert_eq!(label_at(337_500), "NW");
    assert_eq!(label_at(337_501), "N");
    assert_eq!(label_at(200_000), "S");
    assert_eq!(label_at(202_501), "SW");
}

#[test]
fn compass_reduces_directions_to_one_turn() {
    assert_eq!(label_at(360_000), "N");
    assert_eq!(label_at(450_000), "E");
    assert_eq!(label_at(-10_000), "N");
    assert_eq!(label_at(-90_000), "W");
    match (Wind { speed: 7, deg: -90_000 }).display() {
        WindDisplay::W(d, s) => {
            assert_eq!(d, 270_000);
            assert_eq!(s, 7);
        }
        _ => panic!("wrong sector"),
    }
}

#[test]
fn wind_text_converts_speed() {
    let w = Wind { speed: 4_100, deg: 0 };
    assert_eq!(w.display().text(), "Wind 2 mph N");
    let w = Wind { speed: 25_000, deg: 135_000 };
    assert_eq!(w.display().text(), "Wind 11 mph SE");
}

#[test]
fn end_to_end_report() {
    assert_eq!(report_body(LONDON), Ok("London\n59 °F\nWind 2 mph S".to_string()));
}

#[test]
fn end_to_end_error() {
    assert_eq!(report_body(NOT_FOUND), Err("404: city not found".to_string()));
}

#[test]
fn end_to_end_malformed() {
    assert_eq!(report_body("{}"), Err("bad response from server: {}".to_string()));
}

#[test]
fn report_of_a_decoded_response() {
    let resp = Ok(ApiResponse::Weather(weather_at(273_150, 0, 90_000)));
    assert_eq!(report(&resp), Ok("Here\n32 °F\nWind 0 mph E".to_string()));
}

#[test]
fn integers_read_from_text() {
    assert_eq!(parse_i32("404"), Some(404));
    assert_eq!(parse_i32("+7"), Some(7));
    assert_eq!(parse_i32("-2147483648"), Some(i32::MIN));
    assert_eq!(parse_i32("2147483648"), None);
    assert_eq!(parse_i32("0000000000000000000000012"), Some(12));
    assert_eq!(parse_i32(""), None);
    assert_eq!(parse_i32("-"), None);
    assert_eq!(parse_i32("4x"), None);
}

#[test]
fn thousandths_read_from_text() {
    assert_eq!(parse_milli("288.15"), Some(288_150));
    assert_eq!(parse_milli("-0.13"), Some(-130));
    assert_eq!(parse_milli("1012"), Some(1_012_000));
    assert_eq!(parse_milli("4.1239"), Some(4_123));
    assert_eq!(parse_milli("1012.0"), Some(1_012_000));
    assert_eq!(parse_milli("1e5"), None);
    assert_eq!(parse_milli(".5"), None);
    assert_eq!(parse_milli("5."), None);
    assert_eq!(parse_milli("999999999999"), Some(999_999_999_999_000));
    assert_eq!(parse_milli("1000000000000"), None);
}

#[test]
fn decimal_text_and_floor_division() {
    assert_eq!(int_string(0), "0");
    assert_eq!(int_string(-4590), "-4590");
    assert_eq!(int_string(1234567890), "1234567890");
    assert_eq!(floor_div(-7, 2), -4);
    assert_eq!(floor_div(7, 2), 3);
    assert_eq!(floor_div(-6, 3), -2);
}

#[test]
fn default_used_when_source_empty() {
    let it: DefaultIfEmpty<u32> = Vec::new().default(9);
    assert_eq!(it.collect_all(), vec![9]);
}

#[test]
fn default_dropped_when_source_has_items() {
    let mut it = vec![1u32, 2].default(9);
    assert_eq!(it.next(), Some(1));
    assert_eq!(it.next(), Some(2));
    assert_eq!(it.next(), None);
    assert_eq!(vec![3u32, 4].default(9).collect_all(), vec![3, 4]);
}

#[test]
fn default_yielded_once() {
    let mut it = DefaultIfEmpty::new(Vec::<u32>::new(), 5);
    assert_eq!(it.next(), Some(5));
    assert_eq!(it.next(), None);
}
