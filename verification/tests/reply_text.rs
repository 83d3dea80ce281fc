use weather_bot::decimal::{parse, render};
use weather_bot::reply::{reply_text, report};
use weather_bot::weather::{
    interpret, request_url, status_accepted, summarize, Exchange, Failure, Observation,
    WeatherSummary,
};

fn observation(conditions: &[&str], low: f64, high: f64, wind: f64) -> Observation {
    Observation {
        conditions: conditions.iter().map(|c| c.to_string()).collect(),
        temp_min: low as i32,
        temp_max: high as i32,
        wind_speed: wind as i32,
    }
}

fn decoded(json: &str) -> Option<Observation> {
    let value: serde_json::Value = serde_json::from_str(json).ok()?;
    let mut conditions = Vec::new();
    for entry in value.get("weather")?.as_array()? {
        conditions.push(entry.get("main")?.as_str()?.to_string());
    }
    let main = value.get("main")?;
    Some(Observation {
        conditions,
        temp_min: main.get("temp_min")?.as_f64()? as i32,
        temp_max: main.get("temp_max")?.as_f64()? as i32,
        wind_speed: value.get("wind")?.get("speed")?.as_f64()? as i32,
    })
}

#[test]
fn answer_of_the_service_is_reported_from_its_json() {
    let body = decoded(
        r#"{"weather":[{"main":"Clear"}],"main":{"temp_min":10.7,"temp_max":15.9},"wind":{"speed":12.3}}"#,
    );
    assert!(body.is_some());
    let outcome = interpret(&Exchange::Answered { status: 200, body });
    assert_eq!(
        reply_text(&outcome),
        "Today: Clear,\n                Low temperature: 10 \u{b0}C,\n                High temperature: 15 \u{b0}C,\n                Wind Speed: 12 km/h"
    );

    let body = decoded(r#"{"weather":[],"main":{"temp_min":1,"temp_max":2},"wind":{"speed":3}}"#);
    let outcome = interpret(&Exchange::Answered { status: 200, body });
    assert_eq!(outcome.unwrap().condition, "Unknown");

    let body = decoded(r#"{"cod":"404","message":"city not found"}"#);
    assert!(body.is_none());
    assert_eq!(interpret(&Exchange::Answered { status: 200, body }), Err(Failure::ParseError));
}

#[test]
fn london_report_lists_condition_and_truncated_numbers_in_order() {
    let obs = observation(&["Clear"], 10.7, 15.9, 12.3);
    let outcome = interpret(&Exchange::Answered { status: 200, body: Some(obs) });
    let text = reply_text(&outcome);
    assert_eq!(
        text,
        "Today: Clear,\n                Low temperature: 10 \u{b0}C,\n                High temperature: 15 \u{b0}C,\n                Wind Speed: 12 km/h"
    );
    let clear = text.find("Clear").unwrap();
    let low = text.find("10").unwrap();
    let high = text.find("15").unwrap();
    let wind = text.find("12").unwrap();
    assert!(clear < low && low < high && high < wind);
}

#[test]
fn report_has_four_lines_with_fixed_labels() {
    let summary = WeatherSummary {
        condition: "Rain".to_string(),
        temp_min_c: 3,
        temp_max_c: 8,
        wind_speed_kmh: 40,
    };
    let text = report(&summary);
    let lines: Vec<&str> = text.split('\n').collect();
    assert_eq!(lines.len(), 4);
    assert_eq!(lines[0], "Today: Rain,");
    assert_eq!(lines[1], "                Low temperature: 3 \u{b0}C,");
    assert_eq!(lines[2], "                High temperature: 8 \u{b0}C,");
    assert_eq!(lines[3], "                Wind Speed: 40 km/h");
}

#[test]
fn report_matches_the_formatting_of_the_standard_library() {
    for (low, high, wind) in [(-40, -1, 0), (0, 0, 0), (i32::MIN, i32::MAX, 7), (9, 10, 11)] {
        let summary = WeatherSummary {
            condition: "Snow".to_string(),
            temp_min_c: low,
            temp_max_c: high,
            wind_speed_kmh: wind,
        };
        let expected = format!(
            "Today: {},\n                Low temperature: {} \u{b0}C,\n                High temperature: {} \u{b0}C,\n                Wind Speed: {} km/h",
            "Snow", low, high, wind
        );
        assert_eq!(report(&summary), expected);
        assert_eq!(reply_text(&Ok(summary)), expected);
    }
}

#[test]
fn negative_readings_are_cut_towards_zero() {
    let obs = observation(&["Snow"], -3.7, -0.2, 0.9);
    let summary = summarize(&obs);
    assert_eq!(summary.temp_min_c, -3);
    assert_eq!(summary.temp_max_c, 0);
    assert_eq!(summary.wind_speed_kmh, 0);
    assert_eq!(
        report(&summary),
        "Today: Snow,\n                Low temperature: -3 \u{b0}C,\n                High temperature: 0 \u{b0}C,\n                Wind Speed: 0 km/h"
    );
}

#[test]
fn not_found_status_gives_the_failure_text() {
    let outcome = interpret(&Exchange::Answered { status: 404, body: None });
    assert_eq!(outcome, Err(Failure::UpstreamError(404)));
    assert_eq!(reply_text(&outcome), "No city or incorrect spelling");
}

#[test]
fn every_failure_gives_the_same_text() {
    for failure in [
        Failure::TransportError,
        Failure::UpstreamError(404),
        Failure::UpstreamError(500),
        Failure::UpstreamError(0),
        Failure::ParseError,
    ] {
        assert_eq!(reply_text(&Err(failure)), "No city or incorrect spelling");
    }
}

#[test]
fn empty_condition_list_reports_unknown() {
    let obs = observation(&[], 1.0, 2.0, 3.0);
    let summary = summarize(&obs);
    assert_eq!(summary.condition, "Unknown");
    let outcome = interpret(&Exchange::Answered { status: 200, body: Some(obs) });
    assert_eq!(outcome.unwrap().condition, "Unknown");
}

#[test]
fn first_condition_is_the_primary_one() {
    let obs = observation(&["Mist", "Rain", "Clear"], 1.0, 2.0, 3.0);
    assert_eq!(summarize(&obs).condition, "Mist");
}

#[test]
fn empty_label_is_kept_as_it_is() {
    let obs = observation(&[""], 1.0, 2.0, 3.0);
    assert_eq!(summarize(&obs).condition, "");
}

#[test]
fn unreachable_service_is_a_transport_error() {
    assert_eq!(interpret(&Exchange::Unreachable), Err(Failure::TransportError));
}

#[test]
fn undecoded_answer_is_a_parse_error() {
    assert_eq!(
        interpret(&Exchange::Answered { status: 200, body: None }),
        Err(Failure::ParseError)
    );
}

#[test]
fn status_outside_success_wins_over_a_decoded_body() {
    let obs = observation(&["Clear"], 1.0, 2.0, 3.0);
    assert_eq!(
        interpret(&Exchange::Answered { status: 500, body: Some(obs) }),
        Err(Failure::UpstreamError(500))
    );
}

#[test]
fn successful_answer_gives_the_summary() {
    let obs = observation(&["Clouds"], 4.2, 9.9, 21.5);
    let outcome = interpret(&Exchange::Answered { status: 204, body: Some(obs) });
    assert_eq!(
        outcome,
        Ok(WeatherSummary {
            condition: "Clouds".to_string(),
            temp_min_c: 4,
            temp_max_c: 9,
            wind_speed_kmh: 21,
        })
    );
}

#[test]
fn success_is_the_range_from_200_to_299() {
    assert!(!status_accepted(0));
    assert!(!status_accepted(199));
    assert!(status_accepted(200));
    assert!(status_accepted(204));
    assert!(status_accepted(299));
    assert!(!status_accepted(300));
    assert!(!status_accepted(404));
    assert!(!status_accepted(u16::MAX));
    for status in 0..=u16::MAX {
        assert_eq!(status_accepted(status), (200..300).contains(&status));
    }
}

#[test]
fn request_url_sets_city_and_key_between_fixed_parts() {
    assert_eq!(
        request_url("London", "abc123"),
        "https://api.openweathermap.org/data/2.5/weather?q=London&units=metric&appid=abc123"
    );
}

#[test]
fn request_url_passes_special_characters_through() {
    assert_eq!(
        request_url("New York&x=1", "k y"),
        "https://api.openweathermap.org/data/2.5/weather?q=New York&x=1&units=metric&appid=k y"
    );
    assert_eq!(
        request_url("", ""),
        "https://api.openweathermap.org/data/2.5/weather?q=&units=metric&appid="
    );
    assert_eq!(
        request_url("Z\u{fc}rich", "k"),
        "https://api.openweathermap.org/data/2.5/weather?q=Z\u{fc}rich&units=metric&appid=k"
    );
}

#[test]
fn render_writes_decimal_notation() {
    assert_eq!(render(0), "0");
    assert_eq!(render(7), "7");
    assert_eq!(render(10), "10");
    assert_eq!(render(-1), "-1");
    assert_eq!(render(1000), "1000");
    assert_eq!(render(i32::MAX), "2147483647");
    assert_eq!(render(i32::MIN), "-2147483648");
    for n in (-2000..2000).chain([i32::MIN + 1, i32::MAX - 1, 99999, -100000]) {
        assert_eq!(render(n), n.to_string());
    }
}

#[test]
fn parse_reads_what_the_standard_library_reads() {
    let samples = [
        "", "+", "-", "0", "+0", "-0", "7", "+7", "-7", "007", "+007", "12a", "a12", " 12",
        "12 ", "1_000", "1.0", "++1", "+-1", "18446744073709551615", "18446744073709551616",
        "+18446744073709551615", "99999999999999999999", "000000000000000000000000000001",
        "184467440737095516150", "\u{ff11}\u{ff12}", "1\u{e9}", "\u{e9}", "1124137839601406013",
        "channel_id not found",
    ];
    for text in samples {
        assert_eq!(parse(text), text.parse::<u64>().ok(), "{:?}", text);
    }
    assert_eq!(parse("42"), Some(42));
    assert_eq!(parse("+42"), Some(42));
    assert_eq!(parse("18446744073709551615"), Some(u64::MAX));
    assert_eq!(parse("18446744073709551616"), None);
    assert_eq!(parse(""), None);
    assert_eq!(parse("+"), None);
}

#[test]
fn parse_reads_back_what_render_writes() {
    for n in [0, 1, 9, 10, 11, 99, 100, 12345, i32::MAX] {
        assert_eq!(parse(&render(n)), Some(n as u64));
    }
    assert_eq!(parse(&render(-1)), None);
}
