use woofer::board::{board_url, join};
use woofer::stonk::find_min_max_i64;
use woofer::transcript::{decimal_string, format_pgn};
use woofer::weather::{convert_unit_to_symbol, emoji, weather_request, MetarResponse};

fn strings(items: &[&str]) -> Vec<String> {
    items.iter().map(|s| s.to_string()).collect()
}

#[test]
fn transcript_numbers_pairs() {
    assert_eq!(format_pgn(&strings(&["e4", "e5", "Nf3"])), "1. e4 e5 2. Nf3");
    assert_eq!(format_pgn(&strings(&[])), "");
    assert_eq!(format_pgn(&strings(&["d4"])), "1. d4");
    assert_eq!(format_pgn(&strings(&["e4", "e5"])), "1. e4 e5");
}

#[test]
fn transcript_reaches_two_digit_numbers() {
    let moves: Vec<String> = (0..20).map(|i| format!("m{i}")).collect();
    let pgn = format_pgn(&moves);
    assert!(pgn.starts_with("1. m0 m1 2. m2 m3"));
    assert!(pgn.ends_with("10. m18 m19"));
}

#[test]
fn decimal_digits() {
    assert_eq!(decimal_string(0), "0");
    assert_eq!(decimal_string(7), "7");
    assert_eq!(decimal_string(1234), "1234");
    assert_eq!(decimal_string(10), "10");
}

#[test]
fn board_url_keeps_the_placement() {
    assert_eq!(board_url("a/b w - -"), "https://chess.dllu.net/a/b.png");
    assert_eq!(board_url("8/8"), "https://chess.dllu.net/8/8.png");
    assert_eq!(board_url(""), "https://chess.dllu.net/.png");
}

#[test]
fn join_separates_items() {
    assert_eq!(join(&strings(&["a", "b", "c"]), ", "), "a, b, c");
    assert_eq!(join(&strings(&["a"]), ", "), "a");
    assert_eq!(join(&strings(&[]), ", "), "");
}

#[test]
fn min_max_skips_gaps() {
    assert_eq!(find_min_max_i64(&vec![Some(3), None, Some(-2), Some(9), None]), (Some(-2), Some(9)));
    assert_eq!(find_min_max_i64(&vec![None, None]), (None, None));
    assert_eq!(find_min_max_i64(&vec![]), (None, None));
    assert_eq!(find_min_max_i64(&vec![Some(5)]), (Some(5), Some(5)));
}

#[test]
fn unit_symbols() {
    assert_eq!(convert_unit_to_symbol("celsius"), "°C");
    assert_eq!(convert_unit_to_symbol("fahrenheit"), "°F");
    assert_eq!(convert_unit_to_symbol("kelvin"), "K");
    assert_eq!(convert_unit_to_symbol("rankine"), "K");
}

#[test]
fn icon_emojis() {
    assert_eq!(emoji("01d"), "☀️");
    assert_eq!(emoji("01n"), "🌃");
    assert_eq!(emoji("04d"), "⛅");
    assert_eq!(emoji("03n"), "☁️");
    assert_eq!(emoji("10d"), "🌧️");
    assert_eq!(emoji("11n"), "🌩️");
    assert_eq!(emoji("13d"), "🌨️");
    assert_eq!(emoji("50n"), "🌫️");
    assert_eq!(emoji("99x"), "");
}

#[test]
fn metar_is_set_as_code() {
    let m = MetarResponse { sanitized: "KSEA 121853Z 00000KT 10SM".to_string() };
    assert_eq!(m.text(), "`KSEA 121853Z 00000KT 10SM`");
}

#[test]
fn weather_request_units() {
    let pair = |u: &str, a: &str| (u.to_string(), a.to_string());
    assert_eq!(weather_request("celsius seattle"), pair("celsius", "seattle"));
    assert_eq!(weather_request("fahrenheit new york"), pair("fahrenheit", "new york"));
    assert_eq!(weather_request("kelvin paris"), pair("kelvin", "paris"));
    assert_eq!(weather_request("tokyo"), pair("kelvin", "tokyo"));
    assert_eq!(weather_request("celsiusville"), pair("kelvin", "celsiusville"));
    assert_eq!(weather_request("celsius"), pair("kelvin", "celsius"));
}
