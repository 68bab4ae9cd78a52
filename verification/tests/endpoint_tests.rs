use binance_ws::endpoint::{compose_endpoint, stream_url, websocket_base};
use binance_ws::text::{contains_sub, str_eq};

#[test]
fn the_base_url_is_fixed() {
    assert_eq!(websocket_base(), "wss://fstream.binance.com/stream?streams=");
}

#[test]
fn the_suffix_is_appended_to_the_base() {
    assert_eq!(
        stream_url("btcusdt@aggTrade"),
        "wss://fstream.binance.com/stream?streams=btcusdt@aggTrade"
    );
    assert_eq!(stream_url(""), "wss://fstream.binance.com/stream?streams=");
}

#[test]
fn a_well_formed_composition_is_accepted() {
    let r = compose_endpoint("btcusdt@aggTrade/btcusdt@markPrice").unwrap();
    assert_eq!(
        r,
        "wss://fstream.binance.com/stream?streams=btcusdt@aggTrade/btcusdt@markPrice"
    );
}

#[test]
fn substring_search_finds_markers() {
    assert!(contains_sub("abcdef", "cde"));
    assert!(contains_sub("abcdef", ""));
    assert!(contains_sub("abcdef", "abcdef"));
    assert!(!contains_sub("abcdef", "abcdefg"));
    assert!(!contains_sub("abcdef", "ace"));
    assert!(contains_sub("btcusdt@markPrice@1s", "markPrice"));
}

#[test]
fn string_equality_is_by_characters() {
    assert!(str_eq("stream", "stream"));
    assert!(!str_eq("stream", "streams"));
    assert!(!str_eq("B", "b"));
    assert!(str_eq("", ""));
}
