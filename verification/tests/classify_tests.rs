use binance_ws::classify::classify_frame;
use binance_ws::errors::WsError;
use binance_ws::events::WebsocketEvent;

#[test]
fn mark_price_envelope_classifies_as_funding() {
    let msg = r#"{"stream":"btcusdt@markPrice","data":{"e":"markPriceUpdate","s":"BTCUSDT","p":"50000.17","extra":7}}"#;
    let r = classify_frame(msg).unwrap().unwrap();
    match r {
        WebsocketEvent::FuturesFunding(f) => {
            assert_eq!(f.event_type, "markPriceUpdate");
            assert_eq!(f.symbol, "BTCUSDT");
            assert_eq!(f.mark_price, "50000.17");
        }
        _ => panic!("expected a funding event"),
    }
}

#[test]
fn book_ticker_keys_beat_marker_substrings() {
    // The payload holds all six keys and the raw text also embeds the
    // "kline" marker in an unrelated field: the structural rule must win.
    let msg = r#"{"stream":"bnbusdt@bookTicker","data":{"u":400900217,"s":"BNBUSDT","b":"25.35190000","B":"31.21000000","a":"25.36520000","A":"40.66000000","note":"kline"}}"#;
    let r = classify_frame(msg).unwrap().unwrap();
    match r {
        WebsocketEvent::BookTicker(b) => {
            assert_eq!(b.update_id, 400900217);
            assert_eq!(b.symbol, "BNBUSDT");
            assert_eq!(b.best_bid, "25.35190000");
            assert_eq!(b.best_bid_qty, "31.21000000");
            assert_eq!(b.best_ask, "25.36520000");
            assert_eq!(b.best_ask_qty, "40.66000000");
        }
        _ => panic!("expected a book ticker event"),
    }
}

#[test]
fn unstructured_data_slot_yields_no_event_and_no_error() {
    assert_eq!(classify_frame(r#"{"stream":"x@y","data":5}"#), Ok(None));
    assert_eq!(classify_frame(r#"{"stream":"x@y","data":"pong"}"#), Ok(None));
}

#[test]
fn bare_unstructured_payload_yields_no_event_and_no_error() {
    assert_eq!(classify_frame(r#""ping""#), Ok(None));
    assert_eq!(classify_frame("7"), Ok(None));
    assert_eq!(classify_frame("null"), Ok(None));
}

#[test]
fn classifying_the_same_frame_twice_gives_equal_results() {
    let msg = r#"{"stream":"btcusdt@aggTrade","data":{"e":"aggTrade","s":"BTCUSDT","p":"50000.00"}}"#;
    let first = classify_frame(msg);
    let second = classify_frame(msg);
    assert_eq!(first, second);
    let bad = "{not json";
    assert_eq!(classify_frame(bad), classify_frame(bad));
}

#[test]
fn agg_trade_envelope_decodes_to_trade() {
    let msg = r#"{"stream":"btcusdt@aggTrade","data":{"e":"aggTrade","s":"BTCUSDT","p":"50000.00"}}"#;
    let r = classify_frame(msg).unwrap().unwrap();
    match r {
        WebsocketEvent::Trade(t) => {
            assert_eq!(t.event_type, "aggTrade");
            assert_eq!(t.symbol, "BTCUSDT");
            assert_eq!(t.price, "50000.00");
        }
        _ => panic!("expected a trade event"),
    }
}

#[test]
fn bare_day_ticker_array_decodes_to_one_batch_event() {
    let msg = r#"[{"e":"24hrTicker","s":"BTCUSDT"},{"e":"24hrTicker","s":"ETHUSDT"}]"#;
    let r = classify_frame(msg).unwrap().unwrap();
    match r {
        WebsocketEvent::DayTicker(ts) => {
            assert_eq!(ts.len(), 2);
            assert_eq!(ts[0].symbol, "BTCUSDT");
            assert_eq!(ts[1].symbol, "ETHUSDT");
        }
        _ => panic!("expected a day ticker batch"),
    }
}

#[test]
fn enveloped_day_ticker_array_decodes_to_one_batch_event() {
    let msg = r#"{"stream":"!ticker@arr","data":[{"e":"24hrTicker","s":"BTCUSDT"},{"e":"24hrTicker","s":"BNBUSDT"}]}"#;
    let r = classify_frame(msg).unwrap().unwrap();
    match r {
        WebsocketEvent::DayTicker(ts) => {
            assert_eq!(ts.len(), 2);
            assert_eq!(ts[0].symbol, "BTCUSDT");
            assert_eq!(ts[1].symbol, "BNBUSDT");
        }
        _ => panic!("expected a day ticker batch"),
    }
}

#[test]
fn malformed_text_is_a_decode_error() {
    assert_eq!(classify_frame("{not json"), Err(WsError::Decode));
    assert_eq!(classify_frame(""), Err(WsError::Decode));
}

#[test]
fn matched_marker_with_bad_schema_is_a_decode_error() {
    // The aggTrade marker matches, but the payload lacks the trade fields.
    assert_eq!(classify_frame(r#"{"e":"aggTrade"}"#), Err(WsError::Decode));
}

#[test]
fn day_ticker_batch_with_a_bad_element_is_a_decode_error() {
    let msg = r#"[{"e":"24hrTicker","s":"BTCUSDT"},{"e":"24hrTicker"}]"#;
    assert_eq!(classify_frame(msg), Err(WsError::Decode));
}

#[test]
fn first_marker_in_table_order_wins() {
    // Both executionReport and aggTrade occur in the text; the table
    // checks executionReport first.
    let msg = r#"{"e":"executionReport","s":"BNBUSDT","note":"aggTrade"}"#;
    let r = classify_frame(msg).unwrap().unwrap();
    match r {
        WebsocketEvent::OrderTrade(o) => {
            assert_eq!(o.event_type, "executionReport");
            assert_eq!(o.symbol, "BNBUSDT");
        }
        _ => panic!("expected an order/trade execution event"),
    }
}

#[test]
fn order_book_snapshot_decodes_by_last_update_id() {
    let msg = r#"{"lastUpdateId":160,"bids":[],"asks":[]}"#;
    let r = classify_frame(msg).unwrap().unwrap();
    match r {
        WebsocketEvent::OrderBook(ob) => assert_eq!(ob.last_update_id, 160),
        _ => panic!("expected an order book snapshot"),
    }
}

#[test]
fn kline_envelope_decodes_to_kline() {
    let msg = r#"{"stream":"btcusdt@kline_1m","data":{"e":"kline","s":"BTCUSDT","k":{"o":"1"}}}"#;
    let r = classify_frame(msg).unwrap().unwrap();
    match r {
        WebsocketEvent::Kline(k) => {
            assert_eq!(k.event_type, "kline");
            assert_eq!(k.symbol, "BTCUSDT");
        }
        _ => panic!("expected a kline event"),
    }
}

#[test]
fn depth_update_decodes_to_depth_order_book() {
    let msg = r#"{"e":"depthUpdate","s":"BTCUSDT","U":157,"bids":[]}"#;
    let r = classify_frame(msg).unwrap().unwrap();
    match r {
        WebsocketEvent::DepthOrderBook(d) => {
            assert_eq!(d.event_type, "depthUpdate");
            assert_eq!(d.symbol, "BTCUSDT");
        }
        _ => panic!("expected a depth update"),
    }
}

#[test]
fn account_markers_decode_to_their_variants() {
    let spot = classify_frame(r#"{"e":"outboundAccountInfo","B":[]}"#).unwrap().unwrap();
    assert!(matches!(spot, WebsocketEvent::AccountUpdate(_)));
    let fut = classify_frame(r#"{"e":"ACCOUNT_UPDATE","a":{}}"#).unwrap().unwrap();
    assert!(matches!(fut, WebsocketEvent::FuturesAccountUpdateEvent(_)));
    let ord = classify_frame(r#"{"e":"ORDER_TRADE_UPDATE","o":{}}"#).unwrap().unwrap();
    assert!(matches!(ord, WebsocketEvent::OrderTradeUpdateEvent(_)));
}

#[test]
fn frame_matching_no_rule_is_dropped() {
    assert_eq!(classify_frame(r#"{"hello":"world"}"#), Ok(None));
    assert_eq!(classify_frame(r#"{"stream":"x@y","data":{"hello":"world"}}"#), Ok(None));
}
