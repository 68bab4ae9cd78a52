use binance_ws::dispatch::{dispatch_step, run_frames, FrameStep, RawFrame};
use binance_ws::errors::WsError;
use binance_ws::events::WebsocketEvent;

fn trade_frame(symbol: &str) -> RawFrame {
    RawFrame::Text(format!(
        r#"{{"stream":"{}@aggTrade","data":{{"e":"aggTrade","s":"{}","p":"1.00"}}}}"#,
        symbol.to_lowercase(),
        symbol
    ))
}

fn symbol_of(ev: &WebsocketEvent) -> String {
    match ev {
        WebsocketEvent::Trade(t) => t.symbol.clone(),
        _ => panic!("expected a trade event"),
    }
}

#[test]
fn events_are_delivered_in_arrival_order() {
    let frames = vec![trade_frame("AAAUSDT"), trade_frame("BBBUSDT"), trade_frame("CCCUSDT")];
    let log = run_frames(&frames, &vec![]);
    assert_eq!(log.outcome, Ok(()));
    assert_eq!(log.consumed, 3);
    assert_eq!(log.events.len(), 3);
    assert_eq!(symbol_of(&log.events[0]), "AAAUSDT");
    assert_eq!(symbol_of(&log.events[1]), "BBBUSDT");
    assert_eq!(symbol_of(&log.events[2]), "CCCUSDT");
}

#[test]
fn close_frame_ends_the_run_after_exactly_k_deliveries() {
    let frames = vec![
        trade_frame("AAAUSDT"),
        trade_frame("BBBUSDT"),
        RawFrame::Close(Some(String::from("going away"))),
        trade_frame("CCCUSDT"),
    ];
    let log = run_frames(&frames, &vec![]);
    assert_eq!(log.outcome, Err(WsError::PeerClosed(Some(String::from("going away")))));
    assert_eq!(log.events.len(), 2);
    // The close frame was the last read: the frame after it was never touched.
    assert_eq!(log.consumed, 3);
}

#[test]
fn clearing_the_flag_between_reads_stops_the_run_cleanly() {
    let frames = vec![trade_frame("AAAUSDT"), trade_frame("BBBUSDT"), trade_frame("CCCUSDT")];
    let log = run_frames(&frames, &vec![true, false]);
    assert_eq!(log.outcome, Ok(()));
    assert_eq!(log.consumed, 1);
    assert_eq!(log.events.len(), 1);
    assert_eq!(symbol_of(&log.events[0]), "AAAUSDT");
}

#[test]
fn flag_false_at_the_first_poll_reads_nothing() {
    let frames = vec![trade_frame("AAAUSDT")];
    let log = run_frames(&frames, &vec![false]);
    assert_eq!(log.outcome, Ok(()));
    assert_eq!(log.consumed, 0);
    assert_eq!(log.events.len(), 0);
}

#[test]
fn control_and_binary_frames_are_skipped() {
    let frames = vec![
        RawFrame::Ping(vec![1]),
        RawFrame::Pong(vec![2]),
        RawFrame::Binary(vec![3, 4]),
        trade_frame("AAAUSDT"),
    ];
    let log = run_frames(&frames, &vec![]);
    assert_eq!(log.outcome, Ok(()));
    assert_eq!(log.consumed, 4);
    assert_eq!(log.events.len(), 1);
}

#[test]
fn a_decode_error_is_terminal_for_the_run() {
    let frames = vec![trade_frame("AAAUSDT"), RawFrame::Text(String::from("{not json"))];
    let log = run_frames(&frames, &vec![]);
    assert_eq!(log.outcome, Err(WsError::Decode));
    assert_eq!(log.events.len(), 1);
    assert_eq!(log.consumed, 2);
}

#[test]
fn unknown_text_frames_are_dropped_and_the_run_goes_on() {
    let frames = vec![RawFrame::Text(String::from(r#"{"hello":1}"#)), trade_frame("AAAUSDT")];
    let log = run_frames(&frames, &vec![]);
    assert_eq!(log.outcome, Ok(()));
    assert_eq!(log.events.len(), 1);
    assert_eq!(log.consumed, 2);
}

#[test]
fn dispatch_step_reports_each_frame_kind() {
    assert_eq!(dispatch_step(&RawFrame::Ping(vec![])), FrameStep::Skip);
    assert_eq!(dispatch_step(&RawFrame::Close(None)), FrameStep::Closed(None));
    assert_eq!(
        dispatch_step(&RawFrame::Close(Some(String::from("bye")))),
        FrameStep::Closed(Some(String::from("bye")))
    );
    assert_eq!(
        dispatch_step(&RawFrame::Text(String::from("{oops"))),
        FrameStep::Fail(WsError::Decode)
    );
    match dispatch_step(&trade_frame("AAAUSDT")) {
        FrameStep::Deliver(ev) => assert_eq!(symbol_of(&ev), "AAAUSDT"),
        _ => panic!("expected a delivery"),
    }
}
