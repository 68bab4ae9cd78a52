//! The classification engine.
//!
//! A frame's text is parsed, split into stream hint and payload, and then
//! classified by an ordered rule table — the order matters because the
//! rules overlap. First, an unstructured payload yields nothing; second,
//! a stream hint naming the mark-price stream decides; third, the presence
//! of all six book-ticker keys decides (this shape has no marker of its
//! own, and its fields can embed any marker text); last, the first marker
//! substring found in the raw text decides. A frame matching no rule is
//! silently dropped; a matched frame whose payload does not fit the
//! variant's schema is a decode error.

use vstd::prelude::*;

use crate::errors::{WsError, WsErrorVal};
use crate::events::{
    AccountUpdateEvent, AccountUpdateVal, BookTickerEvent, BookTickerVal, DayTickerEvent,
    DayTickerVal, DepthOrderBookEvent, DepthOrderBookVal, EventVal, FuturesAccountUpdateEvent,
    FuturesAccountUpdateVal, FuturesFunding, FuturesFundingVal, KlineEvent, KlineVal, OrderBook,
    OrderBookVal, OrderTradeEvent, OrderTradeUpdateEvent, OrderTradeUpdateVal, OrderTradeVal,
    TradesEvent, TradesVal, WebsocketEvent,
};
use crate::json::{elems_view, obj_first, pairs_get, pairs_view, JsonLeaf, LeafVal, Val2};
use crate::parse::{json_of, parse_json};
use crate::payload::{envelope_hint, spec_payload, Payload, PayloadItem, PayloadItemVal, PayloadVal};
use crate::text::{contains_seq, contains_sub};

verus! {

/// The tag a frame is classified as, before decoding.
#[derive(Debug, Clone, Copy, PartialEq, Eq, Structural)]
pub enum EventKind {
    AccountUpdate,
    OrderTrade,
    Trade,
    DayTicker,
    Kline,
    OrderBook,
    DepthOrderBook,
    BookTicker,
    FuturesAccountUpdate,
    OrderTradeUpdate,
    FuturesFunding,
}

/// The marker rules, in their precedence order: the first marker found as
/// a substring of the raw frame text names the variant.
pub open spec fn marker_rules() -> Seq<(Seq<char>, EventKind)> {
    seq![
        ("outboundAccountInfo"@, EventKind::AccountUpdate),
        ("executionReport"@, EventKind::OrderTrade),
        ("aggTrade"@, EventKind::Trade),
        ("24hrTicker"@, EventKind::DayTicker),
        ("kline"@, EventKind::Kline),
        ("lastUpdateId"@, EventKind::OrderBook),
        ("depthUpdate"@, EventKind::DepthOrderBook),
        ("ACCOUNT_UPDATE"@, EventKind::FuturesAccountUpdate),
        ("ORDER_TRADE_UPDATE"@, EventKind::OrderTradeUpdate),
    ]
}

/// The first marker rule at or after position `i` that matches `raw`.
pub open spec fn marker_kind_from(raw: Seq<char>, i: int) -> Option<EventKind>
    decreases marker_rules().len() - i,
    when 0 <= i
{
    if i >= marker_rules().len() {
        None
    } else if contains_seq(raw, marker_rules()[i].0) {
        Some(marker_rules()[i].1)
    } else {
        marker_kind_from(raw, i + 1)
    }
}

/// The first marker rule matching `raw`, if any.
pub open spec fn marker_kind(raw: Seq<char>) -> Option<EventKind> {
    marker_kind_from(raw, 0)
}

/// The string value of the field named `key`, if it is a string.
pub open spec fn field_str(fs: Seq<(Seq<char>, LeafVal)>, key: Seq<char>) -> Option<Seq<char>> {
    match obj_first(fs, key) {
        Some(LeafVal::Str(s)) => Some(s),
        _ => None,
    }
}

/// The numeric value of the field named `key`, if it is a non-negative
/// integer that fits `u64`.
pub open spec fn field_num(fs: Seq<(Seq<char>, LeafVal)>, key: Seq<char>) -> Option<u64> {
    match obj_first(fs, key) {
        Some(LeafVal::Num(n)) => n,
        _ => None,
    }
}

/// All six best-bid/offer keys are present, whatever their values.
pub open spec fn book_ticker_keys(fs: Seq<(Seq<char>, LeafVal)>) -> bool {
    &&& obj_first(fs, "u"@) is Some
    &&& obj_first(fs, "s"@) is Some
    &&& obj_first(fs, "b"@) is Some
    &&& obj_first(fs, "B"@) is Some
    &&& obj_first(fs, "a"@) is Some
    &&& obj_first(fs, "A"@) is Some
}

/// The payload is an object holding all six best-bid/offer keys.
pub open spec fn has_book_ticker_keys(p: PayloadVal) -> bool {
    match p {
        PayloadVal::Obj(fs) => book_ticker_keys(fs),
        _ => false,
    }
}

/// The variant a frame is classified as: the ordered rule table.
pub open spec fn spec_kind(hint: Option<Seq<char>>, p: PayloadVal, raw: Seq<char>) -> Option<
    EventKind,
> {
    if p is Other {
        None
    } else if hint matches Some(h) && contains_seq(h, "markPrice"@) {
        Some(EventKind::FuturesFunding)
    } else if has_book_ticker_keys(p) {
        Some(EventKind::BookTicker)
    } else {
        marker_kind(raw)
    }
}

/// One day-ticker batch entry, decoded from an array element.
pub open spec fn decode_ticker_item(it: PayloadItemVal) -> Option<DayTickerVal> {
    match it {
        PayloadItemVal::Obj(fs) => match (field_str(fs, "e"@), field_str(fs, "s"@)) {
            (Some(e), Some(s)) => Some(DayTickerVal { event_type: e, symbol: s }),
            _ => None,
        },
        _ => None,
    }
}

/// A whole day-ticker batch: every element must decode.
pub open spec fn decode_tickers(items: Seq<PayloadItemVal>) -> Option<Seq<DayTickerVal>>
    decreases items.len(),
{
    if items.len() == 0 {
        Some(Seq::empty())
    } else {
        match (decode_ticker_item(items[0]), decode_tickers(items.drop_first())) {
            (Some(t), Some(rest)) => Some(seq![t] + rest),
            _ => None,
        }
    }
}

/// Decode a payload object into the record of the given kind; `None` is a
/// schema mismatch.
pub open spec fn decode_obj(k: EventKind, fs: Seq<(Seq<char>, LeafVal)>) -> Option<EventVal> {
    match k {
        EventKind::AccountUpdate => match field_str(fs, "e"@) {
            Some(e) => Some(EventVal::AccountUpdate(AccountUpdateVal { event_type: e })),
            None => None,
        },
        EventKind::OrderTrade => match (field_str(fs, "e"@), field_str(fs, "s"@)) {
            (Some(e), Some(s)) => Some(
                EventVal::OrderTrade(OrderTradeVal { event_type: e, symbol: s }),
            ),
            _ => None,
        },
        EventKind::Trade => match (field_str(fs, "e"@), field_str(fs, "s"@), field_str(fs, "p"@)) {
            (Some(e), Some(s), Some(p)) => Some(
                EventVal::Trade(TradesVal { event_type: e, symbol: s, price: p }),
            ),
            _ => None,
        },
        EventKind::Kline => match (field_str(fs, "e"@), field_str(fs, "s"@)) {
            (Some(e), Some(s)) => Some(EventVal::Kline(KlineVal { event_type: e, symbol: s })),
            _ => None,
        },
        EventKind::OrderBook => match field_num(fs, "lastUpdateId"@) {
            Some(u) => Some(EventVal::OrderBook(OrderBookVal { last_update_id: u })),
            None => None,
        },
        EventKind::DepthOrderBook => match (field_str(fs, "e"@), field_str(fs, "s"@)) {
            (Some(e), Some(s)) => Some(
                EventVal::DepthOrderBook(DepthOrderBookVal { event_type: e, symbol: s }),
            ),
            _ => None,
        },
        EventKind::BookTicker => match (
            field_num(fs, "u"@),
            field_str(fs, "s"@),
            field_str(fs, "b"@),
            field_str(fs, "B"@),
            field_str(fs, "a"@),
            field_str(fs, "A"@),
        ) {
            (Some(u), Some(s), Some(b), Some(bq), Some(a), Some(aq)) => Some(
                EventVal::BookTicker(
                    BookTickerVal {
                        update_id: u,
                        symbol: s,
                        best_bid: b,
                        best_bid_qty: bq,
                        best_ask: a,
                        best_ask_qty: aq,
                    },
                ),
            ),
            _ => None,
        },
        EventKind::FuturesAccountUpdate => match field_str(fs, "e"@) {
            Some(e) => Some(
                EventVal::FuturesAccountUpdateEvent(FuturesAccountUpdateVal { event_type: e }),
            ),
            None => None,
        },
        EventKind::OrderTradeUpdate => match field_str(fs, "e"@) {
            Some(e) => Some(EventVal::OrderTradeUpdateEvent(OrderTradeUpdateVal { event_type: e })),
            None => None,
        },
        EventKind::FuturesFunding => match (
            field_str(fs, "e"@),
            field_str(fs, "s"@),
            field_str(fs, "p"@),
        ) {
            (Some(e), Some(s), Some(p)) => Some(
                EventVal::FuturesFunding(FuturesFundingVal { event_type: e, symbol: s, mark_price: p }),
            ),
            _ => None,
        },
        EventKind::DayTicker => None,
    }
}

/// Decode the selected payload into the typed record of its kind. The
/// day-ticker batch decodes from an array; every other kind decodes from
/// an object.
pub open spec fn spec_decode(k: EventKind, p: PayloadVal) -> Option<EventVal> {
    match k {
        EventKind::DayTicker => match p {
            PayloadVal::Arr(items) => match decode_tickers(items) {
                Some(ts) => Some(EventVal::DayTicker(ts)),
                None => None,
            },
            _ => None,
        },
        _ => match p {
            PayloadVal::Obj(fs) => decode_obj(k, fs),
            _ => None,
        },
    }
}

/// What classifying a frame's text yields: an event, nothing (an unknown
/// or unstructured but well-formed frame), or an error (text that is not
/// JSON, or a payload that does not fit its classified shape).
pub open spec fn spec_classify(raw: Seq<char>) -> Result<Option<EventVal>, ()> {
    match json_of(raw) {
        None => Err(()),
        Some(v) => match spec_kind(envelope_hint(v), spec_payload(v), raw) {
            None => Ok(None),
            Some(k) => match spec_decode(k, spec_payload(v)) {
                None => Err(()),
                Some(e) => Ok(Some(e)),
            },
        },
    }
}

/// The first marker rule matching `raw`, by one pass over the table.
fn marker_lookup(raw: &str) -> (r: Option<EventKind>)
    ensures
        r == marker_kind(raw@),
{
    let mut rules: Vec<(&str, EventKind)> = Vec::new();
    rules.push(("outboundAccountInfo", EventKind::AccountUpdate));
    rules.push(("executionReport", EventKind::OrderTrade));
    rules.push(("aggTrade", EventKind::Trade));
    rules.push(("24hrTicker", EventKind::DayTicker));
    rules.push(("kline", EventKind::Kline));
    rules.push(("lastUpdateId", EventKind::OrderBook));
    rules.push(("depthUpdate", EventKind::DepthOrderBook));
    rules.push(("ACCOUNT_UPDATE", EventKind::FuturesAccountUpdate));
    rules.push(("ORDER_TRADE_UPDATE", EventKind::OrderTradeUpdate));
    assert(rules@.len() == marker_rules().len());
    assert(forall|i: int|
        0 <= i < rules@.len() ==> rules@[i].0@ == marker_rules()[i].0 && rules@[i].1
            == marker_rules()[i].1) by {
        assert(rules@[0].0@ == marker_rules()[0].0);
        assert(rules@[1].0@ == marker_rules()[1].0);
        assert(rules@[2].0@ == marker_rules()[2].0);
        assert(rules@[3].0@ == marker_rules()[3].0);
        assert(rules@[4].0@ == marker_rules()[4].0);
        assert(rules@[5].0@ == marker_rules()[5].0);
        assert(rules@[6].0@ == marker_rules()[6].0);
        assert(rules@[7].0@ == marker_rules()[7].0);
        assert(rules@[8].0@ == marker_rules()[8].0);
    }
    let mut i: usize = 0;
    while i < rules.len()
        invariant
            rules@.len() == marker_rules().len(),
            forall|k: int|
                0 <= k < rules@.len() ==> rules@[k].0@ == marker_rules()[k].0 && rules@[k].1
                    == marker_rules()[k].1,
            i <= rules@.len(),
            marker_kind(raw@) == marker_kind_from(raw@, i as int),
        decreases rules@.len() - i,
    {
        let m: &str = rules[i].0;
        if contains_sub(raw, m) {
            return Some(rules[i].1);
        }
        i += 1;
    }
    None
}

/// The string value of the field named `key`, if it is a string.
fn get_str(fs: &Vec<(String, JsonLeaf)>, key: &str) -> (r: Option<String>)
    ensures
        match r {
            Some(s) => field_str(pairs_view(fs@), key@) == Some(s@),
            None => field_str(pairs_view(fs@), key@) is None,
        },
{
    match pairs_get(fs, key) {
        Some(JsonLeaf::Str(s)) => Some(s.clone()),
        _ => None,
    }
}

/// The numeric value of the field named `key`, if it fits `u64`.
fn get_num(fs: &Vec<(String, JsonLeaf)>, key: &str) -> (r: Option<u64>)
    ensures
        r == field_num(pairs_view(fs@), key@),
{
    match pairs_get(fs, key) {
        Some(JsonLeaf::Num(n)) => *n,
        _ => None,
    }
}

/// All six best-bid/offer keys are present.
fn has_book_keys(fs: &Vec<(String, JsonLeaf)>) -> (r: bool)
    ensures
        r == book_ticker_keys(pairs_view(fs@)),
{
    let r = pairs_get(fs, "u").is_some() && pairs_get(fs, "s").is_some() && pairs_get(
        fs,
        "b",
    ).is_some() && pairs_get(fs, "B").is_some() && pairs_get(fs, "a").is_some() && pairs_get(
        fs,
        "A",
    ).is_some();
    r
}

/// The decoded values of the first `i` batch items, all of which decode.
pub open spec fn decoded_prefix(items: Seq<PayloadItemVal>, i: int) -> Seq<DayTickerVal> {
    Seq::new(i as nat, |k: int| decode_ticker_item(items[k])->Some_0)
}

/// Decoding a batch splits at any point up to which every item decodes.
proof fn lemma_decode_tickers_split(items: Seq<PayloadItemVal>, i: int)
    requires
        0 <= i <= items.len(),
        forall|k: int| 0 <= k < i ==> decode_ticker_item(#[trigger] items[k]) is Some,
    ensures
        decode_tickers(items) == match decode_tickers(items.skip(i)) {
            Some(rest) => Some(decoded_prefix(items, i) + rest),
            None => None::<Seq<DayTickerVal>>,
        },
    decreases i,
{
    if i == 0 {
        assert(items.skip(0) =~= items);
        match decode_tickers(items) {
            Some(r) => {
                assert(decoded_prefix(items, 0) + r =~= r);
            },
            None => {},
        }
    } else {
        lemma_decode_tickers_split(items, i - 1);
        assert(items.skip(i - 1)[0] == items[i - 1]);
        assert(items.skip(i - 1).drop_first() =~= items.skip(i));
        let t = decode_ticker_item(items[i - 1])->Some_0;
        match decode_tickers(items.skip(i)) {
            Some(rest) => {
                assert(decode_tickers(items.skip(i - 1)) == Some(seq![t] + rest));
                assert(decoded_prefix(items, i - 1) + (seq![t] + rest) =~= decoded_prefix(items, i)
                    + rest);
            },
            None => {
                assert(decode_tickers(items.skip(i - 1)) is None);
            },
        }
    }
}

/// Decode a whole day-ticker batch; any element that does not fit fails
/// the batch.
fn decode_ticker_items(items: &Vec<PayloadItem>) -> (r: Option<Vec<DayTickerEvent>>)
    ensures
        match r {
            Some(ts) => decode_tickers(elems_view(items@)) == Some(elems_view(ts@)),
            None => decode_tickers(elems_view(items@)) is None,
        },
{
    let ghost iv = elems_view(items@);
    let mut out: Vec<DayTickerEvent> = Vec::new();
    let mut i: usize = 0;
    while i < items.len()
        invariant
            iv == elems_view(items@),
            iv.len() == items@.len(),
            i <= items@.len(),
            out@.len() == i,
            forall|k: int|
                0 <= k < i ==> decode_ticker_item(#[trigger] iv[k]) == Some(elems_view(out@)[k]),
        decreases items@.len() - i,
    {
        proof {
            assert(iv[i as int] == items@[i as int]@);
        }
        let decoded: Option<DayTickerEvent> = match &items[i] {
            PayloadItem::Obj(fs) => {
                let e = get_str(fs, "e");
                let s = get_str(fs, "s");
                match (e, s) {
                    (Some(e), Some(s)) => Some(DayTickerEvent { event_type: e, symbol: s }),
                    _ => None,
                }
            },
            PayloadItem::Other => None,
        };
        match decoded {
            Some(t) => {
                proof {
                    assert(decode_ticker_item(iv[i as int]) == Some(t@));
                }
                let ghost prev = out@;
                out.push(t);
                proof {
                    assert forall|k: int|
                        0 <= k < i + 1 implies decode_ticker_item(#[trigger] iv[k]) == Some(
                        elems_view(out@)[k],
                    ) by {
                        assert(elems_view(out@)[k] == out@[k]@);
                        if k < i {
                            assert(out@[k] == prev[k]);
                            assert(elems_view(prev)[k] == prev[k]@);
                        }
                    }
                }
                i += 1;
            },
            None => {
                proof {
                    assert(decode_ticker_item(iv[i as int]) is None);
                    lemma_decode_tickers_split(iv, i as int);
                    assert(iv.skip(i as int)[0] == iv[i as int]);
                    assert(decode_tickers(iv.skip(i as int)) is None);
                }
                return None;
            },
        }
    }
    proof {
        let n = iv.len() as int;
        lemma_decode_tickers_split(iv, n);
        assert(iv.skip(n) =~= Seq::<PayloadItemVal>::empty());
        assert(decode_tickers(iv.skip(n)) == Some(Seq::<DayTickerVal>::empty()));
        assert(decoded_prefix(iv, n) + Seq::<DayTickerVal>::empty() =~= decoded_prefix(iv, n));
        assert(elems_view(out@) =~= decoded_prefix(iv, n));
    }
    Some(out)
}

/// Decode an object payload into the record of the given kind.
fn decode_obj_event(k: EventKind, fs: &Vec<(String, JsonLeaf)>) -> (r: Option<WebsocketEvent>)
    ensures
        match r {
            Some(ev) => decode_obj(k, pairs_view(fs@)) == Some(ev@),
            None => decode_obj(k, pairs_view(fs@)) is None,
        },
{
    match k {
        EventKind::AccountUpdate => match get_str(fs, "e") {
            Some(e) => Some(WebsocketEvent::AccountUpdate(AccountUpdateEvent { event_type: e })),
            None => None,
        },
        EventKind::OrderTrade => match (get_str(fs, "e"), get_str(fs, "s")) {
            (Some(e), Some(s)) => Some(
                WebsocketEvent::OrderTrade(OrderTradeEvent { event_type: e, symbol: s }),
            ),
            _ => None,
        },
        EventKind::Trade => match (get_str(fs, "e"), get_str(fs, "s"), get_str(fs, "p")) {
            (Some(e), Some(s), Some(p)) => Some(
                WebsocketEvent::Trade(TradesEvent { event_type: e, symbol: s, price: p }),
            ),
            _ => None,
        },
        EventKind::Kline => match (get_str(fs, "e"), get_str(fs, "s")) {
            (Some(e), Some(s)) => Some(
                WebsocketEvent::Kline(KlineEvent { event_type: e, symbol: s }),
            ),
            _ => None,
        },
        EventKind::OrderBook => match get_num(fs, "lastUpdateId") {
            Some(u) => Some(WebsocketEvent::OrderBook(OrderBook { last_update_id: u })),
            None => None,
        },
        EventKind::DepthOrderBook => match (get_str(fs, "e"), get_str(fs, "s")) {
            (Some(e), Some(s)) => Some(
                WebsocketEvent::DepthOrderBook(DepthOrderBookEvent { event_type: e, symbol: s }),
            ),
            _ => None,
        },
        EventKind::BookTicker => match (
            get_num(fs, "u"),
            get_str(fs, "s"),
            get_str(fs, "b"),
            get_str(fs, "B"),
            get_str(fs, "a"),
            get_str(fs, "A"),
        ) {
            (Some(u), Some(s), Some(b), Some(bq), Some(a), Some(aq)) => Some(
                WebsocketEvent::BookTicker(
                    BookTickerEvent {
                        update_id: u,
                        symbol: s,
                        best_bid: b,
                        best_bid_qty: bq,
                        best_ask: a,
                        best_ask_qty: aq,
                    },
                ),
            ),
            _ => None,
        },
        EventKind::FuturesAccountUpdate => match get_str(fs, "e") {
            Some(e) => Some(
                WebsocketEvent::FuturesAccountUpdateEvent(
                    FuturesAccountUpdateEvent { event_type: e },
                ),
            ),
            None => None,
        },
        EventKind::OrderTradeUpdate => match get_str(fs, "e") {
            Some(e) => Some(
                WebsocketEvent::OrderTradeUpdateEvent(OrderTradeUpdateEvent { event_type: e }),
            ),
            None => None,
        },
        EventKind::FuturesFunding => match (get_str(fs, "e"), get_str(fs, "s"), get_str(fs, "p")) {
            (Some(e), Some(s), Some(p)) => Some(
                WebsocketEvent::FuturesFunding(
                    FuturesFunding { event_type: e, symbol: s, mark_price: p },
                ),
            ),
            _ => None,
        },
        EventKind::DayTicker => None,
    }
}

/// Decode the selected payload into the typed record of its kind.
fn decode_event(k: EventKind, p: &Payload) -> (r: Option<WebsocketEvent>)
    ensures
        match r {
            Some(ev) => spec_decode(k, p@) == Some(ev@),
            None => spec_decode(k, p@) is None,
        },
{
    match k {
        EventKind::DayTicker => match p {
            Payload::Arr(items) => match decode_ticker_items(items) {
                Some(ts) => Some(WebsocketEvent::DayTicker(ts)),
                None => None,
            },
            _ => None,
        },
        _ => match p {
            Payload::Obj(fs) => decode_obj_event(k, fs),
            _ => None,
        },
    }
}

/// Classify one text frame: the pure decision function of the engine.
///
/// An `Err` is always a decode error: the text was not well-formed JSON,
/// or a payload matched by a rule did not fit that rule's schema. A
/// well-formed frame matching no rule, or whose payload is unstructured,
/// is `Ok(None)`: dropped without error.
pub fn classify_frame(msg: &str) -> (r: Result<Option<WebsocketEvent>, WsError>)
    ensures
        r matches Ok(Some(ev)) ==> spec_classify(msg@) == Ok::<Option<EventVal>, ()>(Some(ev@)),
        r matches Ok(o) && o is None ==> spec_classify(msg@) == Ok::<Option<EventVal>, ()>(None),
        r is Err <==> spec_classify(msg@) is Err,
        r matches Err(e) ==> e@ == WsErrorVal::Decode,
{
    match parse_json(msg) {
        None => Err(WsError::Decode),
        Some(top) => {
            let (hint, payload) = crate::payload::split_envelope(&top);
            let ghost hv = envelope_hint(top@);
            let ghost pv = spec_payload(top@);
            let kind: Option<EventKind> = match &payload {
                Payload::Other => None,
                _ => {
                    let mark = match &hint {
                        Some(h) => contains_sub(h.as_str(), "markPrice"),
                        None => false,
                    };
                    if mark {
                        Some(EventKind::FuturesFunding)
                    } else {
                        let bt = match &payload {
                            Payload::Obj(fs) => has_book_keys(fs),
                            _ => false,
                        };
                        if bt {
                            Some(EventKind::BookTicker)
                        } else {
                            marker_lookup(msg)
                        }
                    }
                },
            };
            assert(kind == spec_kind(hv, pv, msg@));
            match kind {
                None => Ok(None),
                Some(k) => match decode_event(k, &payload) {
                    Some(ev) => Ok(Some(ev)),
                    None => Err(WsError::Decode),
                },
            }
        },
    }
}

/// Law: an enveloped frame whose stream name contains `markPrice` is
/// classified as the funding/mark-price variant whatever its payload's
/// fields are, as long as the payload is structured at all.
pub proof fn lemma_mark_price_wins(hint: Seq<char>, p: PayloadVal, raw: Seq<char>)
    requires
        contains_seq(hint, "markPrice"@),
        !(p is Other),
    ensures
        spec_kind(Some(hint), p, raw) == Some(EventKind::FuturesFunding),
{
}

/// Law: on a whole frame, the mark-price rule decides end to end — such a
/// frame either yields a funding event or fails to decode; it is never
/// dropped and never decodes as another variant.
pub proof fn lemma_mark_price_classifies(raw: Seq<char>, v: Val2, hint: Seq<char>)
    requires
        json_of(raw) == Some(v),
        envelope_hint(v) == Some(hint),
        contains_seq(hint, "markPrice"@),
        !(spec_payload(v) is Other),
    ensures
        match spec_classify(raw) {
            Ok(Some(ev)) => ev is FuturesFunding,
            Ok(o) => !(o is None),
            Err(_) => true,
        },
{
    lemma_mark_price_wins(hint, spec_payload(v), raw);
}

/// Law: a payload object holding all six keys `u, s, b, B, a, A` is
/// classified as the best bid/offer ticker whatever marker substrings the
/// raw text holds — the structural rule strictly precedes the marker
/// rules — unless the stream hint names the mark-price stream.
pub proof fn lemma_book_ticker_keys_win(hint: Option<Seq<char>>, p: PayloadVal, raw: Seq<char>)
    requires
        has_book_ticker_keys(p),
        !(hint matches Some(h) && contains_seq(h, "markPrice"@)),
    ensures
        spec_kind(hint, p, raw) == Some(EventKind::BookTicker),
{
}

/// Law: on a whole frame, the six-key rule decides end to end — whatever
/// marker substrings the raw text holds, such a frame either yields a
/// best bid/offer event or fails to decode.
pub proof fn lemma_book_ticker_classifies(raw: Seq<char>, v: Val2)
    requires
        json_of(raw) == Some(v),
        has_book_ticker_keys(spec_payload(v)),
        !(envelope_hint(v) matches Some(h) && contains_seq(h, "markPrice"@)),
    ensures
        match spec_classify(raw) {
            Ok(Some(ev)) => ev is BookTicker,
            Ok(o) => !(o is None),
            Err(_) => true,
        },
{
    lemma_book_ticker_keys_win(envelope_hint(v), spec_payload(v), raw);
}

/// Law: a well-formed frame whose payload is not structured (a bare
/// string, number, boolean or null) yields no event and no error.
pub proof fn lemma_unstructured_dropped(raw: Seq<char>, v: Val2)
    requires
        json_of(raw) == Some(v),
        spec_payload(v) is Other,
    ensures
        spec_classify(raw) == Ok::<Option<EventVal>, ()>(None),
{
}

/// Law: classification is a pure function of the frame text — any two
/// results that `classify_frame`'s contract admits for the same text are
/// equal, so classifying the same frame twice yields the same variant and
/// content.
pub proof fn lemma_classify_deterministic(
    raw: Seq<char>,
    r1: Result<Option<EventVal>, ()>,
    r2: Result<Option<EventVal>, ()>,
)
    requires
        r1 == spec_classify(raw),
        r2 == spec_classify(raw),
    ensures
        r1 == r2,
{
}

} // verus!
