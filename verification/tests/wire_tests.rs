use exchange::bitmex;
use exchange::bybit;
use exchange::quoter::Side;
use hmac::Mac;

#[test]
fn bitmex_submit_body_text() {
    let r = bitmex::SubmitRequest::new("MATICUSDT", "Buy", "250000", "0.5880");
    assert_eq!(
        r.body_json(),
        "{\"symbol\":\"MATICUSDT\",\"side\":\"Buy\",\"orderQty\":\"250000\",\"price\":\"0.5880\"}"
    );
}

#[test]
fn bitmex_submit_from_quote_scales_to_lots() {
    // 250.0 units floor to 250, scaled by the venue lot of 1000
    let r = bitmex::submit_request_from_quote("MATICUSDT", Side::Buy, 5_880, 2_500_000);
    assert_eq!(r.symbol, "MATICUSDT");
    assert_eq!(r.side, "Buy");
    assert_eq!(r.order_qty, "250000");
    assert_eq!(r.price, "0.5880");
    let s = bitmex::submit_request_from_quote("MATICUSDT", Side::Sell, 6_324, 1_234_999);
    assert_eq!(s.side, "Sell");
    // 123.4999 floors to 123 units
    assert_eq!(s.order_qty, "123000");
    assert_eq!(s.price, "0.6324");
}

#[test]
fn bitmex_balance_query() {
    let q = bitmex::GetBalancesRequest::new("XBt");
    assert_eq!(q.query_string(), "currency=XBt");
}

#[test]
fn bitmex_subscribe_texts() {
    assert_eq!(
        bitmex::book_subscribe_text("MATICUSDT"),
        "{\"op\":\"subscribe\",\"args\":[\"quote:MATICUSDT\"]}"
    );
    assert_eq!(
        bitmex::orders_subscribe_text(),
        "{\"op\":\"subscribe\",\"args\":[\"order\"]}"
    );
}

#[test]
fn bitmex_auth_text_shape() {
    let venue = bitmex::Bitmex::new("k", "s");
    let text = venue.auth_text(1_700_000_000);
    let mut mac = <hmac::Hmac<sha2::Sha256> as hmac::KeyInit>::new_from_slice(b"s").unwrap();
    mac.update(b"GET/realtime1700000000");
    let sig = hex::encode(mac.finalize().into_bytes());
    let expected = format!("{{\"op\":\"authKeyExpires\",\"args\":[\"k\",1700000000,\"{}\"]}}", sig);
    assert_eq!(text, expected);
}

#[test]
fn bitmex_decode_quote_frame() {
    let text = "{\"table\":\"quote\",\"action\":\"insert\",\"data\":[{\"timestamp\":\"2024-01-01T00:00:00.000Z\",\"symbol\":\"MATICUSDT\",\"bidSize\":1000,\"bidPrice\":0.6012,\"askPrice\":0.6101,\"askSize\":500}]}";
    let tick = bitmex::decode_order_book(text).unwrap();
    let bid = tick.bid.unwrap();
    let ask = tick.ask.unwrap();
    assert_eq!(bid.price, 6_012);
    assert_eq!(bid.size, 10_000_000);
    assert_eq!(ask.price, 6_101);
    assert_eq!(ask.size, 5_000_000);
}

#[test]
fn bitmex_decode_quote_frame_with_null_side() {
    let text = "{\"table\":\"quote\",\"data\":[{\"bidPrice\":null,\"askPrice\":0.61,\"askSize\":2}]}";
    let tick = bitmex::decode_order_book(text).unwrap();
    assert!(tick.bid.is_none());
    assert_eq!(tick.ask.unwrap().price, 6_100);
}

#[test]
fn bitmex_decode_rejects_other_tables() {
    assert!(bitmex::decode_order_book("{\"table\":\"trade\",\"data\":[]}").is_err());
    assert!(bitmex::decode_order_book("not json at all").is_err());
}

#[test]
fn bitmex_decode_order_events() {
    let text = "{\"table\":\"order\",\"action\":\"update\",\"data\":[{\"orderID\":\"abc-1\",\"ordStatus\":\"Filled\",\"cumQty\":125.5,\"price\":0.59}]}";
    let evs = bitmex::decode_active_orders(text).unwrap();
    assert_eq!(evs.len(), 1);
    assert_eq!(evs[0].order_id, "abc-1");
    assert_eq!(evs[0].status, "Filled");
    assert_eq!(evs[0].filled_qty, 1_255_000);
    assert_eq!(evs[0].price, 5_900);
}

#[test]
fn bybit_submit_body_text() {
    let r = bybit::SubmitRequest::new("MATICUSDT", "Sell", "125", "0.6324");
    assert_eq!(
        r.body_json(),
        "{\"category\":\"spot\",\"symbol\":\"MATICUSDT\",\"side\":\"Sell\",\"orderType\":\"Limit\",\"qty\":\"125\",\"price\":\"0.6324\"}"
    );
}

#[test]
fn bybit_balance_query() {
    let q = bybit::GetBalancesRequest::new("MATIC");
    assert_eq!(q.query_string(), "accountType=UNIFIED&coin=MATIC");
}

#[test]
fn bybit_cancel_body() {
    assert_eq!(bybit::CancelAllRequest::new().body_json(), "{\"category\":\"spot\"}");
}

#[test]
fn bybit_subscribe_texts() {
    assert_eq!(
        bybit::book_subscribe_text("rid-1", "MATICUSDT"),
        "{\"req_id\":\"rid-1\",\"op\":\"subscribe\",\"args\":[\"orderbook.1.MATICUSDT\"]}"
    );
    assert_eq!(
        bybit::orders_subscribe_text("rid-2"),
        "{\"req_id\":\"rid-2\",\"op\":\"subscribe\",\"args\":[\"order.spot\"]}"
    );
}

#[test]
fn bybit_auth_text_shape() {
    let venue = bybit::Bybit::new("k", "s");
    let text = venue.auth_text("rid-3", 1_700_000_000_000);
    let mut mac = <hmac::Hmac<sha2::Sha256> as hmac::KeyInit>::new_from_slice(b"s").unwrap();
    mac.update(b"GET/realtime1700000000000");
    let sig = hex::encode(mac.finalize().into_bytes());
    let expected = format!(
        "{{\"req_id\":\"rid-3\",\"op\":\"authKeyExpires\",\"args\":[\"k\",\"1700000000000\",\"{}\"]}}",
        sig
    );
    assert_eq!(text, expected);
}

#[test]
fn bybit_decode_book_frame() {
    let text = "{\"topic\":\"orderbook.1.MATICUSDT\",\"ts\":1672304484978,\"type\":\"snapshot\",\"data\":{\"s\":\"MATICUSDT\",\"b\":[[\"0.6012\",\"300\"]],\"a\":[[\"0.6101\",\"150\"]]}}";
    let resp = bybit::decode_order_book(text).unwrap();
    assert_eq!(resp.topic, "orderbook.1.MATICUSDT");
    assert_eq!(resp.ts, 1_672_304_484_978);
    assert_eq!(resp.t, "snapshot");
    assert_eq!(resp.data.s, "MATICUSDT");
    let tick = bybit::tick_of(&resp.data).unwrap();
    assert_eq!(tick.bid.unwrap().price, 6_012);
    assert_eq!(tick.bid.unwrap().size, 3_000_000);
    assert_eq!(tick.ask.unwrap().price, 6_101);
}

#[test]
fn bybit_decode_book_frame_missing_side() {
    // a delta frame with no ask levels: the ask is reported missing
    let text = "{\"topic\":\"orderbook.1.MATICUSDT\",\"ts\":1672304485000,\"type\":\"delta\",\"data\":{\"s\":\"MATICUSDT\",\"b\":[[\"0.6013\",\"10\"]],\"a\":[]}}";
    let tick = bybit::decode_book_tick(text).unwrap();
    assert_eq!(tick.bid.unwrap().price, 6_013);
    assert!(tick.ask.is_none());
}

#[test]
fn bybit_decode_rejects_malformed() {
    assert!(bybit::decode_book_tick("{\"topic\":42}").is_err());
    assert!(bybit::decode_book_tick("{not json").is_err());
    // a level whose price is not a decimal string
    let text = "{\"topic\":\"orderbook.1.X\",\"ts\":1,\"type\":\"delta\",\"data\":{\"s\":\"X\",\"b\":[[\"oops\",\"10\"]],\"a\":[]}}";
    assert!(bybit::decode_book_tick(text).is_err());
}

#[test]
fn bybit_decode_order_events() {
    let text = "{\"topic\":\"order\",\"id\":\"x\",\"creationTime\":1,\"data\":[{\"orderLinkId\":\"lnk-9\",\"orderStatus\":\"New\",\"cumExecQty\":\"0.5\",\"price\":\"0.60\"}]}";
    let evs = bybit::decode_active_orders(text).unwrap();
    assert_eq!(evs.len(), 1);
    assert_eq!(evs[0].order_id, "lnk-9");
    assert_eq!(evs[0].status, "New");
    assert_eq!(evs[0].filled_qty, 5_000);
    assert_eq!(evs[0].price, 6_000);
}

#[test]
fn bybit_decode_full_balances() {
    let text = "{\"retCode\":0,\"retMsg\":\"OK\",\"result\":{\"list\":[{\"accountType\":\"UNIFIED\",\"totalEquity\":\"1500.01\",\"coin\":[{\"coin\":\"MATIC\",\"walletBalance\":\"1000.5\",\"equity\":\"1000.5\",\"collateralSwitch\":true}]}]},\"retExtInfo\":{},\"time\":1672304485000}";
    let b = bybit::decode_balances(text).unwrap();
    assert_eq!(b.list.len(), 1);
    assert_eq!(b.list[0].account_type, "UNIFIED");
    assert_eq!(b.list[0].total_equity, "1500.01");
    assert_eq!(b.list[0].coin.len(), 1);
    assert_eq!(b.list[0].coin[0].coin, "MATIC");
    assert_eq!(b.list[0].coin[0].wallet_balance, "1000.5");
    assert!(b.list[0].coin[0].collateral_switch);
    // fields the response did not carry read as empty
    assert_eq!(b.list[0].coin[0].bonus, "");
}

#[test]
fn bitmex_price_volume_pair_carries_text() {
    let p = bitmex::PriceVolumePair("0.60".to_string(), "100".to_string());
    assert_eq!(p.0, "0.60");
    assert_eq!(p.1, "100");
}

#[test]
fn bybit_decode_wallet_balance() {
    let text = "{\"retCode\":0,\"retMsg\":\"OK\",\"result\":{\"list\":[{\"accountType\":\"UNIFIED\",\"coin\":[{\"coin\":\"MATIC\",\"walletBalance\":\"1000.5\"}]}]},\"retExtInfo\":{},\"time\":1672304485000}";
    assert_eq!(bybit::decode_wallet_balance(text), Ok(10_005_000));
    assert!(bybit::decode_wallet_balance("{\"result\":{\"list\":[]}}").is_err());
}

#[test]
fn bybit_request_ids_are_fresh_uuids() {
    let a = bybit::new_request_id();
    let b = bybit::new_request_id();
    assert_eq!(a.len(), 36);
    assert_ne!(a, b);
}
