use exchange::session::{Channel, Frame, Phase, Session, StreamEvent};

const GOOD_FRAME: &str = "{\"topic\":\"orderbook.1.MATICUSDT\",\"ts\":1672304484978,\"type\":\"delta\",\"data\":{\"s\":\"MATICUSDT\",\"b\":[[\"0.6012\",\"300\"]],\"a\":[[\"0.6101\",\"150\"]]}}";

fn active_book_session() -> Session {
    let mut s = Session::new(Channel::BybitBook);
    assert_eq!(s.phase, Phase::Connecting);
    s.connected();
    assert_eq!(s.phase, Phase::Subscribing);
    s.subscribe_sent();
    assert_eq!(s.phase, Phase::Active);
    s
}

#[test]
fn private_channel_authenticates_before_subscribing() {
    let mut s = Session::new(Channel::BitmexOrders);
    s.connected();
    assert_eq!(s.phase, Phase::Authenticating);
    s.auth_sent();
    assert_eq!(s.phase, Phase::Subscribing);
    s.subscribe_sent();
    assert_eq!(s.phase, Phase::Active);
}

#[test]
fn ping_is_answered_and_stream_survives() {
    let mut s = active_book_session();
    let out = s.on_frame(Frame::Ping(vec![1, 2, 3]));
    // no data item, the pong echoes the payload, the session is alive
    assert!(out.items.is_empty());
    assert_eq!(out.reply, Some(vec![1, 2, 3]));
    assert_eq!(s.phase, Phase::Active);
    // the next data frame is still delivered
    let out2 = s.on_frame(Frame::Text(GOOD_FRAME.to_string()));
    assert_eq!(out2.items.len(), 1);
    match &out2.items[0] {
        Ok(StreamEvent::Book(tick)) => {
            assert_eq!(tick.bid.unwrap().price, 6_012);
        }
        other => panic!("expected a book tick, got {:?}", other),
    }
}

#[test]
fn malformed_frame_costs_one_error_item_and_stream_continues() {
    let mut s = active_book_session();
    let out = s.on_frame(Frame::Text("{\"half\": ".to_string()));
    assert_eq!(out.items.len(), 1);
    assert!(out.items[0].is_err());
    assert_eq!(s.phase, Phase::Active);
    let out2 = s.on_frame(Frame::Text(GOOD_FRAME.to_string()));
    assert_eq!(out2.items.len(), 1);
    assert!(out2.items[0].is_ok());
}

#[test]
fn close_frame_ends_the_stream() {
    let mut s = active_book_session();
    let out = s.on_frame(Frame::Close);
    assert!(out.items.is_empty());
    assert_eq!(s.phase, Phase::Closed);
}

#[test]
fn transport_error_ends_the_stream() {
    let mut s = active_book_session();
    s.on_transport_error();
    assert_eq!(s.phase, Phase::Closed);
}

#[test]
fn order_channel_decodes_order_frames() {
    let mut s = Session::new(Channel::BitmexOrders);
    s.connected();
    s.auth_sent();
    s.subscribe_sent();
    let text = "{\"table\":\"order\",\"data\":[{\"orderID\":\"id-7\",\"ordStatus\":\"New\",\"cumQty\":0,\"price\":0.58}]}";
    let out = s.on_frame(Frame::Text(text.to_string()));
    match &out.items[0] {
        Ok(StreamEvent::Orders(evs)) => {
            assert_eq!(evs.len(), 1);
            assert_eq!(evs[0].order_id, "id-7");
            assert_eq!(evs[0].price, 5_800);
        }
        other => panic!("expected order events, got {:?}", other),
    }
}

#[test]
fn binary_frame_is_reported_not_fatal() {
    let mut s = active_book_session();
    let out = s.on_frame(Frame::Binary(vec![0xde, 0xad]));
    assert_eq!(out.items.len(), 1);
    assert!(out.items[0].is_err());
    assert_eq!(s.phase, Phase::Active);
}
