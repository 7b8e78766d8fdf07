//! The venue-A adapter (Bitmex wire conventions).
//!
//! REST calls are signed with an `api-expires`/`api-key`/`api-signature`
//! header triple over `METHOD + PATH + expires (+ body)`; streams speak
//! `{"op": ..., "args": [...]}` control messages and table-tagged data
//! frames.  This venue holds the resting orders in this system.

use vstd::prelude::*;

use crate::estimator::{tick_wf, BookTick, Level};
use crate::fixed::{append_ascii, spec_fmt_dec4, spec_uint_str, fmt_dec4, u64_str, AMOUNT_MAX, SCALE};
use crate::json::{
    get_m, json_plain, lemma_get_m_of_view, lemma_view_arr_props, opt_amount_m, plain_token,
    spec_opt_amount, spec_str_field, str_field_m, view_arr, view_json, Json, JsonModel,
};
use crate::order::{order_event_wf, OrderEvent};
use crate::quoter::Side;
use crate::session::{Channel, DecodeError, Session};
use crate::signer::{
    ascii_bytes, bitmex_signed_request, hmac_sha256_of, sign_hmac_hex, spec_bitmex_signature,
    spec_hex, ws_auth_canonical, SignedRequest,
};
use vstd::string::StringSliceAdditionalSpecFns;

verus! {

/// Venue-A handle: endpoints and credentials.
#[derive(Clone, Debug)]
pub struct Bitmex {
    pub api_url: String,
    pub wss_url: String,
    pub api_key: String,
    pub secret_key: String,
}

pub open spec fn bitmex_wf(b: Bitmex) -> bool {
    vstd::utf8::is_ascii_chars(b.api_key@) && vstd::utf8::is_ascii_chars(b.secret_key@)
}

/// A new-order request body, all fields as decimal strings.
#[derive(Clone, Debug)]
pub struct SubmitRequest {
    pub symbol: String,
    pub side: String,
    pub order_qty: String,
    pub price: String,
}

/// Fields that can stand inside a JSON string without escaping.
pub open spec fn submit_request_wf(r: SubmitRequest) -> bool {
    json_plain(r.symbol@) && json_plain(r.side@) && json_plain(r.order_qty@) && json_plain(
        r.price@,
    )
}

/// The JSON body for a new-order request.
pub open spec fn spec_submit_body(
    symbol: Seq<char>,
    side: Seq<char>,
    order_qty: Seq<char>,
    price: Seq<char>,
) -> Seq<char> {
    "{\"symbol\":\""@ + symbol + "\",\"side\":\""@ + side + "\",\"orderQty\":\""@ + order_qty
        + "\",\"price\":\""@ + price + "\"}"@
}

impl SubmitRequest {
    pub fn new(symbol: &str, side: &str, order_qty: &str, price: &str) -> (r: SubmitRequest)
        ensures
            r.symbol@ == symbol@,
            r.side@ == side@,
            r.order_qty@ == order_qty@,
            r.price@ == price@,
    {
        SubmitRequest {
            symbol: symbol.to_owned(),
            side: side.to_owned(),
            order_qty: order_qty.to_owned(),
            price: price.to_owned(),
        }
    }

    /// Serialize to the exact JSON text the venue expects.
    pub fn body_json(&self) -> (r: String)
        requires
            submit_request_wf(*self),
        ensures
            r@ == spec_submit_body(self.symbol@, self.side@, self.order_qty@, self.price@),
            r.is_ascii(),
    {
        let l1 = "{\"symbol\":\"";
        let l2 = "\",\"side\":\"";
        let l3 = "\",\"orderQty\":\"";
        let l4 = "\",\"price\":\"";
        let l5 = "\"}";
        proof {
            reveal_strlit("{\"symbol\":\"");
            reveal_strlit("\",\"side\":\"");
            reveal_strlit("\",\"orderQty\":\"");
            reveal_strlit("\",\"price\":\"");
            reveal_strlit("\"}");
            assert(vstd::utf8::is_ascii_chars(l1@));
            assert(vstd::utf8::is_ascii_chars(l2@));
            assert(vstd::utf8::is_ascii_chars(l3@));
            assert(vstd::utf8::is_ascii_chars(l4@));
            assert(vstd::utf8::is_ascii_chars(l5@));
            crate::json::lemma_plain_ascii(self.symbol@);
            crate::json::lemma_plain_ascii(self.side@);
            crate::json::lemma_plain_ascii(self.order_qty@);
            crate::json::lemma_plain_ascii(self.price@);
        }
        let mut r = String::new();
        proof {
            assert(r@ =~= Seq::<char>::empty());
        }
        append_ascii(&mut r, l1);
        append_ascii(&mut r, self.symbol.as_str());
        append_ascii(&mut r, l2);
        append_ascii(&mut r, self.side.as_str());
        append_ascii(&mut r, l3);
        append_ascii(&mut r, self.order_qty.as_str());
        append_ascii(&mut r, l4);
        append_ascii(&mut r, self.price.as_str());
        append_ascii(&mut r, l5);
        assert(r@ =~= spec_submit_body(self.symbol@, self.side@, self.order_qty@, self.price@));
        r
    }
}

/// The request body for a quote computed by the quoter: the side as the
/// venue spells it, the size floored to whole units and scaled to the
/// venue's lot of one thousandth, the price with all four decimals.
pub fn submit_request_from_quote(symbol: &str, side: Side, price: u64, quantity: u64) -> (r:
    SubmitRequest)
    requires
        plain_token(symbol@),
    ensures
        r.symbol@ == symbol@,
        r.side@ == (if side is Buy {
            "Buy"@
        } else {
            "Sell"@
        }),
        r.order_qty@ == spec_uint_str((quantity / 10000) * 1000),
        r.price@ == spec_fmt_dec4(price as int),
        submit_request_wf(r),
{
    let side_text = match side {
        Side::Buy => "Buy",
        Side::Sell => "Sell",
    };
    let qty = u64_str((quantity / SCALE) * 1000);
    let price_text = fmt_dec4(price);
    proof {
        reveal_strlit("Buy");
        reveal_strlit("Sell");
        crate::json::lemma_token_plain(symbol@);
        assert(json_plain(side_text@));
        crate::json::lemma_uint_str_plain((quantity / 10000) as int * 1000);
        crate::json::lemma_fmt_dec4_plain(price as int);
    }
    SubmitRequest::new(symbol, side_text, qty.as_str(), price_text.as_str())
}

/// Balance query parameters.
#[derive(Clone, Debug)]
pub struct GetBalancesRequest {
    pub currency: String,
}

impl GetBalancesRequest {
    pub fn new(currency: &str) -> (r: GetBalancesRequest)
        ensures
            r.currency@ == currency@,
    {
        GetBalancesRequest { currency: currency.to_owned() }
    }

    /// The query string for the wallet endpoint.
    pub fn query_string(&self) -> (r: String)
        requires
            plain_token(self.currency@),
        ensures
            r@ == "currency="@ + self.currency@,
            r.is_ascii(),
    {
        let l1 = "currency=";
        proof {
            reveal_strlit("currency=");
            assert(vstd::utf8::is_ascii_chars(l1@));
            crate::json::lemma_token_plain(self.currency@);
            crate::json::lemma_plain_ascii(self.currency@);
        }
        let mut r = String::new();
        proof {
            assert(r@ =~= Seq::<char>::empty());
        }
        append_ascii(&mut r, l1);
        append_ascii(&mut r, self.currency.as_str());
        assert(r@ =~= "currency="@ + self.currency@);
        r
    }
}

/// One price level as a wire pair: price text, then size text.
#[derive(Clone, Debug)]
pub struct PriceVolumePair(pub String, pub String);

/// Cancel-everything parameters (scoped to the spot category).
#[derive(Clone, Debug)]
pub struct CancelAllRequest {
    pub category: String,
}

impl CancelAllRequest {
    pub fn new() -> (r: CancelAllRequest)
        ensures
            r.category@ == "spot"@,
    {
        CancelAllRequest { category: String::from_str("spot") }
    }
}

impl Bitmex {
    /// A handle for the venue's production endpoints with the given
    /// credentials.
    pub fn new(api_key: &str, secret_key: &str) -> (r: Bitmex)
        requires
            api_key.is_ascii(),
            secret_key.is_ascii(),
        ensures
            r.api_url@ == "https://www.bitmex.com"@,
            r.wss_url@ == "wss://ws.bitmex.com/realtime"@,
            r.api_key@ == api_key@,
            r.secret_key@ == secret_key@,
            bitmex_wf(r),
    {
        Bitmex {
            api_url: String::from_str("https://www.bitmex.com"),
            wss_url: String::from_str("wss://ws.bitmex.com/realtime"),
            api_key: api_key.to_owned(),
            secret_key: secret_key.to_owned(),
        }
    }

    /// The signed wallet-balance call for one currency.
    pub fn get_balances(&self, coin: &str, expires: u64) -> (r: SignedRequest)
        requires
            bitmex_wf(*self),
            plain_token(coin@),
        ensures
            r.method@ == "GET"@,
            r.path@ == "/api/v1/user/wallet?currency="@ + coin@,
            r.body@.len() == 0,
            r.headers@.len() == 4,
            r.headers@[0].0@ == "api-expires"@ && r.headers@[0].1@ == spec_uint_str(expires as int),
            r.headers@[1].0@ == "api-key"@ && r.headers@[1].1@ == self.api_key@,
            r.headers@[2].0@ == "api-signature"@ && r.headers@[2].1@ == spec_bitmex_signature(
                self.secret_key@,
                "GET"@,
                "/api/v1/user/wallet?currency="@ + coin@,
                expires as int,
                Seq::<char>::empty(),
            ),
            r.headers@[3].0@ == "Content-Type"@ && r.headers@[3].1@ == "application/json"@,
    {
        let l1 = "/api/v1/user/wallet?currency=";
        let empty = "";
        proof {
            reveal_strlit("/api/v1/user/wallet?currency=");
            reveal_strlit("GET");
            reveal_strlit("");
            assert(vstd::utf8::is_ascii_chars(l1@));
            assert(vstd::utf8::is_ascii_chars("GET"@));
            assert(empty@ =~= Seq::<char>::empty());
            assert(vstd::utf8::is_ascii_chars(empty@));
            crate::json::lemma_token_plain(coin@);
            crate::json::lemma_plain_ascii(coin@);
        }
        let mut path = String::new();
        proof {
            assert(path@ =~= Seq::<char>::empty());
        }
        append_ascii(&mut path, l1);
        append_ascii(&mut path, coin);
        assert(path@ =~= "/api/v1/user/wallet?currency="@ + coin@);
        bitmex_signed_request(
            self.api_key.as_str(),
            self.secret_key.as_str(),
            "GET",
            path.as_str(),
            empty,
            expires,
        )
    }

    /// The signed new-order call for one request.
    pub fn submit_request(&self, request: &SubmitRequest, expires: u64) -> (r: SignedRequest)
        requires
            bitmex_wf(*self),
            submit_request_wf(*request),
        ensures
            r.method@ == "POST"@,
            r.path@ == "/api/v1/order"@,
            r.body@ == spec_submit_body(
                request.symbol@,
                request.side@,
                request.order_qty@,
                request.price@,
            ),
            r.headers@.len() == 4,
            r.headers@[0].0@ == "api-expires"@ && r.headers@[0].1@ == spec_uint_str(expires as int),
            r.headers@[1].0@ == "api-key"@ && r.headers@[1].1@ == self.api_key@,
            r.headers@[2].0@ == "api-signature"@ && r.headers@[2].1@ == spec_bitmex_signature(
                self.secret_key@,
                "POST"@,
                "/api/v1/order"@,
                expires as int,
                spec_submit_body(
                    request.symbol@,
                    request.side@,
                    request.order_qty@,
                    request.price@,
                ),
            ),
            r.headers@[3].0@ == "Content-Type"@ && r.headers@[3].1@ == "application/json"@,
    {
        let body = request.body_json();
        proof {
            reveal_strlit("POST");
            reveal_strlit("/api/v1/order");
            assert(vstd::utf8::is_ascii_chars("POST"@));
            assert(vstd::utf8::is_ascii_chars("/api/v1/order"@));
        }
        bitmex_signed_request(
            self.api_key.as_str(),
            self.secret_key.as_str(),
            "POST",
            "/api/v1/order",
            body.as_str(),
            expires,
        )
    }

    /// The signed cancel-everything call.
    pub fn cancel_all_active_orders(&self, expires: u64) -> (r: SignedRequest)
        requires
            bitmex_wf(*self),
        ensures
            r.method@ == "DELETE"@,
            r.path@ == "/api/v1/order/all"@,
            r.body@.len() == 0,
            r.headers@.len() == 4,
            r.headers@[0].0@ == "api-expires"@ && r.headers@[0].1@ == spec_uint_str(expires as int),
            r.headers@[1].0@ == "api-key"@ && r.headers@[1].1@ == self.api_key@,
            r.headers@[2].0@ == "api-signature"@ && r.headers@[2].1@ == spec_bitmex_signature(
                self.secret_key@,
                "DELETE"@,
                "/api/v1/order/all"@,
                expires as int,
                Seq::<char>::empty(),
            ),
            r.headers@[3].0@ == "Content-Type"@ && r.headers@[3].1@ == "application/json"@,
    {
        let empty = "";
        proof {
            reveal_strlit("DELETE");
            reveal_strlit("/api/v1/order/all");
            reveal_strlit("");
            assert(vstd::utf8::is_ascii_chars("DELETE"@));
            assert(vstd::utf8::is_ascii_chars("/api/v1/order/all"@));
            assert(empty@ =~= Seq::<char>::empty());
            assert(vstd::utf8::is_ascii_chars(empty@));
        }
        bitmex_signed_request(
            self.api_key.as_str(),
            self.secret_key.as_str(),
            "DELETE",
            "/api/v1/order/all",
            empty,
            expires,
        )
    }

    /// A session for the public top-of-book stream plus the subscribe
    /// message to send once connected.
    pub fn watch_order_book(&self, symbol: &str) -> (r: (Session, Vec<String>))
        requires
            plain_token(symbol@),
        ensures
            r.0.channel is BitmexBook,
            r.0.phase is Connecting,
            r.1@.len() == 1,
            r.1@[0]@ == spec_book_subscribe_text(symbol@),
    {
        let mut msgs: Vec<String> = Vec::new();
        msgs.push(book_subscribe_text(symbol));
        (Session::new(Channel::BitmexBook), msgs)
    }

    /// A session for the private order-update stream plus the auth and
    /// subscribe messages to send once connected, in order.
    pub fn watch_active_orders(&self, expires: u64) -> (r: (Session, Vec<String>))
        requires
            bitmex_wf(*self),
        ensures
            r.0.channel is BitmexOrders,
            r.0.phase is Connecting,
            r.1@.len() == 2,
            r.1@[0]@ == spec_auth_text(self.api_key@, self.secret_key@, expires as int),
            r.1@[1]@ == spec_orders_subscribe_text(),
    {
        let mut msgs: Vec<String> = Vec::new();
        msgs.push(self.auth_text(expires));
        msgs.push(orders_subscribe_text());
        (Session::new(Channel::BitmexOrders), msgs)
    }

    /// The stream auth message: api key, expiry and the signature over
    /// `GET/realtime` plus the expiry, in Unix seconds.
    pub fn auth_text(&self, expires: u64) -> (r: String)
        requires
            bitmex_wf(*self),
        ensures
            r@ == spec_auth_text(self.api_key@, self.secret_key@, expires as int),
            r.is_ascii(),
    {
        let l1 = "{\"op\":\"authKeyExpires\",\"args\":[\"";
        let l2 = "\",";
        let l3 = ",\"";
        let l4 = "\"]}";
        let canonical = ws_auth_canonical(expires);
        let cs = canonical.as_str();
        let sk = self.secret_key.as_str();
        let signature = sign_hmac_hex(sk, cs);
        proof {
            reveal_strlit("{\"op\":\"authKeyExpires\",\"args\":[\"");
            reveal_strlit("\",");
            reveal_strlit(",\"");
            reveal_strlit("\"]}");
            assert(vstd::utf8::is_ascii_chars(l1@));
            assert(vstd::utf8::is_ascii_chars(l2@));
            assert(vstd::utf8::is_ascii_chars(l3@));
            assert(vstd::utf8::is_ascii_chars(l4@));
            vstd::string::is_ascii_spec_bytes(sk);
            vstd::string::is_ascii_spec_bytes(cs);
            assert(sk.spec_bytes() =~= ascii_bytes(self.secret_key@));
            assert(cs.spec_bytes() =~= ascii_bytes("GET/realtime"@ + spec_uint_str(expires as int)));
        }
        let mut r = String::new();
        proof {
            assert(r@ =~= Seq::<char>::empty());
        }
        append_ascii(&mut r, l1);
        append_ascii(&mut r, self.api_key.as_str());
        append_ascii(&mut r, l2);
        let e = u64_str(expires);
        append_ascii(&mut r, e.as_str());
        append_ascii(&mut r, l3);
        append_ascii(&mut r, signature.as_str());
        append_ascii(&mut r, l4);
        assert(r@ =~= spec_auth_text(self.api_key@, self.secret_key@, expires as int));
        r
    }
}

/// The auth control message for the private stream.
pub open spec fn spec_auth_text(api_key: Seq<char>, secret: Seq<char>, expires: int) -> Seq<char> {
    "{\"op\":\"authKeyExpires\",\"args\":[\""@ + api_key + "\","@ + spec_uint_str(expires) + ",\""@
        + spec_hex(hmac_sha256_of(ascii_bytes(secret), ascii_bytes("GET/realtime"@ + spec_uint_str(expires))))
        + "\"]}"@
}

/// The subscribe control message for the top-of-book stream.
pub open spec fn spec_book_subscribe_text(symbol: Seq<char>) -> Seq<char> {
    "{\"op\":\"subscribe\",\"args\":[\"quote:"@ + symbol + "\"]}"@
}

/// The subscribe message for the quote channel of one symbol.
pub fn book_subscribe_text(symbol: &str) -> (r: String)
    requires
        plain_token(symbol@),
    ensures
        r@ == spec_book_subscribe_text(symbol@),
        r.is_ascii(),
{
    let l1 = "{\"op\":\"subscribe\",\"args\":[\"quote:";
    let l2 = "\"]}";
    proof {
        reveal_strlit("{\"op\":\"subscribe\",\"args\":[\"quote:");
        reveal_strlit("\"]}");
        assert(vstd::utf8::is_ascii_chars(l1@));
        assert(vstd::utf8::is_ascii_chars(l2@));
        crate::json::lemma_token_plain(symbol@);
        crate::json::lemma_plain_ascii(symbol@);
    }
    let mut r = String::new();
    proof {
        assert(r@ =~= Seq::<char>::empty());
    }
    append_ascii(&mut r, l1);
    append_ascii(&mut r, symbol);
    append_ascii(&mut r, l2);
    assert(r@ =~= spec_book_subscribe_text(symbol@));
    r
}

/// The subscribe control message for the private order channel.
pub open spec fn spec_orders_subscribe_text() -> Seq<char> {
    "{\"op\":\"subscribe\",\"args\":[\"order\"]}"@
}

/// The subscribe message for the private order channel.
pub fn orders_subscribe_text() -> (r: String)
    ensures
        r@ == spec_orders_subscribe_text(),
        r.is_ascii(),
{
    let l1 = "{\"op\":\"subscribe\",\"args\":[\"order\"]}";
    proof {
        reveal_strlit("{\"op\":\"subscribe\",\"args\":[\"order\"]}");
        assert(vstd::utf8::is_ascii_chars(l1@));
    }
    l1.to_owned()
}

/// An optional fixed-point field: absent or `null` is `None`; present
/// but not a bounded non-negative number is an error.
fn opt_amount_field(obj: &Json, key: &str) -> (r: Result<Option<u64>, DecodeError>)
    ensures
        r == spec_opt_amount(*obj, key@),
        r == opt_amount_m(view_json(*obj), key@),
        r matches Ok(Some(v)) ==> crate::fixed::amount_ok(v),
{
    proof {
        lemma_get_m_of_view(*obj, key@);
    }
    match obj.get(key) {
        None => Ok(None),
        Some(j) => {
            match j {
                Json::Null => Ok(None),
                _ => {
                    match j.as_amount() {
                        Some(m) => {
                            if m <= AMOUNT_MAX {
                                Ok(Some(m))
                            } else {
                                Err(DecodeError {})
                            }
                        },
                        None => Err(DecodeError {}),
                    }
                },
            }
        },
    }
}

/// A required string field.
fn str_field(obj: &Json, key: &str) -> (r: Result<String, DecodeError>)
    ensures
        r is Ok <==> spec_str_field(*obj, key@) is Some,
        r matches Ok(s) ==> Some(s@) == spec_str_field(*obj, key@),
        r is Ok <==> str_field_m(view_json(*obj), key@) is Some,
        r matches Ok(s) ==> Some(s@) == str_field_m(view_json(*obj), key@),
{
    proof {
        lemma_get_m_of_view(*obj, key@);
    }
    match obj.get(key) {
        None => Err(DecodeError {}),
        Some(j) => {
            match j.as_str() {
                Some(s) => Ok(s.clone()),
                None => Err(DecodeError {}),
            }
        },
    }
}

/// Does the frame's `table` field name the expected channel?
fn table_is(v: &Json, expected: &str) -> (r: bool)
    ensures
        r == (str_field_m(view_json(*v), "table"@) == Some(expected@)),
{
    proof {
        lemma_get_m_of_view(*v, "table"@);
    }
    match v.get("table") {
        None => false,
        Some(t) => {
            match t.as_str() {
                Some(s) => crate::json::str_eq_maybe(s, expected),
                None => false,
            }
        },
    }
}

/// The tick a quote row denotes, if its four level fields are absent
/// or bounded numbers: a side is present exactly when its price is,
/// carrying that price and its size (zero when the size is absent).
pub open spec fn spec_row_tick(row: JsonModel) -> Option<BookTick> {
    if opt_amount_m(row, "bidPrice"@) is Ok && opt_amount_m(row, "bidSize"@) is Ok && opt_amount_m(
        row,
        "askPrice"@,
    ) is Ok && opt_amount_m(row, "askSize"@) is Ok {
        Some(
            BookTick {
                bid: match opt_amount_m(row, "bidPrice"@) {
                    Ok(Some(p)) => Some(
                        Level {
                            price: p,
                            size: match opt_amount_m(row, "bidSize"@) {
                                Ok(Some(z)) => z,
                                _ => 0u64,
                            },
                        },
                    ),
                    _ => None,
                },
                ask: match opt_amount_m(row, "askPrice"@) {
                    Ok(Some(p)) => Some(
                        Level {
                            price: p,
                            size: match opt_amount_m(row, "askSize"@) {
                                Ok(Some(z)) => z,
                                _ => 0u64,
                            },
                        },
                    ),
                    _ => None,
                },
            },
        )
    } else {
        None
    }
}

/// The first data row of a `quote`-table frame, if the text is one.
pub open spec fn spec_quote_row(s: Seq<char>) -> Option<JsonModel> {
    match crate::json::spec_json_doc(s) {
        Some(doc) => if str_field_m(doc, "table"@) == Some("quote"@) {
            match get_m(doc, "data"@) {
                Some(JsonModel::Arr(rows)) => if rows.len() > 0 {
                    Some(rows[0])
                } else {
                    None
                },
                _ => None,
            }
        } else {
            None
        },
        None => None,
    }
}

/// The tick a top-of-book frame denotes, if the text is a `quote`
/// frame whose first row's level fields decode.
pub open spec fn spec_book_tick(s: Seq<char>) -> Option<BookTick> {
    match spec_quote_row(s) {
        Some(row) => spec_row_tick(row),
        None => None,
    }
}

/// The tick a quote row denotes: the row decodes exactly when all four
/// level fields are absent or bounded numbers, a side is present
/// exactly when its price is, and a present side carries that price
/// with its size (zero when the size is absent).
pub fn quote_row_tick(row: &Json) -> (r: Result<BookTick, DecodeError>)
    ensures
        r is Ok <==> spec_row_tick(view_json(*row)) is Some,
        r matches Ok(t) ==> Some(t) == spec_row_tick(view_json(*row)) && tick_wf(t),
{
    let bid_price = match opt_amount_field(row, "bidPrice") {
        Ok(p) => p,
        Err(e) => {
            return Err(e);
        },
    };
    let bid_size = match opt_amount_field(row, "bidSize") {
        Ok(p) => p,
        Err(e) => {
            return Err(e);
        },
    };
    let ask_price = match opt_amount_field(row, "askPrice") {
        Ok(p) => p,
        Err(e) => {
            return Err(e);
        },
    };
    let ask_size = match opt_amount_field(row, "askSize") {
        Ok(p) => p,
        Err(e) => {
            return Err(e);
        },
    };
    let bid = match bid_price {
        Some(p) => Some(
            Level {
                price: p,
                size: match bid_size {
                    Some(s) => s,
                    None => 0,
                },
            },
        ),
        None => None,
    };
    let ask = match ask_price {
        Some(p) => Some(
            Level {
                price: p,
                size: match ask_size {
                    Some(s) => s,
                    None => 0,
                },
            },
        ),
        None => None,
    };
    Ok(BookTick { bid, ask })
}

/// Decode a top-of-book frame: a `quote` table row with the best bid
/// and ask, exactly the tick [`spec_book_tick`] reads from the text.
/// A side whose price is absent is reported as missing, which the
/// estimator then retains from before.
pub fn decode_order_book(text: &str) -> (r: Result<BookTick, DecodeError>)
    ensures
        r is Ok <==> spec_book_tick(text@) is Some,
        r matches Ok(t) ==> Some(t) == spec_book_tick(text@) && tick_wf(t),
{
    let v = match crate::json::parse_json(text) {
        Some(v) => v,
        None => {
            return Err(DecodeError {});
        },
    };
    let ghost doc = view_json(v);
    if !table_is(&v, "quote") {
        return Err(DecodeError {});
    }
    proof {
        lemma_get_m_of_view(v, "data"@);
    }
    let rows = match v.get("data") {
        Some(d) => {
            match d.as_arr() {
                Some(a) => a,
                None => {
                    return Err(DecodeError {});
                },
            }
        },
        None => {
            return Err(DecodeError {});
        },
    };
    proof {
        lemma_view_arr_props(rows@);
    }
    if rows.len() == 0 {
        return Err(DecodeError {});
    }
    proof {
        assert(spec_quote_row(text@) == Some(view_json(rows@[0])));
    }
    quote_row_tick(&rows[0])
}

/// Decode a private order frame: an `order` table with one event per
/// row, each exactly as [`event_matches_row`] reads it.  Every row
/// must carry its order id; status, fill and price are optional.
pub fn decode_active_orders(text: &str) -> (r: Result<Vec<OrderEvent>, DecodeError>)
    ensures
        r is Ok <==> spec_orders_ok(text@),
        r matches Ok(evs) ==> events_match_frame(evs@, text@) && (forall|i: int|
            0 <= i < evs@.len() ==> order_event_wf(#[trigger] evs@[i])),
{
    let v = match crate::json::parse_json(text) {
        Some(v) => v,
        None => {
            return Err(DecodeError {});
        },
    };
    if !table_is(&v, "order") {
        return Err(DecodeError {});
    }
    proof {
        lemma_get_m_of_view(v, "data"@);
    }
    let rows = match v.get("data") {
        Some(d) => {
            match d.as_arr() {
                Some(a) => a,
                None => {
                    return Err(DecodeError {});
                },
            }
        },
        None => {
            return Err(DecodeError {});
        },
    };
    proof {
        lemma_view_arr_props(rows@);
        assert(spec_order_rows(text@) == Some(view_arr(rows@)));
    }
    let mut events: Vec<OrderEvent> = Vec::new();
    let n = rows.len();
    let mut i: usize = 0;
    while i < n
        invariant
            n == rows@.len(),
            0 <= i <= n,
            events@.len() == i,
            spec_order_rows(text@) == Some(view_arr(rows@)),
            view_arr(rows@).len() == n,
            forall|k: int|
                0 <= k < i ==> row_event_ok(#[trigger] view_arr(rows@)[k]) && event_matches_row(
                    events@[k],
                    view_arr(rows@)[k],
                ),
            forall|k: int| 0 <= k < events@.len() ==> order_event_wf(#[trigger] events@[k]),
        decreases n - i,
    {
        proof {
            lemma_view_arr_props(rows@);
        }
        match order_event_of_row(&rows[i]) {
            Ok(ev) => events.push(ev),
            Err(e) => {
                proof {
                    assert(view_arr(rows@)[i as int] == view_json(rows@[i as int]));
                    assert(!row_event_ok(view_arr(rows@)[i as int]));
                    let rows_m = spec_order_rows(text@)->0;
                    assert(rows_m == view_arr(rows@));
                    assert(spec_orders_ok(text@) ==> row_event_ok(rows_m[i as int]));
                    assert(!spec_orders_ok(text@));
                }
                return Err(e);
            },
        }
        i = i + 1;
    }
    Ok(events)
}

/// An order row decodes exactly when it carries its order id as a
/// string and its fill and price fields, if present, are bounded
/// numbers.
pub open spec fn row_event_ok(row: JsonModel) -> bool {
    &&& str_field_m(row, "orderID"@) is Some
    &&& opt_amount_m(row, "cumQty"@) is Ok
    &&& opt_amount_m(row, "price"@) is Ok
}

/// The event an order row denotes: its id, its status (empty when
/// absent), and its fill and price (zero when absent).
pub open spec fn event_matches_row(ev: OrderEvent, row: JsonModel) -> bool {
    &&& Some(ev.order_id@) == str_field_m(row, "orderID"@)
    &&& ev.status@ == (match str_field_m(row, "ordStatus"@) {
        Some(t) => t,
        None => Seq::<char>::empty(),
    })
    &&& ev.filled_qty == (match opt_amount_m(row, "cumQty"@) {
        Ok(Some(q)) => q,
        _ => 0u64,
    })
    &&& ev.price == (match opt_amount_m(row, "price"@) {
        Ok(Some(p)) => p,
        _ => 0u64,
    })
}

/// The data rows of an `order`-table frame, if the text is one.
pub open spec fn spec_order_rows(s: Seq<char>) -> Option<Seq<JsonModel>> {
    match crate::json::spec_json_doc(s) {
        Some(doc) => if str_field_m(doc, "table"@) == Some("order"@) {
            match get_m(doc, "data"@) {
                Some(JsonModel::Arr(rows)) => Some(rows),
                _ => None,
            }
        } else {
            None
        },
        None => None,
    }
}

/// The text is an `order` frame every row of which decodes.
pub open spec fn spec_orders_ok(s: Seq<char>) -> bool {
    spec_order_rows(s) matches Some(rows) && (forall|k: int|
        0 <= k < rows.len() ==> row_event_ok(#[trigger] rows[k]))
}

/// The events denote the frame's rows, one for one and in order.
pub open spec fn events_match_frame(evs: Seq<OrderEvent>, s: Seq<char>) -> bool {
    spec_order_rows(s) matches Some(rows) && evs.len() == rows.len() && (forall|k: int|
        0 <= k < rows.len() ==> event_matches_row(#[trigger] evs[k], rows[k]))
}

/// The event one order row denotes: the row decodes exactly when it
/// carries its order id as a string and its fill and price fields, if
/// present, are bounded numbers; a missing status reads as empty, a
/// missing fill or price as zero.
pub fn order_event_of_row(row: &Json) -> (r: Result<OrderEvent, DecodeError>)
    ensures
        r is Ok <==> row_event_ok(view_json(*row)),
        r matches Ok(ev) ==> event_matches_row(ev, view_json(*row)) && order_event_wf(ev),
{
    proof {
        lemma_get_m_of_view(*row, "ordStatus"@);
    }
    let order_id = match str_field(row, "orderID") {
        Ok(s) => s,
        Err(e) => {
            return Err(e);
        },
    };
    let status = match row.get("ordStatus") {
        Some(j) => {
            match j.as_str() {
                Some(s) => s.clone(),
                None => String::new(),
            }
        },
        None => String::new(),
    };
    let filled_qty = match opt_amount_field(row, "cumQty") {
        Ok(Some(q)) => q,
        Ok(None) => 0,
        Err(e) => {
            return Err(e);
        },
    };
    let price = match opt_amount_field(row, "price") {
        Ok(Some(p)) => p,
        Ok(None) => 0,
        Err(e) => {
            return Err(e);
        },
    };
    Ok(OrderEvent { order_id, status, filled_qty, price })
}

} // verus!
