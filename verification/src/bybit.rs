//! The venue-B adapter (Bybit wire conventions).
//!
//! REST calls carry `X-BAPI-API-KEY`/`X-BAPI-TIMESTAMP`/`X-BAPI-SIGN`
//! headers, the signature taken over `timestamp + apiKey + payload` in
//! Unix milliseconds; streams speak `{"req_id", "op", "args"}` control
//! messages and topic-tagged data frames.  This venue is the source of
//! top-of-book ticks and balances in this system.

use vstd::prelude::*;

use crate::estimator::{tick_wf, BookTick, Level};
use crate::fixed::{
    amount_ok, append_ascii, dec4_val, dec4_wf, parse_dec4, spec_uint_str, u64_str, AMOUNT_MAX,
};
use crate::json::{
    amount_str_m, bool_or_false_m, get_m, json_plain, lemma_get_m_of_view, lemma_view_arr_props,
    plain_token, spec_amount_str, str_eq_maybe, str_field_m, str_or_empty_m,
    uint_field_m, view_arr, view_json, Json, JsonModel,
};
use crate::order::{order_event_wf, OrderEvent};
use crate::session::{Channel, DecodeError, Session};
use crate::signer::{bybit_signed_request, spec_bybit_signature, sign_hmac_hex, ws_auth_canonical, ascii_bytes, hmac_sha256_of, spec_hex, SignedRequest};
use vstd::string::StringSliceAdditionalSpecFns;

verus! {

/// Venue-B handle: endpoints and credentials.
#[derive(Clone, Debug)]
pub struct Bybit {
    pub api_url: String,
    pub public_wss_url: String,
    pub private_wss_url: String,
    pub api_key: String,
    pub secret_key: String,
}

pub open spec fn bybit_wf(b: Bybit) -> bool {
    vstd::utf8::is_ascii_chars(b.api_key@) && vstd::utf8::is_ascii_chars(b.secret_key@)
}

/// A new-order request body, all dynamic fields as decimal strings.
#[derive(Clone, Debug)]
pub struct SubmitRequest {
    pub category: String,
    pub symbol: String,
    pub side: String,
    pub order_type: String,
    pub qty: String,
    pub price: String,
}

pub open spec fn submit_request_wf(r: SubmitRequest) -> bool {
    &&& r.category@ == "spot"@
    &&& r.order_type@ == "Limit"@
    &&& json_plain(r.symbol@)
    &&& json_plain(r.side@)
    &&& json_plain(r.qty@)
    &&& json_plain(r.price@)
}

/// The JSON body for a new spot limit order.
pub open spec fn spec_submit_body(
    symbol: Seq<char>,
    side: Seq<char>,
    qty: Seq<char>,
    price: Seq<char>,
) -> Seq<char> {
    "{\"category\":\"spot\",\"symbol\":\""@ + symbol + "\",\"side\":\""@ + side
        + "\",\"orderType\":\"Limit\",\"qty\":\""@ + qty + "\",\"price\":\""@ + price + "\"}"@
}

impl SubmitRequest {
    /// A spot limit order for the given symbol, side, size and price.
    pub fn new(symbol: &str, side: &str, qty: &str, price: &str) -> (r: SubmitRequest)
        ensures
            r.category@ == "spot"@,
            r.order_type@ == "Limit"@,
            r.symbol@ == symbol@,
            r.side@ == side@,
            r.qty@ == qty@,
            r.price@ == price@,
    {
        proof {
            reveal_strlit("spot");
            reveal_strlit("Limit");
        }
        SubmitRequest {
            category: String::from_str("spot"),
            symbol: symbol.to_owned(),
            side: side.to_owned(),
            order_type: String::from_str("Limit"),
            qty: qty.to_owned(),
            price: price.to_owned(),
        }
    }

    /// Serialize to the exact JSON text the venue expects.
    pub fn body_json(&self) -> (r: String)
        requires
            submit_request_wf(*self),
        ensures
            r@ == spec_submit_body(self.symbol@, self.side@, self.qty@, self.price@),
            r.is_ascii(),
    {
        let l1 = "{\"category\":\"spot\",\"symbol\":\"";
        let l2 = "\",\"side\":\"";
        let l3 = "\",\"orderType\":\"Limit\",\"qty\":\"";
        let l4 = "\",\"price\":\"";
        let l5 = "\"}";
        proof {
            reveal_strlit("{\"category\":\"spot\",\"symbol\":\"");
            reveal_strlit("\",\"side\":\"");
            reveal_strlit("\",\"orderType\":\"Limit\",\"qty\":\"");
            reveal_strlit("\",\"price\":\"");
            reveal_strlit("\"}");
            assert(vstd::utf8::is_ascii_chars(l1@));
            assert(vstd::utf8::is_ascii_chars(l2@));
            assert(vstd::utf8::is_ascii_chars(l3@));
            assert(vstd::utf8::is_ascii_chars(l4@));
            assert(vstd::utf8::is_ascii_chars(l5@));
            crate::json::lemma_plain_ascii(self.symbol@);
            crate::json::lemma_plain_ascii(self.side@);
            crate::json::lemma_plain_ascii(self.qty@);
            crate::json::lemma_plain_ascii(self.price@);
        }
        let mut r = String::new();
        proof {
            assert(r@ =~= Seq::<char>::empty());
        }
        append_ascii(&mut r, l1);
        append_ascii(&mut r, self.symbol.as_str());
        append_ascii(&mut r, l2);
        append_ascii(&mut r, self.side.as_str());
        append_ascii(&mut r, l3);
        append_ascii(&mut r, self.qty.as_str());
        append_ascii(&mut r, l4);
        append_ascii(&mut r, self.price.as_str());
        append_ascii(&mut r, l5);
        assert(r@ =~= spec_submit_body(self.symbol@, self.side@, self.qty@, self.price@));
        r
    }
}

/// Balance query parameters for the unified account.
#[derive(Clone, Debug)]
pub struct GetBalancesRequest {
    pub account_type: String,
    pub coin: String,
}

impl GetBalancesRequest {
    pub fn new(coin: &str) -> (r: GetBalancesRequest)
        ensures
            r.account_type@ == "UNIFIED"@,
            r.coin@ == coin@,
    {
        proof {
            reveal_strlit("UNIFIED");
        }
        GetBalancesRequest { account_type: String::from_str("UNIFIED"), coin: coin.to_owned() }
    }

    /// The query string for the wallet-balance endpoint.
    pub fn query_string(&self) -> (r: String)
        requires
            self.account_type@ == "UNIFIED"@,
            plain_token(self.coin@),
        ensures
            r@ == "accountType=UNIFIED&coin="@ + self.coin@,
            r.is_ascii(),
    {
        let l1 = "accountType=UNIFIED&coin=";
        proof {
            reveal_strlit("accountType=UNIFIED&coin=");
            assert(vstd::utf8::is_ascii_chars(l1@));
            crate::json::lemma_token_plain(self.coin@);
            crate::json::lemma_plain_ascii(self.coin@);
        }
        let mut r = String::new();
        proof {
            assert(r@ =~= Seq::<char>::empty());
        }
        append_ascii(&mut r, l1);
        append_ascii(&mut r, self.coin.as_str());
        assert(r@ =~= "accountType=UNIFIED&coin="@ + self.coin@);
        r
    }
}

/// Cancel-everything parameters (scoped to the spot category).
#[derive(Clone, Debug)]
pub struct CancelAllRequest {
    pub category: String,
}

impl CancelAllRequest {
    pub fn new() -> (r: CancelAllRequest)
        ensures
            r.category@ == "spot"@,
    {
        proof {
            reveal_strlit("spot");
        }
        CancelAllRequest { category: String::from_str("spot") }
    }

    /// The JSON body for the cancel-all endpoint.
    pub fn body_json(&self) -> (r: String)
        requires
            self.category@ == "spot"@,
        ensures
            r@ == "{\"category\":\"spot\"}"@,
            r.is_ascii(),
    {
        let l1 = "{\"category\":\"spot\"}";
        proof {
            reveal_strlit("{\"category\":\"spot\"}");
            assert(vstd::utf8::is_ascii_chars(l1@));
        }
        l1.to_owned()
    }
}

/// A parsed top-of-book frame.
#[derive(Clone, Debug)]
pub struct OrderBookResponse {
    pub topic: String,
    pub ts: u64,
    pub t: String,
    pub data: OrderBookDataResponse,
}

/// The frame's payload: symbol and the best levels of each side, price
/// and size as decimal strings.
#[derive(Clone, Debug)]
pub struct OrderBookDataResponse {
    pub s: String,
    pub b: Vec<PriceVolumePair>,
    pub a: Vec<PriceVolumePair>,
}

/// One price level as the wire carries it: price text, then size text.
#[derive(Clone, Debug)]
pub struct PriceVolumePair(pub String, pub String);

/// The payload of a wallet-balance response.
#[derive(Clone, Debug)]
pub struct GetBalancesResult {
    pub list: Vec<GetBalancesAccount>,
}

/// One account in a wallet-balance response; the quoting loop reads
/// only the per-coin wallet balances.
#[derive(Clone, Debug)]
pub struct GetBalancesAccount {
    pub total_equity: String,
    pub account_im_rate: String,
    pub total_margin_balance: String,
    pub total_initial_margin: String,
    pub account_type: String,
    pub total_available_balance: String,
    pub account_mm_rate: String,
    pub total_perp_upl: String,
    pub total_wallet_balance: String,
    pub account_ltv: String,
    pub total_maintenance_margin: String,
    pub coin: Vec<GetBalancesCoin>,
}

/// One coin's balances within an account.
#[derive(Clone, Debug)]
pub struct GetBalancesCoin {
    pub available_to_borrow: String,
    pub bonus: String,
    pub accrued_interest: String,
    pub available_to_withdraw: String,
    pub total_order_im: String,
    pub equity: String,
    pub total_position_mm: String,
    pub usd_value: String,
    pub unrealised_pnl: String,
    pub collateral_switch: bool,
    pub spot_hedging_qty: String,
    pub borrow_amount: String,
    pub total_position_im: String,
    pub wallet_balance: String,
    pub cum_realised_pnl: String,
    pub locked: String,
    pub margin_collateral: bool,
    pub coin: String,
}

impl Bybit {
    /// A handle for the venue's production endpoints with the given
    /// credentials.
    pub fn new(api_key: &str, secret_key: &str) -> (r: Bybit)
        requires
            api_key.is_ascii(),
            secret_key.is_ascii(),
        ensures
            r.api_url@ == "https://api.bybit.com"@,
            r.public_wss_url@ == "wss://stream.bybit.com/v5/public/spot"@,
            r.private_wss_url@ == "wss://stream.bybit.com/v5/private"@,
            r.api_key@ == api_key@,
            r.secret_key@ == secret_key@,
            bybit_wf(r),
    {
        Bybit {
            api_url: String::from_str("https://api.bybit.com"),
            public_wss_url: String::from_str("wss://stream.bybit.com/v5/public/spot"),
            private_wss_url: String::from_str("wss://stream.bybit.com/v5/private"),
            api_key: api_key.to_owned(),
            secret_key: secret_key.to_owned(),
        }
    }

    /// The signed wallet-balance call for one coin.
    pub fn get_balances(&self, coin: &str, timestamp: u64) -> (r: SignedRequest)
        requires
            bybit_wf(*self),
            plain_token(coin@),
        ensures
            r.method@ == "GET"@,
            r.path@ == "/v5/account/wallet-balance?accountType=UNIFIED&coin="@ + coin@,
            r.body@.len() == 0,
            r.headers@.len() == 4,
            r.headers@[0].0@ == "X-BAPI-API-KEY"@ && r.headers@[0].1@ == self.api_key@,
            r.headers@[1].0@ == "X-BAPI-TIMESTAMP"@ && r.headers@[1].1@ == spec_uint_str(
                timestamp as int,
            ),
            r.headers@[2].0@ == "X-BAPI-SIGN"@ && r.headers@[2].1@ == spec_bybit_signature(
                self.secret_key@,
                timestamp as int,
                self.api_key@,
                "accountType=UNIFIED&coin="@ + coin@,
            ),
            r.headers@[3].0@ == "Content-Type"@ && r.headers@[3].1@ == "application/json"@,
    {
        let query = GetBalancesRequest::new(coin).query_string();
        let l1 = "/v5/account/wallet-balance?";
        let empty = "";
        proof {
            reveal_strlit("/v5/account/wallet-balance?");
            reveal_strlit("accountType=UNIFIED&coin=");
            reveal_strlit("/v5/account/wallet-balance?accountType=UNIFIED&coin=");
            reveal_strlit("GET");
            reveal_strlit("");
            assert(vstd::utf8::is_ascii_chars(l1@));
            assert(vstd::utf8::is_ascii_chars("GET"@));
            assert(empty@ =~= Seq::<char>::empty());
            assert(vstd::utf8::is_ascii_chars(empty@));
        }
        let mut path = String::new();
        proof {
            assert(path@ =~= Seq::<char>::empty());
        }
        append_ascii(&mut path, l1);
        append_ascii(&mut path, query.as_str());
        assert(path@ =~= "/v5/account/wallet-balance?accountType=UNIFIED&coin="@ + coin@);
        bybit_signed_request(
            self.api_key.as_str(),
            self.secret_key.as_str(),
            "GET",
            path.as_str(),
            query.as_str(),
            empty,
            timestamp,
        )
    }

    /// The signed new-order call for one request.
    pub fn submit_request(&self, request: &SubmitRequest, timestamp: u64) -> (r: SignedRequest)
        requires
            bybit_wf(*self),
            submit_request_wf(*request),
        ensures
            r.method@ == "POST"@,
            r.path@ == "/v5/order/create"@,
            r.body@ == spec_submit_body(request.symbol@, request.side@, request.qty@, request.price@),
            r.headers@.len() == 4,
            r.headers@[0].0@ == "X-BAPI-API-KEY"@ && r.headers@[0].1@ == self.api_key@,
            r.headers@[1].0@ == "X-BAPI-TIMESTAMP"@ && r.headers@[1].1@ == spec_uint_str(
                timestamp as int,
            ),
            r.headers@[2].0@ == "X-BAPI-SIGN"@ && r.headers@[2].1@ == spec_bybit_signature(
                self.secret_key@,
                timestamp as int,
                self.api_key@,
                spec_submit_body(request.symbol@, request.side@, request.qty@, request.price@),
            ),
            r.headers@[3].0@ == "Content-Type"@ && r.headers@[3].1@ == "application/json"@,
    {
        let body = request.body_json();
        proof {
            reveal_strlit("POST");
            reveal_strlit("/v5/order/create");
            assert(vstd::utf8::is_ascii_chars("POST"@));
            assert(vstd::utf8::is_ascii_chars("/v5/order/create"@));
        }
        bybit_signed_request(
            self.api_key.as_str(),
            self.secret_key.as_str(),
            "POST",
            "/v5/order/create",
            body.as_str(),
            body.as_str(),
            timestamp,
        )
    }

    /// The signed cancel-everything call for the spot category.
    pub fn cancel_all_active_orders(&self, timestamp: u64) -> (r: SignedRequest)
        requires
            bybit_wf(*self),
        ensures
            r.method@ == "POST"@,
            r.path@ == "/v5/order/cancel-all"@,
            r.body@ == "{\"category\":\"spot\"}"@,
            r.headers@.len() == 4,
            r.headers@[0].0@ == "X-BAPI-API-KEY"@ && r.headers@[0].1@ == self.api_key@,
            r.headers@[1].0@ == "X-BAPI-TIMESTAMP"@ && r.headers@[1].1@ == spec_uint_str(
                timestamp as int,
            ),
            r.headers@[2].0@ == "X-BAPI-SIGN"@ && r.headers@[2].1@ == spec_bybit_signature(
                self.secret_key@,
                timestamp as int,
                self.api_key@,
                "{\"category\":\"spot\"}"@,
            ),
            r.headers@[3].0@ == "Content-Type"@ && r.headers@[3].1@ == "application/json"@,
    {
        let body = CancelAllRequest::new().body_json();
        proof {
            reveal_strlit("POST");
            reveal_strlit("/v5/order/cancel-all");
            assert(vstd::utf8::is_ascii_chars("POST"@));
            assert(vstd::utf8::is_ascii_chars("/v5/order/cancel-all"@));
        }
        bybit_signed_request(
            self.api_key.as_str(),
            self.secret_key.as_str(),
            "POST",
            "/v5/order/cancel-all",
            body.as_str(),
            body.as_str(),
            timestamp,
        )
    }

    /// A session for the public top-of-book stream plus the subscribe
    /// message to send once connected.
    pub fn watch_order_book(&self, symbol: &str) -> (r: (Session, Vec<String>))
        requires
            plain_token(symbol@),
        ensures
            r.0.channel is BybitBook,
            r.0.phase is Connecting,
            r.1@.len() == 1,
            exists|rid: Seq<char>|
                json_plain(rid) && r.1@[0]@ == spec_book_subscribe_text(rid, symbol@),
    {
        let rid = new_request_id();
        let mut msgs: Vec<String> = Vec::new();
        msgs.push(book_subscribe_text(rid.as_str(), symbol));
        proof {
            assert(json_plain(rid@) && msgs@[0]@ == spec_book_subscribe_text(rid@, symbol@));
        }
        (Session::new(Channel::BybitBook), msgs)
    }

    /// A session for the private order-update stream plus the auth and
    /// subscribe messages to send once connected, in order.
    pub fn watch_active_orders(&self, expires_millis: u64) -> (r: (Session, Vec<String>))
        requires
            bybit_wf(*self),
        ensures
            r.0.channel is BybitOrders,
            r.0.phase is Connecting,
            r.1@.len() == 2,
            exists|rid: Seq<char>|
                json_plain(rid) && r.1@[0]@ == spec_auth_text(
                    rid,
                    self.api_key@,
                    self.secret_key@,
                    expires_millis as int,
                ),
            exists|rid: Seq<char>|
                json_plain(rid) && r.1@[1]@ == spec_orders_subscribe_text(rid),
    {
        let rid1 = new_request_id();
        let rid2 = new_request_id();
        let mut msgs: Vec<String> = Vec::new();
        msgs.push(self.auth_text(rid1.as_str(), expires_millis));
        msgs.push(orders_subscribe_text(rid2.as_str()));
        proof {
            assert(json_plain(rid1@) && msgs@[0]@ == spec_auth_text(
                rid1@,
                self.api_key@,
                self.secret_key@,
                expires_millis as int,
            ));
            assert(json_plain(rid2@) && msgs@[1]@ == spec_orders_subscribe_text(rid2@));
        }
        (Session::new(Channel::BybitOrders), msgs)
    }

    /// The stream auth message: api key, expiry in milliseconds and the
    /// signature over `GET/realtime` plus the expiry, all as strings.
    pub fn auth_text(&self, req_id: &str, expires_millis: u64) -> (r: String)
        requires
            bybit_wf(*self),
            json_plain(req_id@),
        ensures
            r@ == spec_auth_text(req_id@, self.api_key@, self.secret_key@, expires_millis as int),
            r.is_ascii(),
    {
        let l1 = "{\"req_id\":\"";
        let l2 = "\",\"op\":\"authKeyExpires\",\"args\":[\"";
        let l3 = "\",\"";
        let l4 = "\"]}";
        let canonical = ws_auth_canonical(expires_millis);
        let cs = canonical.as_str();
        let sk = self.secret_key.as_str();
        let signature = sign_hmac_hex(sk, cs);
        proof {
            reveal_strlit("{\"req_id\":\"");
            reveal_strlit("\",\"op\":\"authKeyExpires\",\"args\":[\"");
            reveal_strlit("\",\"");
            reveal_strlit("\"]}");
            assert(vstd::utf8::is_ascii_chars(l1@));
            assert(vstd::utf8::is_ascii_chars(l2@));
            assert(vstd::utf8::is_ascii_chars(l3@));
            assert(vstd::utf8::is_ascii_chars(l4@));
            crate::json::lemma_plain_ascii(req_id@);
            vstd::string::is_ascii_spec_bytes(sk);
            vstd::string::is_ascii_spec_bytes(cs);
            assert(sk.spec_bytes() =~= ascii_bytes(self.secret_key@));
            assert(cs.spec_bytes() =~= ascii_bytes(
                "GET/realtime"@ + spec_uint_str(expires_millis as int),
            ));
        }
        let mut r = String::new();
        proof {
            assert(r@ =~= Seq::<char>::empty());
        }
        append_ascii(&mut r, l1);
        append_ascii(&mut r, req_id);
        append_ascii(&mut r, l2);
        append_ascii(&mut r, self.api_key.as_str());
        append_ascii(&mut r, l3);
        let e = u64_str(expires_millis);
        append_ascii(&mut r, e.as_str());
        append_ascii(&mut r, l3);
        append_ascii(&mut r, signature.as_str());
        append_ascii(&mut r, l4);
        assert(r@ =~= spec_auth_text(
            req_id@,
            self.api_key@,
            self.secret_key@,
            expires_millis as int,
        ));
        r
    }
}

/// The auth control message for the private stream: all three
/// arguments are sent as strings.
pub open spec fn spec_auth_text(
    req_id: Seq<char>,
    api_key: Seq<char>,
    secret: Seq<char>,
    expires_millis: int,
) -> Seq<char> {
    "{\"req_id\":\""@ + req_id + "\",\"op\":\"authKeyExpires\",\"args\":[\""@ + api_key + "\",\""@
        + spec_uint_str(expires_millis) + "\",\""@ + spec_hex(
        hmac_sha256_of(
            ascii_bytes(secret),
            ascii_bytes("GET/realtime"@ + spec_uint_str(expires_millis)),
        ),
    ) + "\"]}"@
}

/// The subscribe control message for the top-of-book stream of one
/// symbol.
pub open spec fn spec_book_subscribe_text(req_id: Seq<char>, symbol: Seq<char>) -> Seq<char> {
    "{\"req_id\":\""@ + req_id + "\",\"op\":\"subscribe\",\"args\":[\"orderbook.1."@ + symbol
        + "\"]}"@
}

/// The subscribe message for the best-level book channel of a symbol.
pub fn book_subscribe_text(req_id: &str, symbol: &str) -> (r: String)
    requires
        json_plain(req_id@),
        plain_token(symbol@),
    ensures
        r@ == spec_book_subscribe_text(req_id@, symbol@),
        r.is_ascii(),
{
    let l1 = "{\"req_id\":\"";
    let l2 = "\",\"op\":\"subscribe\",\"args\":[\"orderbook.1.";
    let l3 = "\"]}";
    proof {
        reveal_strlit("{\"req_id\":\"");
        reveal_strlit("\",\"op\":\"subscribe\",\"args\":[\"orderbook.1.");
        reveal_strlit("\"]}");
        assert(vstd::utf8::is_ascii_chars(l1@));
        assert(vstd::utf8::is_ascii_chars(l2@));
        assert(vstd::utf8::is_ascii_chars(l3@));
        crate::json::lemma_plain_ascii(req_id@);
        crate::json::lemma_token_plain(symbol@);
        crate::json::lemma_plain_ascii(symbol@);
    }
    let mut r = String::new();
    proof {
        assert(r@ =~= Seq::<char>::empty());
    }
    append_ascii(&mut r, l1);
    append_ascii(&mut r, req_id);
    append_ascii(&mut r, l2);
    append_ascii(&mut r, symbol);
    append_ascii(&mut r, l3);
    assert(r@ =~= spec_book_subscribe_text(req_id@, symbol@));
    r
}

/// The subscribe control message for the private spot-order channel.
pub open spec fn spec_orders_subscribe_text(req_id: Seq<char>) -> Seq<char> {
    "{\"req_id\":\""@ + req_id + "\",\"op\":\"subscribe\",\"args\":[\"order.spot\"]}"@
}

/// The subscribe message for the private spot-order channel.
pub fn orders_subscribe_text(req_id: &str) -> (r: String)
    requires
        json_plain(req_id@),
    ensures
        r@ == spec_orders_subscribe_text(req_id@),
        r.is_ascii(),
{
    let l1 = "{\"req_id\":\"";
    let l2 = "\",\"op\":\"subscribe\",\"args\":[\"order.spot\"]}";
    proof {
        reveal_strlit("{\"req_id\":\"");
        reveal_strlit("\",\"op\":\"subscribe\",\"args\":[\"order.spot\"]}");
        assert(vstd::utf8::is_ascii_chars(l1@));
        assert(vstd::utf8::is_ascii_chars(l2@));
        crate::json::lemma_plain_ascii(req_id@);
    }
    let mut r = String::new();
    proof {
        assert(r@ =~= Seq::<char>::empty());
    }
    append_ascii(&mut r, l1);
    append_ascii(&mut r, req_id);
    append_ascii(&mut r, l2);
    assert(r@ =~= spec_orders_subscribe_text(req_id@));
    r
}

/// Relies on `uuid::Uuid::new_v4` and its hyphenated text form: a
/// random identifier of 36 ASCII characters, hex digits and hyphens.
#[verifier::external_body]
fn new_request_id_raw() -> (r: String)
    ensures
        r@.len() == 36,
        forall|i: int|
            0 <= i < r@.len() ==> (crate::fixed::is_dec_digit(#[trigger] r@[i]) || ('a' <= r@[i]
                && r@[i] <= 'f') || r@[i] == '-'),
{
    uuid::Uuid::new_v4().to_string()
}

/// A fresh request id for a stream control message.
pub fn new_request_id() -> (r: String)
    ensures
        r@.len() == 36,
        json_plain(r@),
{
    let r = new_request_id_raw();
    proof {
        assert forall|i: int|
            0 <= i < r@.len() implies (' ' <= #[trigger] r@[i] <= '~' && r@[i] != '"' && r@[i]
            != '\\') by {
            assert(crate::fixed::is_dec_digit(r@[i]) || ('a' <= r@[i] && r@[i] <= 'f') || r@[i]
                == '-');
        }
    }
    r
}

/// A price/size pair read as fixed-point amounts.
fn level_of_pair(p: &PriceVolumePair) -> (r: Option<Level>)
    ensures
        r matches Some(l) ==> amount_ok(l.price) && amount_ok(l.size) && dec4_wf(p.0@) && dec4_wf(
            p.1@,
        ) && l.price == dec4_val(p.0@) && l.size == dec4_val(p.1@),
        r is None ==> !(dec4_wf(p.0@) && dec4_wf(p.1@) && dec4_val(p.0@) <= AMOUNT_MAX as int
            && dec4_val(p.1@) <= AMOUNT_MAX as int),
{
    let price = match parse_dec4(p.0.as_str()) {
        Some(v) => v,
        None => {
            return None;
        },
    };
    let size = match parse_dec4(p.1.as_str()) {
        Some(v) => v,
        None => {
            return None;
        },
    };
    if price > AMOUNT_MAX || size > AMOUNT_MAX {
        return None;
    }
    Some(Level { price, size })
}

/// A side's levels decode when there are none, or when the best one's
/// price and size are well-formed decimals within range.
pub open spec fn side_level_ok(pairs: Seq<PriceVolumePair>) -> bool {
    pairs.len() == 0 || (dec4_wf(pairs[0].0@) && dec4_wf(pairs[0].1@) && dec4_val(pairs[0].0@)
        <= AMOUNT_MAX as int && dec4_val(pairs[0].1@) <= AMOUNT_MAX as int)
}

/// Extract the tick from a parsed book frame: a side with no level is
/// reported missing (the estimator retains the previous price); a side
/// whose level does not parse as a bounded decimal is an error.
pub fn tick_of(data: &OrderBookDataResponse) -> (r: Result<BookTick, DecodeError>)
    ensures
        r is Ok <==> side_level_ok(data.b@) && side_level_ok(data.a@),
        r matches Ok(t) ==> {
            &&& tick_wf(t)
            &&& (t.bid is None <==> data.b@.len() == 0)
            &&& (t.bid matches Some(l) ==> data.b@.len() > 0 && l.price == dec4_val(data.b@[0].0@)
                && l.size == dec4_val(data.b@[0].1@))
            &&& (t.ask is None <==> data.a@.len() == 0)
            &&& (t.ask matches Some(l) ==> data.a@.len() > 0 && l.price == dec4_val(data.a@[0].0@)
                && l.size == dec4_val(data.a@[0].1@))
        },
{
    let bid: Option<Level> = if data.b.len() == 0 {
        None
    } else {
        match level_of_pair(&data.b[0]) {
            Some(l) => Some(l),
            None => {
                return Err(DecodeError {});
            },
        }
    };
    let ask: Option<Level> = if data.a.len() == 0 {
        None
    } else {
        match level_of_pair(&data.a[0]) {
            Some(l) => Some(l),
            None => {
                return Err(DecodeError {});
            },
        }
    };
    Ok(BookTick { bid, ask })
}

/// A wire level is an array whose first two entries are strings.
pub open spec fn pair_ok_m(x: JsonModel) -> bool {
    x matches JsonModel::Arr(ps) && ps.len() >= 2 && ps[0] is Str && ps[1] is Str
}

/// The pair a wire level denotes: its price text, then its size text.
pub open spec fn pair_matches_m(p: PriceVolumePair, x: JsonModel) -> bool {
    x matches JsonModel::Arr(ps) && ps.len() >= 2 && ps[0] == JsonModel::Str(p.0@) && ps[1]
        == JsonModel::Str(p.1@)
}

/// A side's levels decode when each element is a string pair.
pub open spec fn pairs_ok_m(m: JsonModel) -> bool {
    m matches JsonModel::Arr(xs) && (forall|k: int|
        0 <= k < xs.len() ==> pair_ok_m(#[trigger] xs[k]))
}

/// The pairs denote the side's levels, one for one and in order.
pub open spec fn pairs_match_m(out: Seq<PriceVolumePair>, m: JsonModel) -> bool {
    m matches JsonModel::Arr(xs) && out.len() == xs.len() && (forall|k: int|
        0 <= k < xs.len() ==> pair_matches_m(#[trigger] out[k], xs[k]))
}

fn pairs_of(j: &Json) -> (r: Result<Vec<PriceVolumePair>, DecodeError>)
    ensures
        r is Ok <==> pairs_ok_m(view_json(*j)),
        r matches Ok(out) ==> pairs_match_m(out@, view_json(*j)),
{
    let items = match j.as_arr() {
        Some(a) => a,
        None => {
            return Err(DecodeError {});
        },
    };
    proof {
        lemma_view_arr_props(items@);
    }
    let mut out: Vec<PriceVolumePair> = Vec::new();
    let n = items.len();
    let mut i: usize = 0;
    while i < n
        invariant
            n == items@.len(),
            0 <= i <= n,
            out@.len() == i,
            view_json(*j) == JsonModel::Arr(view_arr(items@)),
            view_arr(items@).len() == n,
            forall|k: int|
                0 <= k < i ==> pair_ok_m(#[trigger] view_arr(items@)[k]) && pair_matches_m(
                    out@[k],
                    view_arr(items@)[k],
                ),
        decreases n - i,
    {
        proof {
            lemma_view_arr_props(items@);
        }
        let ghost xs = view_arr(items@);
        let pair = match items[i].as_arr() {
            Some(p) => p,
            None => {
                proof {
                    assert(xs[i as int] == view_json(items@[i as int]));
                    assert(!pair_ok_m(xs[i as int]));
                    let xs_m = view_json(*j)->Arr_0;
                    assert(pairs_ok_m(view_json(*j)) ==> pair_ok_m(xs_m[i as int]));
                }
                return Err(DecodeError {});
            },
        };
        proof {
            lemma_view_arr_props(pair@);
            assert(xs[i as int] == view_json(items@[i as int]));
            assert(xs[i as int] == JsonModel::Arr(view_arr(pair@)));
        }
        if pair.len() < 2 {
            proof {
                assert(!pair_ok_m(xs[i as int]));
                let xs_m = view_json(*j)->Arr_0;
                assert(pairs_ok_m(view_json(*j)) ==> pair_ok_m(xs_m[i as int]));
            }
            return Err(DecodeError {});
        }
        let price = match pair[0].as_str() {
            Some(s) => s.clone(),
            None => {
                proof {
                    assert(view_arr(pair@)[0] == view_json(pair@[0]));
                    assert(!pair_ok_m(xs[i as int]));
                    let xs_m = view_json(*j)->Arr_0;
                    assert(pairs_ok_m(view_json(*j)) ==> pair_ok_m(xs_m[i as int]));
                }
                return Err(DecodeError {});
            },
        };
        let size = match pair[1].as_str() {
            Some(s) => s.clone(),
            None => {
                proof {
                    assert(view_arr(pair@)[1] == view_json(pair@[1]));
                    assert(!pair_ok_m(xs[i as int]));
                    let xs_m = view_json(*j)->Arr_0;
                    assert(pairs_ok_m(view_json(*j)) ==> pair_ok_m(xs_m[i as int]));
                }
                return Err(DecodeError {});
            },
        };
        proof {
            assert(view_arr(pair@)[0] == view_json(pair@[0]));
            assert(view_arr(pair@)[1] == view_json(pair@[1]));
        }
        out.push(PriceVolumePair(price, size));
        i = i + 1;
    }
    Ok(out)
}

/// A side field decodes when absent (no levels) or an array of string
/// pairs.
pub open spec fn side_ok_m(data: JsonModel, key: Seq<char>) -> bool {
    match get_m(data, key) {
        None => true,
        Some(m) => pairs_ok_m(m),
    }
}

/// The pairs denote the side field: empty when absent, its levels
/// otherwise.
pub open spec fn side_matches_m(out: Seq<PriceVolumePair>, data: JsonModel, key: Seq<char>) -> bool {
    match get_m(data, key) {
        None => out.len() == 0,
        Some(m) => pairs_match_m(out, m),
    }
}

/// The text is a top-of-book frame: topic, timestamp and type, and a
/// payload with the symbol and two decodable sides.
pub open spec fn spec_book_frame_ok(s: Seq<char>) -> bool {
    match crate::json::spec_json_doc(s) {
        Some(doc) => {
            &&& str_field_m(doc, "topic"@) is Some
            &&& uint_field_m(doc, "ts"@) is Some
            &&& str_field_m(doc, "type"@) is Some
            &&& match get_m(doc, "data"@) {
                Some(data) => str_field_m(data, "s"@) is Some && side_ok_m(data, "b"@)
                    && side_ok_m(data, "a"@),
                None => false,
            }
        },
        None => false,
    }
}

/// The typed response denotes the frame, field for field.
pub open spec fn response_matches(resp: OrderBookResponse, s: Seq<char>) -> bool {
    match crate::json::spec_json_doc(s) {
        Some(doc) => {
            &&& Some(resp.topic@) == str_field_m(doc, "topic"@)
            &&& Some(resp.ts) == uint_field_m(doc, "ts"@)
            &&& Some(resp.t@) == str_field_m(doc, "type"@)
            &&& match get_m(doc, "data"@) {
                Some(data) => {
                    &&& Some(resp.data.s@) == str_field_m(data, "s"@)
                    &&& side_matches_m(resp.data.b@, data, "b"@)
                    &&& side_matches_m(resp.data.a@, data, "a"@)
                },
                None => false,
            }
        },
        None => false,
    }
}

/// Decode a top-of-book frame into its typed shape, exactly the frame
/// the text denotes.
pub fn decode_order_book(text: &str) -> (r: Result<OrderBookResponse, DecodeError>)
    ensures
        r is Ok <==> spec_book_frame_ok(text@),
        r matches Ok(resp) ==> response_matches(resp, text@),
{
    let v = match crate::json::parse_json(text) {
        Some(v) => v,
        None => {
            return Err(DecodeError {});
        },
    };
    proof {
        lemma_get_m_of_view(v, "topic"@);
        lemma_get_m_of_view(v, "ts"@);
        lemma_get_m_of_view(v, "type"@);
        lemma_get_m_of_view(v, "data"@);
    }
    let topic = match v.get("topic") {
        Some(t) => {
            match t.as_str() {
                Some(s) => s.clone(),
                None => {
                    return Err(DecodeError {});
                },
            }
        },
        None => {
            return Err(DecodeError {});
        },
    };
    let ts = match v.get("ts") {
        Some(t) => {
            match t.as_uint() {
                Some(n) => n,
                None => {
                    return Err(DecodeError {});
                },
            }
        },
        None => {
            return Err(DecodeError {});
        },
    };
    let t_field = match v.get("type") {
        Some(t) => {
            match t.as_str() {
                Some(s) => s.clone(),
                None => {
                    return Err(DecodeError {});
                },
            }
        },
        None => {
            return Err(DecodeError {});
        },
    };
    let data = match v.get("data") {
        Some(d) => d,
        None => {
            return Err(DecodeError {});
        },
    };
    proof {
        lemma_get_m_of_view(*data, "s"@);
        lemma_get_m_of_view(*data, "b"@);
        lemma_get_m_of_view(*data, "a"@);
    }
    let s_field = match data.get("s") {
        Some(s) => {
            match s.as_str() {
                Some(x) => x.clone(),
                None => {
                    return Err(DecodeError {});
                },
            }
        },
        None => {
            return Err(DecodeError {});
        },
    };
    let b = match data.get("b") {
        Some(j) => {
            match pairs_of(j) {
                Ok(p) => p,
                Err(e) => {
                    return Err(e);
                },
            }
        },
        None => Vec::new(),
    };
    let a = match data.get("a") {
        Some(j) => {
            match pairs_of(j) {
                Ok(p) => p,
                Err(e) => {
                    return Err(e);
                },
            }
        },
        None => Vec::new(),
    };
    Ok(
        OrderBookResponse {
            topic,
            ts,
            t: t_field,
            data: OrderBookDataResponse { s: s_field, b, a },
        },
    )
}

/// The text of a string document node; empty off strings.
pub open spec fn str_of_m(x: JsonModel) -> Seq<char> {
    match x {
        JsonModel::Str(t) => t,
        _ => Seq::empty(),
    }
}

/// The level two decimal texts denote, when both are well-formed and
/// bounded.
pub open spec fn spec_level_of(p: Seq<char>, z: Seq<char>) -> Option<Level> {
    if dec4_wf(p) && dec4_wf(z) && dec4_val(p) <= AMOUNT_MAX as int && dec4_val(z)
        <= AMOUNT_MAX as int {
        Some(Level { price: dec4_val(p) as u64, size: dec4_val(z) as u64 })
    } else {
        None
    }
}

/// A side field's level rows; empty when the field is absent.
pub open spec fn side_pairs_m(data: JsonModel, key: Seq<char>) -> Seq<JsonModel> {
    match get_m(data, key) {
        Some(JsonModel::Arr(xs)) => xs,
        _ => Seq::empty(),
    }
}

/// The side a payload field denotes: `Some(None)` when it has no
/// levels, the best level's reading when that parses, nothing when it
/// does not.
pub open spec fn side_tick_m(data: JsonModel, key: Seq<char>) -> Option<Option<Level>> {
    let xs = side_pairs_m(data, key);
    if xs.len() == 0 {
        Some(None)
    } else {
        match xs[0] {
            JsonModel::Arr(ps) => if ps.len() >= 2 {
                match spec_level_of(str_of_m(ps[0]), str_of_m(ps[1])) {
                    Some(l) => Some(Some(l)),
                    None => None,
                }
            } else {
                None
            },
            _ => None,
        }
    }
}

/// The tick a top-of-book frame denotes, if the text is a book frame
/// whose best levels parse as bounded decimals.
pub open spec fn spec_book_tick(s: Seq<char>) -> Option<BookTick> {
    if !spec_book_frame_ok(s) {
        None
    } else {
        match crate::json::spec_json_doc(s) {
            Some(doc) => match get_m(doc, "data"@) {
                Some(data) => match (side_tick_m(data, "b"@), side_tick_m(data, "a"@)) {
                    (Some(bid), Some(ask)) => Some(BookTick { bid, ask }),
                    _ => None,
                },
                None => None,
            },
            None => None,
        }
    }
}

proof fn lemma_side_composes(out: Seq<PriceVolumePair>, data: JsonModel, key: Seq<char>)
    requires
        side_matches_m(out, data, key),
    ensures
        side_level_ok(out) <==> side_tick_m(data, key) is Some,
        side_level_ok(out) && out.len() == 0 ==> side_tick_m(data, key) == Some(
            None::<Level>,
        ),
        side_level_ok(out) && out.len() > 0 ==> side_tick_m(data, key) == Some(
            spec_level_of(out[0].0@, out[0].1@),
        ) && spec_level_of(out[0].0@, out[0].1@) is Some,
{
    match get_m(data, key) {
        None => {
            assert(side_pairs_m(data, key) =~= Seq::<JsonModel>::empty());
        },
        Some(m) => {
            let xs = m->Arr_0;
            assert(out.len() == xs.len());
            if out.len() > 0 {
                assert(pair_matches_m(out[0], xs[0]));
                let ps = xs[0]->Arr_0;
                assert(str_of_m(ps[0]) == out[0].0@);
                assert(str_of_m(ps[1]) == out[0].1@);
            }
        },
    }
}

/// Decode a top-of-book frame all the way to the tick the estimator
/// consumes, exactly the tick [`spec_book_tick`] reads from the text.
pub fn decode_book_tick(text: &str) -> (r: Result<BookTick, DecodeError>)
    ensures
        r is Ok <==> spec_book_tick(text@) is Some,
        r matches Ok(t) ==> Some(t) == spec_book_tick(text@) && tick_wf(t),
{
    match decode_order_book(text) {
        Ok(resp) => {
            proof {
                let doc = crate::json::spec_json_doc(text@)->0;
                let data = get_m(doc, "data"@)->0;
                lemma_side_composes(resp.data.b@, data, "b"@);
                lemma_side_composes(resp.data.a@, data, "a"@);
            }
            tick_of(&resp.data)
        },
        Err(e) => Err(e),
    }
}

/// Decode a private order frame: each row carries its order link id;
/// status, fill and price are read when present, each event exactly as
/// [`event_matches_row`] reads its row.
pub fn decode_active_orders(text: &str) -> (r: Result<Vec<OrderEvent>, DecodeError>)
    ensures
        r is Ok <==> spec_orders_ok(text@),
        r matches Ok(evs) ==> events_match_frame(evs@, text@) && (forall|i: int|
            0 <= i < evs@.len() ==> order_event_wf(#[trigger] evs@[i])),
{
    let v = match crate::json::parse_json(text) {
        Some(v) => v,
        None => {
            return Err(DecodeError {});
        },
    };
    proof {
        lemma_get_m_of_view(v, "topic"@);
    }
    let has_topic = match v.get("topic") {
        Some(t) => {
            match t.as_str() {
                Some(s) => str_eq_maybe(s, "order.spot") || str_eq_maybe(s, "order"),
                None => false,
            }
        },
        None => false,
    };
    if !has_topic {
        return Err(DecodeError {});
    }
    proof {
        lemma_get_m_of_view(v, "data"@);
    }
    let rows = match v.get("data") {
        Some(d) => {
            match d.as_arr() {
                Some(a) => a,
                None => {
                    return Err(DecodeError {});
                },
            }
        },
        None => {
            return Err(DecodeError {});
        },
    };
    proof {
        lemma_view_arr_props(rows@);
        assert(spec_order_rows(text@) == Some(view_arr(rows@)));
    }
    let mut events: Vec<OrderEvent> = Vec::new();
    let n = rows.len();
    let mut i: usize = 0;
    while i < n
        invariant
            n == rows@.len(),
            0 <= i <= n,
            events@.len() == i,
            spec_order_rows(text@) == Some(view_arr(rows@)),
            view_arr(rows@).len() == n,
            forall|k: int|
                0 <= k < i ==> row_event_ok(#[trigger] view_arr(rows@)[k]) && event_matches_row(
                    events@[k],
                    view_arr(rows@)[k],
                ),
            forall|k: int| 0 <= k < events@.len() ==> order_event_wf(#[trigger] events@[k]),
        decreases n - i,
    {
        proof {
            lemma_view_arr_props(rows@);
        }
        match order_event_of_row(&rows[i]) {
            Ok(ev) => events.push(ev),
            Err(e) => {
                proof {
                    assert(view_arr(rows@)[i as int] == view_json(rows@[i as int]));
                    assert(!row_event_ok(view_arr(rows@)[i as int]));
                    let rows_m = spec_order_rows(text@)->0;
                    assert(rows_m == view_arr(rows@));
                    assert(spec_orders_ok(text@) ==> row_event_ok(rows_m[i as int]));
                    assert(!spec_orders_ok(text@));
                }
                return Err(e);
            },
        }
        i = i + 1;
    }
    Ok(events)
}

/// An order row decodes exactly when it carries its order link id as
/// a string.
pub open spec fn row_event_ok(row: JsonModel) -> bool {
    str_field_m(row, "orderLinkId"@) is Some
}

/// The event an order row denotes: its link id, its status (empty when
/// absent), and the lenient readings of its fill and price strings.
pub open spec fn event_matches_row(ev: OrderEvent, row: JsonModel) -> bool {
    &&& Some(ev.order_id@) == str_field_m(row, "orderLinkId"@)
    &&& ev.status@ == str_or_empty_m(row, "orderStatus"@)
    &&& ev.filled_qty == amount_str_m(row, "cumExecQty"@)
    &&& ev.price == amount_str_m(row, "price"@)
}

/// The data rows of a spot-order frame, if the text is one.
pub open spec fn spec_order_rows(s: Seq<char>) -> Option<Seq<JsonModel>> {
    match crate::json::spec_json_doc(s) {
        Some(doc) => if str_field_m(doc, "topic"@) == Some("order.spot"@) || str_field_m(
            doc,
            "topic"@,
        ) == Some("order"@) {
            match get_m(doc, "data"@) {
                Some(JsonModel::Arr(rows)) => Some(rows),
                _ => None,
            }
        } else {
            None
        },
        None => None,
    }
}

/// The text is a spot-order frame every row of which decodes.
pub open spec fn spec_orders_ok(s: Seq<char>) -> bool {
    spec_order_rows(s) matches Some(rows) && (forall|k: int|
        0 <= k < rows.len() ==> row_event_ok(#[trigger] rows[k]))
}

/// The events denote the frame's rows, one for one and in order.
pub open spec fn events_match_frame(evs: Seq<OrderEvent>, s: Seq<char>) -> bool {
    spec_order_rows(s) matches Some(rows) && evs.len() == rows.len() && (forall|k: int|
        0 <= k < rows.len() ==> event_matches_row(#[trigger] evs[k], rows[k]))
}

/// The event one order row denotes: the row decodes exactly when it
/// carries its order link id as a string; a missing status reads as
/// empty, and the fill and price are read leniently from their decimal
/// strings, anything else counting as zero.
pub fn order_event_of_row(row: &Json) -> (r: Result<OrderEvent, DecodeError>)
    ensures
        r is Ok <==> row_event_ok(view_json(*row)),
        r matches Ok(ev) ==> event_matches_row(ev, view_json(*row)) && order_event_wf(ev),
{
    proof {
        lemma_get_m_of_view(*row, "orderLinkId"@);
        lemma_get_m_of_view(*row, "orderStatus"@);
    }
    let order_id = match row.get("orderLinkId") {
        Some(j) => {
            match j.as_str() {
                Some(s) => s.clone(),
                None => {
                    return Err(DecodeError {});
                },
            }
        },
        None => {
            return Err(DecodeError {});
        },
    };
    let status = match row.get("orderStatus") {
        Some(j) => {
            match j.as_str() {
                Some(s) => s.clone(),
                None => String::new(),
            }
        },
        None => String::new(),
    };
    let filled_qty = amount_str_field(row, "cumExecQty");
    let price = amount_str_field(row, "price");
    Ok(OrderEvent { order_id, status, filled_qty, price })
}

/// An amount carried as a decimal string; absent, empty or unparsable
/// values read as zero (these fields are observational only).
fn amount_str_field(obj: &Json, key: &str) -> (r: u64)
    ensures
        r == spec_amount_str(*obj, key@),
        r == amount_str_m(view_json(*obj), key@),
        amount_ok(r),
{
    proof {
        lemma_get_m_of_view(*obj, key@);
    }
    match obj.get(key) {
        Some(j) => {
            match j.as_str() {
                Some(s) => {
                    match parse_dec4(s.as_str()) {
                        Some(v) => {
                            if v <= AMOUNT_MAX {
                                v
                            } else {
                                0
                            }
                        },
                        None => 0,
                    }
                },
                None => 0,
            }
        },
        None => 0,
    }
}

/// A string field read leniently: absent or non-string values come
/// back empty (these fields are carried, not interpreted).
fn str_or_empty(obj: &Json, key: &str) -> (r: String)
    ensures
        r@ == str_or_empty_m(view_json(*obj), key@),
{
    proof {
        lemma_get_m_of_view(*obj, key@);
    }
    match obj.get(key) {
        Some(j) => {
            match j.as_str() {
                Some(s) => s.clone(),
                None => String::new(),
            }
        },
        None => String::new(),
    }
}

fn bool_or_false(obj: &Json, key: &str) -> (r: bool)
    ensures
        r == bool_or_false_m(view_json(*obj), key@),
{
    proof {
        lemma_get_m_of_view(*obj, key@);
    }
    match obj.get(key) {
        Some(j) => {
            match j {
                Json::Bool(b) => *b,
                _ => false,
            }
        },
        None => false,
    }
}

/// What one coin row denotes, field for field, read leniently.
pub open spec fn coin_matches_row(c: GetBalancesCoin, m: JsonModel) -> bool {
    &&& c.available_to_borrow@ == str_or_empty_m(m, "availableToBorrow"@)
    &&& c.bonus@ == str_or_empty_m(m, "bonus"@)
    &&& c.accrued_interest@ == str_or_empty_m(m, "accruedInterest"@)
    &&& c.available_to_withdraw@ == str_or_empty_m(m, "availableToWithdraw"@)
    &&& c.total_order_im@ == str_or_empty_m(m, "totalOrderIM"@)
    &&& c.equity@ == str_or_empty_m(m, "equity"@)
    &&& c.total_position_mm@ == str_or_empty_m(m, "totalPositionMM"@)
    &&& c.usd_value@ == str_or_empty_m(m, "usdValue"@)
    &&& c.unrealised_pnl@ == str_or_empty_m(m, "unrealisedPnl"@)
    &&& c.collateral_switch == bool_or_false_m(m, "collateralSwitch"@)
    &&& c.spot_hedging_qty@ == str_or_empty_m(m, "spotHedgingQty"@)
    &&& c.borrow_amount@ == str_or_empty_m(m, "borrowAmount"@)
    &&& c.total_position_im@ == str_or_empty_m(m, "totalPositionIM"@)
    &&& c.wallet_balance@ == str_or_empty_m(m, "walletBalance"@)
    &&& c.cum_realised_pnl@ == str_or_empty_m(m, "cumRealisedPnl"@)
    &&& c.locked@ == str_or_empty_m(m, "locked"@)
    &&& c.margin_collateral == bool_or_false_m(m, "marginCollateral"@)
    &&& c.coin@ == str_or_empty_m(m, "coin"@)
}

fn coin_of(obj: &Json) -> (r: GetBalancesCoin)
    ensures
        coin_matches_row(r, view_json(*obj)),
{
    GetBalancesCoin {
        available_to_borrow: str_or_empty(obj, "availableToBorrow"),
        bonus: str_or_empty(obj, "bonus"),
        accrued_interest: str_or_empty(obj, "accruedInterest"),
        available_to_withdraw: str_or_empty(obj, "availableToWithdraw"),
        total_order_im: str_or_empty(obj, "totalOrderIM"),
        equity: str_or_empty(obj, "equity"),
        total_position_mm: str_or_empty(obj, "totalPositionMM"),
        usd_value: str_or_empty(obj, "usdValue"),
        unrealised_pnl: str_or_empty(obj, "unrealisedPnl"),
        collateral_switch: bool_or_false(obj, "collateralSwitch"),
        spot_hedging_qty: str_or_empty(obj, "spotHedgingQty"),
        borrow_amount: str_or_empty(obj, "borrowAmount"),
        total_position_im: str_or_empty(obj, "totalPositionIM"),
        wallet_balance: str_or_empty(obj, "walletBalance"),
        cum_realised_pnl: str_or_empty(obj, "cumRealisedPnl"),
        locked: str_or_empty(obj, "locked"),
        margin_collateral: bool_or_false(obj, "marginCollateral"),
        coin: str_or_empty(obj, "coin"),
    }
}

/// The account rows of a wallet-balance response, if the text is one.
pub open spec fn spec_accounts(s: Seq<char>) -> Option<Seq<JsonModel>> {
    match crate::json::spec_json_doc(s) {
        Some(doc) => match get_m(doc, "result"@) {
            Some(resv) => match get_m(resv, "list"@) {
                Some(JsonModel::Arr(accs)) => Some(accs),
                _ => None,
            },
            None => None,
        },
        None => None,
    }
}

/// An account row decodes when it carries its coin array.
pub open spec fn account_row_ok(acc: JsonModel) -> bool {
    get_m(acc, "coin"@) matches Some(JsonModel::Arr(_))
}

/// An account row's coin rows.
pub open spec fn account_coin_rows(acc: JsonModel) -> Seq<JsonModel> {
    match get_m(acc, "coin"@) {
        Some(JsonModel::Arr(cs)) => cs,
        _ => Seq::empty(),
    }
}

/// What one account row denotes, field for field, read leniently, with
/// its coins one for one.
pub open spec fn account_matches_row(a: GetBalancesAccount, m: JsonModel) -> bool {
    &&& a.total_equity@ == str_or_empty_m(m, "totalEquity"@)
    &&& a.account_im_rate@ == str_or_empty_m(m, "accountIMRate"@)
    &&& a.total_margin_balance@ == str_or_empty_m(m, "totalMarginBalance"@)
    &&& a.total_initial_margin@ == str_or_empty_m(m, "totalInitialMargin"@)
    &&& a.account_type@ == str_or_empty_m(m, "accountType"@)
    &&& a.total_available_balance@ == str_or_empty_m(m, "totalAvailableBalance"@)
    &&& a.account_mm_rate@ == str_or_empty_m(m, "accountMMRate"@)
    &&& a.total_perp_upl@ == str_or_empty_m(m, "totalPerpUPL"@)
    &&& a.total_wallet_balance@ == str_or_empty_m(m, "totalWalletBalance"@)
    &&& a.account_ltv@ == str_or_empty_m(m, "accountLTV"@)
    &&& a.total_maintenance_margin@ == str_or_empty_m(m, "totalMaintenanceMargin"@)
    &&& a.coin@.len() == account_coin_rows(m).len()
    &&& forall|k: int|
        0 <= k < account_coin_rows(m).len() ==> coin_matches_row(
            #[trigger] a.coin@[k],
            account_coin_rows(m)[k],
        )
}

/// The text is a wallet-balance response every account of which
/// decodes.
pub open spec fn spec_balances_ok(s: Seq<char>) -> bool {
    spec_accounts(s) matches Some(accs) && (forall|k: int|
        0 <= k < accs.len() ==> account_row_ok(#[trigger] accs[k]))
}

/// The typed balances denote the response's accounts, one for one.
pub open spec fn balances_match(b: GetBalancesResult, s: Seq<char>) -> bool {
    spec_accounts(s) matches Some(accs) && b.list@.len() == accs.len() && (forall|k: int|
        0 <= k < accs.len() ==> account_matches_row(#[trigger] b.list@[k], accs[k]))
}

/// Decode a wallet-balance response into its typed shape: the account
/// list with each account's per-coin balances, exactly as the text
/// denotes them.
pub fn decode_balances(text: &str) -> (r: Result<GetBalancesResult, DecodeError>)
    ensures
        r is Ok <==> spec_balances_ok(text@),
        r matches Ok(b) ==> balances_match(b, text@),
{
    let v = match crate::json::parse_json(text) {
        Some(v) => v,
        None => {
            return Err(DecodeError {});
        },
    };
    proof {
        lemma_get_m_of_view(v, "result"@);
    }
    let result = match v.get("result") {
        Some(x) => x,
        None => {
            return Err(DecodeError {});
        },
    };
    proof {
        lemma_get_m_of_view(*result, "list"@);
    }
    let accounts = match result.get("list") {
        Some(l) => {
            match l.as_arr() {
                Some(a) => a,
                None => {
                    return Err(DecodeError {});
                },
            }
        },
        None => {
            return Err(DecodeError {});
        },
    };
    proof {
        lemma_view_arr_props(accounts@);
        assert(spec_accounts(text@) == Some(view_arr(accounts@)));
    }
    let mut list: Vec<GetBalancesAccount> = Vec::new();
    let n = accounts.len();
    let mut i: usize = 0;
    while i < n
        invariant
            n == accounts@.len(),
            0 <= i <= n,
            list@.len() == i,
            spec_accounts(text@) == Some(view_arr(accounts@)),
            view_arr(accounts@).len() == n,
            forall|k: int|
                0 <= k < i ==> account_row_ok(#[trigger] view_arr(accounts@)[k])
                    && account_matches_row(list@[k], view_arr(accounts@)[k]),
        decreases n - i,
    {
        proof {
            lemma_view_arr_props(accounts@);
        }
        let ghost acc_m = view_arr(accounts@)[i as int];
        let acct = &accounts[i];
        proof {
            assert(acc_m == view_json(*acct));
            lemma_get_m_of_view(*acct, "coin"@);
        }
        let coin_rows = match acct.get("coin") {
            Some(c) => {
                match c.as_arr() {
                    Some(a) => a,
                    None => {
                        proof {
                            assert(!account_row_ok(acc_m));
                            let accs_m = spec_accounts(text@)->0;
                            assert(accs_m == view_arr(accounts@));
                            assert(spec_balances_ok(text@) ==> account_row_ok(accs_m[i as int]));
                        }
                        return Err(DecodeError {});
                    },
                }
            },
            None => {
                proof {
                    assert(!account_row_ok(acc_m));
                    let accs_m = spec_accounts(text@)->0;
                    assert(accs_m == view_arr(accounts@));
                    assert(spec_balances_ok(text@) ==> account_row_ok(accs_m[i as int]));
                }
                return Err(DecodeError {});
            },
        };
        proof {
            lemma_view_arr_props(coin_rows@);
            assert(account_coin_rows(acc_m) == view_arr(coin_rows@));
        }
        let mut coins: Vec<GetBalancesCoin> = Vec::new();
        let m = coin_rows.len();
        let mut j: usize = 0;
        while j < m
            invariant
                m == coin_rows@.len(),
                0 <= j <= m,
                coins@.len() == j,
                view_arr(coin_rows@).len() == m,
                forall|k: int|
                    0 <= k < j ==> coin_matches_row(
                        #[trigger] coins@[k],
                        view_arr(coin_rows@)[k],
                    ),
            decreases m - j,
        {
            proof {
                lemma_view_arr_props(coin_rows@);
            }
            coins.push(coin_of(&coin_rows[j]));
            j = j + 1;
        }
        list.push(
            GetBalancesAccount {
                total_equity: str_or_empty(acct, "totalEquity"),
                account_im_rate: str_or_empty(acct, "accountIMRate"),
                total_margin_balance: str_or_empty(acct, "totalMarginBalance"),
                total_initial_margin: str_or_empty(acct, "totalInitialMargin"),
                account_type: str_or_empty(acct, "accountType"),
                total_available_balance: str_or_empty(acct, "totalAvailableBalance"),
                account_mm_rate: str_or_empty(acct, "accountMMRate"),
                total_perp_upl: str_or_empty(acct, "totalPerpUPL"),
                total_wallet_balance: str_or_empty(acct, "totalWalletBalance"),
                account_ltv: str_or_empty(acct, "accountLTV"),
                total_maintenance_margin: str_or_empty(acct, "totalMaintenanceMargin"),
                coin: coins,
            },
        );
        i = i + 1;
    }
    Ok(GetBalancesResult { list })
}

/// The balance figure a wallet-balance response denotes: the dec4
/// reading of the first account's first coin's walletBalance text,
/// when the response decodes, has such a coin, and the text is a
/// bounded well-formed decimal.
pub open spec fn spec_wallet_balance(s: Seq<char>) -> Option<u64> {
    if !spec_balances_ok(s) {
        None
    } else {
        match spec_accounts(s) {
            Some(accs) => if accs.len() > 0 && account_coin_rows(accs[0]).len() > 0 {
                let w = str_or_empty_m(account_coin_rows(accs[0])[0], "walletBalance"@);
                if dec4_wf(w) && dec4_val(w) <= AMOUNT_MAX as int {
                    Some(dec4_val(w) as u64)
                } else {
                    None
                }
            } else {
                None
            },
            None => None,
        }
    }
}

/// Decode a wallet-balance response down to the first account's first
/// coin's wallet balance, the figure the quoting cycle consumes,
/// exactly as [`spec_wallet_balance`] reads it.
pub fn decode_wallet_balance(text: &str) -> (r: Result<u64, DecodeError>)
    ensures
        r is Ok <==> spec_wallet_balance(text@) is Some,
        r matches Ok(v) ==> Some(v) == spec_wallet_balance(text@) && amount_ok(v),
{
    let balances = match decode_balances(text) {
        Ok(b) => b,
        Err(e) => {
            return Err(e);
        },
    };
    proof {
        let accs = spec_accounts(text@)->0;
        assert(balances.list@.len() == accs.len());
        if accs.len() > 0 {
            assert(account_matches_row(balances.list@[0], accs[0]));
            if account_coin_rows(accs[0]).len() > 0 {
                assert(coin_matches_row(
                    balances.list@[0].coin@[0],
                    account_coin_rows(accs[0])[0],
                ));
            }
        }
    }
    if balances.list.len() == 0 {
        return Err(DecodeError {});
    }
    if balances.list[0].coin.len() == 0 {
        return Err(DecodeError {});
    }
    let value = match parse_dec4(balances.list[0].coin[0].wallet_balance.as_str()) {
        Some(x) => x,
        None => {
            return Err(DecodeError {});
        },
    };
    if value > AMOUNT_MAX {
        return Err(DecodeError {});
    }
    Ok(value)
}

} // verus!
