//! Request signing.
//!
//! Each venue authenticates REST calls and private stream handshakes by
//! an HMAC-SHA256 over a venue-specific canonical string, sent hex
//! encoded.  The canonical strings are built and specified here
//! exactly; the digest itself comes from the `hmac`/`sha2` crates and
//! the hex encoding from the `hex` crate, behind trusted declarations.

use vstd::prelude::*;

use crate::fixed::{append_ascii, spec_uint_str, u64_str};
use vstd::string::StringSliceAdditionalSpecFns;

verus! {

/// The bytes of an ASCII character sequence.
pub open spec fn ascii_bytes(s: Seq<char>) -> Seq<u8> {
    Seq::new(s.len(), |i: int| s[i] as u8)
}

/// Lower-case hex character for one nibble.
pub open spec fn spec_hex_char(d: int) -> char {
    if d == 0 {
        '0'
    } else if d == 1 {
        '1'
    } else if d == 2 {
        '2'
    } else if d == 3 {
        '3'
    } else if d == 4 {
        '4'
    } else if d == 5 {
        '5'
    } else if d == 6 {
        '6'
    } else if d == 7 {
        '7'
    } else if d == 8 {
        '8'
    } else if d == 9 {
        '9'
    } else if d == 10 {
        'a'
    } else if d == 11 {
        'b'
    } else if d == 12 {
        'c'
    } else if d == 13 {
        'd'
    } else if d == 14 {
        'e'
    } else {
        'f'
    }
}

/// Lower-case hex text of a byte sequence: two characters per byte,
/// high nibble first.
pub open spec fn spec_hex(b: Seq<u8>) -> Seq<char>
    decreases b.len(),
{
    if b.len() == 0 {
        Seq::empty()
    } else {
        spec_hex(b.drop_last()) + seq![
            spec_hex_char(b.last() as int / 16),
            spec_hex_char(b.last() as int % 16),
        ]
    }
}

pub proof fn lemma_hex_is_ascii(b: Seq<u8>)
    ensures
        vstd::utf8::is_ascii_chars(spec_hex(b)),
        spec_hex(b).len() == 2 * b.len(),
    decreases b.len(),
{
    if b.len() > 0 {
        lemma_hex_is_ascii(b.drop_last());
    }
}

/// The HMAC-SHA256 digest, named: it is a function of the key and the
/// message alone.
pub uninterp spec fn hmac_sha256_of(key: Seq<u8>, msg: Seq<u8>) -> Seq<u8>;

/// Relies on `hmac::Hmac<sha2::Sha256>`: keyed digest of the message,
/// 32 bytes, a function of key and message alone.  HMAC accepts keys of
/// any length, so construction cannot fail.
#[verifier::external_body]
fn hmac_sha256(key: &[u8], msg: &[u8]) -> (r: Vec<u8>)
    ensures
        r@ == hmac_sha256_of(key@, msg@),
        r@.len() == 32,
{
    let mut mac = <hmac::Hmac<sha2::Sha256> as hmac::KeyInit>::new_from_slice(key)
        .expect("HMAC accepts keys of any length");
    hmac::Mac::update(&mut mac, msg);
    hmac::Mac::finalize(mac).into_bytes().to_vec()
}

/// Relies on `hex::encode`: lower-case hex, two digits per byte, high
/// nibble first.
#[verifier::external_body]
fn hex_encode(b: &[u8]) -> (r: String)
    ensures
        r@ == spec_hex(b@),
{
    hex::encode(b)
}

/// Hex-encoded HMAC-SHA256 of `msg` under `secret`, the signature shape
/// both venues expect.
pub fn sign_hmac_hex(secret: &str, msg: &str) -> (r: String)
    ensures
        r@ == spec_hex(hmac_sha256_of(secret.spec_bytes(), msg.spec_bytes())),
        r.is_ascii(),
        r@.len() == 64,
{
    let digest = hmac_sha256(secret.as_bytes(), msg.as_bytes());
    let out = hex_encode(digest.as_slice());
    proof {
        lemma_hex_is_ascii(digest@);
    }
    out
}

/// Canonical string for a venue-A REST call: method, path (with query
/// string for GET), the expiry, then the body for POST.
pub fn bitmex_rest_canonical(method: &str, path: &str, expires: u64, body: &str) -> (r: String)
    requires
        method.is_ascii(),
        path.is_ascii(),
        body.is_ascii(),
    ensures
        r@ == method@ + path@ + spec_uint_str(expires as int) + body@,
        r.is_ascii(),
{
    let mut r = method.to_owned();
    append_ascii(&mut r, path);
    let e = u64_str(expires);
    append_ascii(&mut r, e.as_str());
    append_ascii(&mut r, body);
    r
}

/// Canonical string for a venue-B REST call: timestamp, api key, then
/// the query string (GET) or JSON body (POST).
pub fn bybit_rest_canonical(timestamp: u64, api_key: &str, payload: &str) -> (r: String)
    requires
        api_key.is_ascii(),
        payload.is_ascii(),
    ensures
        r@ == spec_uint_str(timestamp as int) + api_key@ + payload@,
        r.is_ascii(),
{
    let mut r = u64_str(timestamp);
    append_ascii(&mut r, api_key);
    append_ascii(&mut r, payload);
    r
}

/// Canonical string for a private stream handshake on either venue.
pub fn ws_auth_canonical(expires: u64) -> (r: String)
    ensures
        r@ == "GET/realtime"@ + spec_uint_str(expires as int),
        r.is_ascii(),
{
    let mut r = String::new();
    let head = "GET/realtime";
    proof {
        reveal_strlit("GET/realtime");
        assert(r@ =~= Seq::<char>::empty());
    }
    append_ascii(&mut r, head);
    let e = u64_str(expires);
    append_ascii(&mut r, e.as_str());
    assert(r@ =~= "GET/realtime"@ + spec_uint_str(expires as int));
    r
}

/// A REST call ready to be sent: everything but the transport.
#[derive(Clone, Debug)]
pub struct SignedRequest {
    /// `GET`, `POST` or `DELETE`.
    pub method: String,
    /// Path below the venue's base URL, query string included.
    pub path: String,
    /// Header name/value pairs, signature included.
    pub headers: Vec<(String, String)>,
    /// JSON body; empty for bodyless methods.
    pub body: String,
}

/// The signature venue A expects for a REST call: hex HMAC-SHA256 of
/// method, path, expiry and body under the API secret.
pub open spec fn spec_bitmex_signature(
    secret: Seq<char>,
    method: Seq<char>,
    path: Seq<char>,
    expires: int,
    body: Seq<char>,
) -> Seq<char> {
    spec_hex(
        hmac_sha256_of(
            ascii_bytes(secret),
            ascii_bytes(method + path + spec_uint_str(expires) + body),
        ),
    )
}

/// The signature venue B expects: hex HMAC-SHA256 of timestamp, api key
/// and payload (query string or body) under the API secret.
pub open spec fn spec_bybit_signature(
    secret: Seq<char>,
    timestamp: int,
    api_key: Seq<char>,
    payload: Seq<char>,
) -> Seq<char> {
    spec_hex(
        hmac_sha256_of(
            ascii_bytes(secret),
            ascii_bytes(spec_uint_str(timestamp) + api_key + payload),
        ),
    )
}

fn pair_of(name: &str, value: String) -> (r: (String, String))
    ensures
        r.0@ == name@,
        r.1@ == value@,
{
    (name.to_owned(), value)
}

/// Assemble a venue-A REST call: signature headers around the given
/// method, path and body.
pub fn bitmex_signed_request(
    api_key: &str,
    secret: &str,
    method: &str,
    path: &str,
    body: &str,
    expires: u64,
) -> (r: SignedRequest)
    requires
        api_key.is_ascii(),
        secret.is_ascii(),
        method.is_ascii(),
        path.is_ascii(),
        body.is_ascii(),
    ensures
        r.method@ == method@,
        r.path@ == path@,
        r.body@ == body@,
        r.headers@.len() == 4,
        r.headers@[0].0@ == "api-expires"@ && r.headers@[0].1@ == spec_uint_str(expires as int),
        r.headers@[1].0@ == "api-key"@ && r.headers@[1].1@ == api_key@,
        r.headers@[2].0@ == "api-signature"@ && r.headers@[2].1@ == spec_bitmex_signature(
            secret@,
            method@,
            path@,
            expires as int,
            body@,
        ),
        r.headers@[3].0@ == "Content-Type"@ && r.headers@[3].1@ == "application/json"@,
{
    let canonical = bitmex_rest_canonical(method, path, expires, body);
    let cs = canonical.as_str();
    let signature = sign_hmac_hex(secret, cs);
    proof {
        vstd::string::is_ascii_spec_bytes(secret);
        vstd::string::is_ascii_spec_bytes(cs);
        assert(secret.spec_bytes() =~= ascii_bytes(secret@));
        assert(cs.spec_bytes() =~= ascii_bytes(
            method@ + path@ + spec_uint_str(expires as int) + body@,
        ));
    }
    let mut headers: Vec<(String, String)> = Vec::new();
    headers.push(pair_of("api-expires", u64_str(expires)));
    headers.push(pair_of("api-key", api_key.to_owned()));
    headers.push(pair_of("api-signature", signature));
    headers.push(pair_of("Content-Type", String::from_str("application/json")));
    SignedRequest {
        method: method.to_owned(),
        path: path.to_owned(),
        headers,
        body: body.to_owned(),
    }
}

/// Assemble a venue-B REST call: signature headers around the given
/// method and path; `payload` is what gets signed (the query string for
/// GET, the JSON body for POST) and `body` what gets sent.
pub fn bybit_signed_request(
    api_key: &str,
    secret: &str,
    method: &str,
    path: &str,
    payload: &str,
    body: &str,
    timestamp: u64,
) -> (r: SignedRequest)
    requires
        api_key.is_ascii(),
        secret.is_ascii(),
        method.is_ascii(),
        path.is_ascii(),
        payload.is_ascii(),
        body.is_ascii(),
    ensures
        r.method@ == method@,
        r.path@ == path@,
        r.body@ == body@,
        r.headers@.len() == 4,
        r.headers@[0].0@ == "X-BAPI-API-KEY"@ && r.headers@[0].1@ == api_key@,
        r.headers@[1].0@ == "X-BAPI-TIMESTAMP"@ && r.headers@[1].1@ == spec_uint_str(
            timestamp as int,
        ),
        r.headers@[2].0@ == "X-BAPI-SIGN"@ && r.headers@[2].1@ == spec_bybit_signature(
            secret@,
            timestamp as int,
            api_key@,
            payload@,
        ),
        r.headers@[3].0@ == "Content-Type"@ && r.headers@[3].1@ == "application/json"@,
{
    let canonical = bybit_rest_canonical(timestamp, api_key, payload);
    let cs = canonical.as_str();
    let signature = sign_hmac_hex(secret, cs);
    proof {
        vstd::string::is_ascii_spec_bytes(secret);
        vstd::string::is_ascii_spec_bytes(cs);
        assert(secret.spec_bytes() =~= ascii_bytes(secret@));
        assert(cs.spec_bytes() =~= ascii_bytes(
            spec_uint_str(timestamp as int) + api_key@ + payload@,
        ));
    }
    let mut headers: Vec<(String, String)> = Vec::new();
    headers.push(pair_of("X-BAPI-API-KEY", api_key.to_owned()));
    headers.push(pair_of("X-BAPI-TIMESTAMP", u64_str(timestamp)));
    headers.push(pair_of("X-BAPI-SIGN", signature));
    headers.push(pair_of("Content-Type", String::from_str("application/json")));
    SignedRequest {
        method: method.to_owned(),
        path: path.to_owned(),
        headers,
        body: body.to_owned(),
    }
}

/// Relies on `chrono::Utc::now`: the wall clock, seconds since the
/// epoch.  Nothing can be promised of its value.  (`Utc::now` panics if
/// the system clock is before the epoch, so a negative value is not in
/// fact reachable; the callers below still clamp it rather than rely on
/// that.)
#[verifier::external_body]
fn now_timestamp_seconds() -> i64 {
    chrono::Utc::now().timestamp()
}

/// Relies on `chrono::Utc::now`: the wall clock, milliseconds since the
/// epoch.  Nothing can be promised of its value; same panic note as
/// [`now_timestamp_seconds`].
#[verifier::external_body]
fn now_timestamp_millis() -> i64 {
    chrono::Utc::now().timestamp_millis()
}

/// The clock reading clamped to the epoch: what every timestamp and
/// expiry below is built from.
pub fn clock_clamped(now: i64) -> (r: u64)
    ensures
        r as int == (if now < 0 {
            0int
        } else {
            now as int
        }),
        r <= 0x7fff_ffff_ffff_ffff,
{
    if now < 0 {
        0
    } else {
        now as u64
    }
}

/// Signature expiry one day past the given clock reading, in Unix
/// seconds.
pub fn expiry_from_seconds(now: i64) -> (r: u64)
    ensures
        r as int == (if now < 0 {
            0int
        } else {
            now as int
        }) + 86400,
{
    clock_clamped(now) + 86400
}

/// Signature expiry one day past the given clock reading, in Unix
/// milliseconds.
pub fn expiry_from_millis(now: i64) -> (r: u64)
    ensures
        r as int == (if now < 0 {
            0int
        } else {
            now as int
        }) + 86400000,
{
    clock_clamped(now) + 86400000
}

/// Signature expiry for venue A: one day past the current time, in Unix
/// seconds.
pub fn auth_expiry_seconds() -> (r: u64)
    ensures
        r >= 86400,
{
    expiry_from_seconds(now_timestamp_seconds())
}

/// Current time for venue-B signing, in Unix milliseconds.
pub fn timestamp_millis() -> (r: u64)
    ensures
        r <= 0x7fff_ffff_ffff_ffff,
{
    clock_clamped(now_timestamp_millis())
}

/// Signature expiry for venue B: one day past the current time, in Unix
/// milliseconds.
pub fn auth_expiry_millis() -> (r: u64)
    ensures
        r >= 86400000,
{
    expiry_from_millis(now_timestamp_millis())
}

} // verus!
