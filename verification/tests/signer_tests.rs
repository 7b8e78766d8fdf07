use exchange::signer::{bitmex_signed_request, bybit_signed_request, sign_hmac_hex};
use hmac::Mac;

fn reference_hmac_hex(secret: &str, msg: &str) -> String {
    let mut mac = <hmac::Hmac<sha2::Sha256> as hmac::KeyInit>::new_from_slice(secret.as_bytes())
        .expect("any key length");
    mac.update(msg.as_bytes());
    hex::encode(mac.finalize().into_bytes())
}

#[test]
fn hmac_hex_matches_known_vector() {
    // HMAC-SHA256 test vector: key "Jefe", message "what do ya want for
    // nothing?"
    let sig = sign_hmac_hex("Jefe", "what do ya want for nothing?");
    assert_eq!(
        sig,
        "5bdcc146bf60754e6a042426089575c75a003f089d2739839dec58b964ec3843"
    );
}

#[test]
fn hmac_hex_agrees_with_reference_implementation() {
    let sig = sign_hmac_hex("topsecret", "GET/api/v1/order/all1700000000");
    assert_eq!(sig, reference_hmac_hex("topsecret", "GET/api/v1/order/all1700000000"));
    assert_eq!(sig.len(), 64);
}

#[test]
fn bitmex_request_headers_and_signature() {
    let r = bitmex_signed_request("key1", "secret1", "DELETE", "/api/v1/order/all", "", 1_700_000_000);
    assert_eq!(r.method, "DELETE");
    assert_eq!(r.path, "/api/v1/order/all");
    assert_eq!(r.body, "");
    assert_eq!(r.headers.len(), 4);
    assert_eq!(r.headers[0], ("api-expires".to_string(), "1700000000".to_string()));
    assert_eq!(r.headers[1], ("api-key".to_string(), "key1".to_string()));
    assert_eq!(r.headers[2].0, "api-signature");
    assert_eq!(
        r.headers[2].1,
        reference_hmac_hex("secret1", "DELETE/api/v1/order/all1700000000")
    );
    assert_eq!(
        r.headers[3],
        ("Content-Type".to_string(), "application/json".to_string())
    );
}

#[test]
fn bybit_request_headers_and_signature() {
    let r = bybit_signed_request(
        "key2",
        "secret2",
        "GET",
        "/v5/account/wallet-balance?accountType=UNIFIED&coin=MATIC",
        "accountType=UNIFIED&coin=MATIC",
        "",
        1_700_000_000_123,
    );
    assert_eq!(r.method, "GET");
    assert_eq!(r.body, "");
    assert_eq!(r.headers[0], ("X-BAPI-API-KEY".to_string(), "key2".to_string()));
    assert_eq!(r.headers[1], ("X-BAPI-TIMESTAMP".to_string(), "1700000000123".to_string()));
    assert_eq!(r.headers[2].0, "X-BAPI-SIGN");
    assert_eq!(
        r.headers[2].1,
        reference_hmac_hex("secret2", "1700000000123key2accountType=UNIFIED&coin=MATIC")
    );
    assert_eq!(
        r.headers[3],
        ("Content-Type".to_string(), "application/json".to_string())
    );
}
