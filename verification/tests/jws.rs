use acme_micro::acc::akey::{left_pad, AcmeKey, Curve};
use acme_micro::error::Error;
use acme_micro::jwt::{Jwk, Jws, JwsIdentity, JwsProtected};
use acme_micro::trans::{
    encode_payload, join_signature, jws_sign, jws_with, jws_with_jwk, jws_with_kid, seal_jws,
    signing_digest, signing_parts,
};

fn decode(text: &str) -> Vec<u8> {
    base64::decode_config(text, base64::URL_SAFE_NO_PAD).unwrap()
}

fn member<'a>(doc: &'a serde_json::Value, name: &str) -> &'a str {
    doc.get(name).unwrap().as_str().unwrap()
}

fn hex(bytes: &[u8]) -> String {
    let mut out = String::new();
    for b in bytes {
        out.push_str(&format!("{:02x}", b));
    }
    out
}

#[test]
fn payload_is_written_in_unpadded_url_safe_base64() {
    assert_eq!(encode_payload("f"), "Zg");
    assert_eq!(encode_payload("fo"), "Zm8");
    assert_eq!(encode_payload("foo"), "Zm9v");
    assert_eq!(encode_payload("foob"), "Zm9vYg");
    assert_eq!(encode_payload("fooba"), "Zm9vYmE");
    assert_eq!(encode_payload("foobar"), "Zm9vYmFy");
    assert_eq!(encode_payload("~~~"), "fn5-");
    assert_eq!(encode_payload("???"), "Pz8_");
    assert_eq!(encode_payload("{\"a\":1}"), "eyJhIjoxfQ");
}

#[test]
fn empty_string_payload_stays_empty() {
    assert_eq!(encode_payload("\"\""), "");
    assert_eq!(encode_payload("{}"), "e30");
    assert_eq!(encode_payload(""), "");
}

#[test]
fn digest_is_sha256_of_both_members_with_a_dot() {
    assert_eq!(
        hex(&signing_digest("", "")),
        "cdb4ee2aea69cc6a83331bbe96dc2caa9a299d21329efb0336fc02a82e1839a8"
    );
    assert_eq!(
        hex(&signing_digest("e30", "e30")),
        "e75e2f1bd181b1b0e32a20fa939f3f8a831a02658411db5e21f3b88082f594d6"
    );
}

#[test]
fn numbers_are_filled_up_with_leading_zeros() {
    assert_eq!(left_pad(&[7, 9], 4), Some(vec![0, 0, 7, 9]));
    assert_eq!(left_pad(&[1, 2, 3, 4], 4), Some(vec![1, 2, 3, 4]));
    assert_eq!(left_pad(&[], 2), Some(vec![0, 0]));
    assert_eq!(left_pad(&[1, 2, 3], 2), None);
}

#[test]
fn signature_halves_stand_side_by_side() {
    assert_eq!(join_signature(&[1], &[2, 3], 3), Some(vec![0, 0, 1, 0, 2, 3]));
    assert_eq!(join_signature(&[1, 2, 3, 4], &[2], 3), None);
    assert_eq!(join_signature(&[1], &[1, 2, 3, 4], 3), None);
}

#[test]
fn sealing_pads_both_halves_to_the_curve() {
    let jws = seal_jws("p".to_string(), "q".to_string(), &[1], &[2], 32).unwrap();
    assert_eq!(jws.protected, "p");
    assert_eq!(jws.payload, "q");
    let raw = decode(&jws.signature);
    assert_eq!(raw.len(), 64);
    let mut expected = vec![0u8; 64];
    expected[31] = 1;
    expected[63] = 2;
    assert_eq!(raw, expected);
    assert!(matches!(
        seal_jws("p".to_string(), "q".to_string(), &[1; 33], &[2], 32),
        Err(Error::Crypto(_))
    ));
}

#[test]
fn envelope_is_one_flat_json_object() {
    let jws = Jws::new("cHJv".to_string(), "".to_string(), "c2ln".to_string());
    assert_eq!(
        jws.to_json().unwrap(),
        r#"{"protected":"cHJv","payload":"","signature":"c2ln"}"#
    );
}

#[test]
fn header_is_written_with_escapes() {
    let protected = JwsProtected::new_kid("https://ca/acct/1", "https://ca/\"x\"", "n\\1".to_string());
    assert_eq!(
        protected.to_json().unwrap(),
        r#"{"alg":"ES256","nonce":"n\\1","url":"https://ca/\"x\"","kid":"https://ca/acct/1"}"#
    );
    assert!(matches!(protected.identity, JwsIdentity::Kid(_)));
}

#[test]
fn jwk_header_carries_the_public_key() {
    let key = AcmeKey::new().unwrap();
    let jwk = Jwk::from_key(&key);
    assert_eq!(jwk.alg, "ES256");
    assert_eq!(jwk.crv, "P-256");
    assert_eq!(jwk.kty, "EC");
    assert_eq!(jwk.key_use, "sig");
    assert_eq!(decode(&jwk.x), *key.public_x());
    assert_eq!(decode(&jwk.y), *key.public_y());
    let json = jwk.to_json().unwrap();
    assert_eq!(
        json,
        format!(
            r#"{{"alg":"ES256","crv":"P-256","kty":"EC","use":"sig","x":"{}","y":"{}"}}"#,
            jwk.x, jwk.y
        )
    );
    let protected = JwsProtected::new_jwk(jwk, "/a", "n".to_string());
    assert_eq!(
        protected.to_json().unwrap(),
        format!(r#"{{"alg":"ES256","nonce":"n","url":"/a","jwk":{}}}"#, json)
    );
}

#[test]
fn public_point_is_the_one_of_the_key() {
    let key = AcmeKey::new().unwrap();
    assert_eq!(key.curve(), Curve::P256);
    assert_eq!(key.public_x().len(), 32);
    assert_eq!(key.public_y().len(), 32);
    let ec = key.private_key();
    let mut ctx = openssl::bn::BigNumContext::new().unwrap();
    let mut x = openssl::bn::BigNum::new().unwrap();
    let mut y = openssl::bn::BigNum::new().unwrap();
    ec.public_key().affine_coordinates_gfp(ec.group(), &mut x, &mut y, &mut ctx).unwrap();
    assert_eq!(*key.public_x(), x.to_vec_padded(32).unwrap());
    assert_eq!(*key.public_y(), y.to_vec_padded(32).unwrap());
}

fn check_signature(key: &AcmeKey, jws: &serde_json::Value) {
    let input = format!("{}.{}", member(jws, "protected"), member(jws, "payload"));
    let digest = openssl::sha::sha256(input.as_bytes());
    let raw = decode(member(jws, "signature"));
    assert_eq!(raw.len(), 64);
    let r = openssl::bn::BigNum::from_slice(&raw[..32]).unwrap();
    let s = openssl::bn::BigNum::from_slice(&raw[32..]).unwrap();
    let sig = openssl::ecdsa::EcdsaSig::from_private_components(r, s).unwrap();
    assert!(sig.verify(&digest, key.private_key()).unwrap());
}

#[test]
fn kid_request_decodes_back_to_its_header() {
    let mut key = AcmeKey::new().unwrap();
    key.set_key_id("https://example/acct/1".to_string());
    let text =
        jws_with_kid("https://example/order", "nonce-1".to_string(), &key, "{\"a\":1}").unwrap();
    let jws: serde_json::Value = serde_json::from_str(&text).unwrap();
    assert_eq!(jws.as_object().unwrap().len(), 3);
    let header: serde_json::Value =
        serde_json::from_slice(&decode(member(&jws, "protected"))).unwrap();
    assert_eq!(header.as_object().unwrap().len(), 4);
    assert_eq!(member(&header, "alg"), "ES256");
    assert_eq!(member(&header, "nonce"), "nonce-1");
    assert_eq!(member(&header, "url"), "https://example/order");
    assert_eq!(member(&header, "kid"), "https://example/acct/1");
    assert!(header.get("jwk").is_none());
    assert_eq!(decode(member(&jws, "payload")), b"{\"a\":1}");
    check_signature(&key, &jws);
}

#[test]
fn jwk_request_decodes_back_to_its_header() {
    let key = AcmeKey::new().unwrap();
    let text = jws_with_jwk("https://example/acct", "nonce-2".to_string(), &key, "{}").unwrap();
    let jws: serde_json::Value = serde_json::from_str(&text).unwrap();
    let header: serde_json::Value =
        serde_json::from_slice(&decode(member(&jws, "protected"))).unwrap();
    assert_eq!(header.as_object().unwrap().len(), 4);
    assert_eq!(member(&header, "alg"), "ES256");
    assert_eq!(member(&header, "nonce"), "nonce-2");
    assert_eq!(member(&header, "url"), "https://example/acct");
    assert!(header.get("kid").is_none());
    let jwk = header.get("jwk").unwrap();
    assert_eq!(member(jwk, "kty"), "EC");
    assert_eq!(member(jwk, "crv"), "P-256");
    assert_eq!(decode(member(jwk, "x")), *key.public_x());
    assert_eq!(decode(member(jwk, "y")), *key.public_y());
    assert_eq!(member(&jws, "payload"), "e30");
    check_signature(&key, &jws);
}

#[test]
fn signing_the_empty_string_gives_an_empty_payload() {
    let key = AcmeKey::new().unwrap();
    let protected = JwsProtected::new_jwk(Jwk::from_key(&key), "/u", "n".to_string());
    let signed = jws_sign(&protected, &key, "\"\"").unwrap();
    assert_eq!(signed.payload, "");
    let signed = jws_sign(&protected, &key, "{}").unwrap();
    assert_eq!(signed.payload, "e30");
    assert!(!signed.payload.is_empty());
    assert_eq!(decode(&signed.signature).len(), 64);
    let text = jws_with(protected, &key, "\"\"").unwrap();
    let jws: serde_json::Value = serde_json::from_str(&text).unwrap();
    assert_eq!(member(&jws, "payload"), "");
    check_signature(&key, &jws);
}

#[test]
fn many_signatures_all_have_the_full_width() {
    let mut key = AcmeKey::new().unwrap();
    key.set_key_id("kid".to_string());
    for i in 0..300 {
        let text = jws_with_kid("/u", format!("n{}", i), &key, "{}").unwrap();
        let jws: serde_json::Value = serde_json::from_str(&text).unwrap();
        check_signature(&key, &jws);
    }
}

#[test]
fn key_without_key_id_cannot_sign_by_key_id() {
    let key = AcmeKey::new().unwrap();
    assert!(matches!(
        jws_with_kid("/u", "n".to_string(), &key, "{}"),
        Err(Error::UnboundIdentity)
    ));
    assert!(matches!(key.key_id(), Err(Error::UnboundIdentity)));
}

#[test]
fn strings_are_quoted_as_json_asks() {
    let quoted = |s: &str| {
        let jws = Jws::new(s.to_string(), String::new(), String::new());
        let text = jws.to_json().unwrap();
        let prefix = "{\"protected\":";
        let suffix = ",\"payload\":\"\",\"signature\":\"\"}";
        assert!(text.starts_with(prefix) && text.ends_with(suffix));
        text[prefix.len()..text.len() - suffix.len()].to_string()
    };
    assert_eq!(quoted(""), "\"\"");
    assert_eq!(quoted("plain"), "\"plain\"");
    assert_eq!(quoted("a\"b"), "\"a\\\"b\"");
    assert_eq!(quoted("a\\b"), "\"a\\\\b\"");
    assert_eq!(quoted("\u{8}\t\n\u{c}\r"), "\"\\b\\t\\n\\f\\r\"");
    assert_eq!(quoted("\u{0}\u{1}\u{b}\u{1f}"), "\"\\u0000\\u0001\\u000b\\u001f\"");
    assert_eq!(quoted(" /\u{7f}"), "\" /\u{7f}\"");
    assert_eq!(quoted("h\u{e9}llo \u{1f512}"), "\"h\u{e9}llo \u{1f512}\"");
    for s in ["", "a\"b\\c", "\u{1}\u{1f}\n", "h\u{e9}llo"] {
        let back: String = serde_json::from_str(&quoted(s)).unwrap();
        assert_eq!(back, s);
    }
}

#[test]
fn what_is_signed_is_protected_dot_payload() {
    let protected = JwsProtected::new_kid("k", "/u", "n".to_string());
    let (p, q, digest) = signing_parts(&protected, "{}").unwrap();
    assert_eq!(decode(&p), br#"{"alg":"ES256","nonce":"n","url":"/u","kid":"k"}"#);
    assert_eq!(q, "e30");
    let expected = openssl::sha::sha256(format!("{}.{}", p, q).as_bytes());
    assert_eq!(digest, expected);
    assert_ne!(digest, openssl::sha::sha256(format!("{}.{}", q, p).as_bytes()));
    let (_, q, _) = signing_parts(&protected, "\"\"").unwrap();
    assert_eq!(q, "");
}
