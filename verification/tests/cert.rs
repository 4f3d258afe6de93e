use acme_micro::acc::akey::keygen_outcome;
use acme_micro::cert::{
    create_csr, create_p256_key, create_p384_key, create_rsa_key, days_left, der_of_certificate,
    der_of_private_key, not_after_of, parse_date, parse_moment, pem_outcome, subject_alt_names,
    whole_days, Certificate,
};
use acme_micro::error::Error;

const DAY: i64 = 86400;

fn unix_now() -> i64 {
    std::time::SystemTime::now().duration_since(std::time::UNIX_EPOCH).unwrap().as_secs() as i64
}

/// A self-signed certificate for `key` that runs out at `not_after`.
fn certificate_pem(key: &openssl::pkey::PKey<openssl::pkey::Private>, not_after: i64) -> String {
    let mut name = openssl::x509::X509NameBuilder::new().unwrap();
    name.append_entry_by_text("CN", "example.com").unwrap();
    let name = name.build();
    let mut builder = openssl::x509::X509Builder::new().unwrap();
    builder.set_version(2).unwrap();
    builder.set_subject_name(&name).unwrap();
    builder.set_issuer_name(&name).unwrap();
    builder.set_pubkey(key).unwrap();
    let start = openssl::asn1::Asn1Time::from_unix(not_after - 90 * DAY).unwrap();
    builder.set_not_before(&start).unwrap();
    let end = openssl::asn1::Asn1Time::from_unix(not_after).unwrap();
    builder.set_not_after(&end).unwrap();
    builder.sign(key, openssl::hash::MessageDigest::sha256()).unwrap();
    String::from_utf8(builder.build().to_pem().unwrap()).unwrap()
}

fn key_pem(key: &openssl::pkey::PKey<openssl::pkey::Private>) -> String {
    String::from_utf8(key.private_key_to_pem_pkcs8().unwrap()).unwrap()
}

#[test]
fn test_parse_date() {
    let x = parse_date("May  3 07:40:15 2019 GMT").unwrap();
    assert_eq!(time::strftime("%F %T", &x).unwrap(), "2019-05-03 07:40:15");
}

#[test]
fn malformed_date_is_turned_down() {
    assert!(matches!(parse_date("the third of May"), Err(Error::Date(_))));
    assert!(matches!(parse_date(""), Err(Error::Date(_))));
}

#[test]
fn whole_days_are_cut_towards_zero() {
    assert_eq!(whole_days(0, 0, 89 * DAY, 0), 89);
    assert_eq!(whole_days(0, 0, 90 * DAY - 1, 999_999_999), 89);
    assert_eq!(whole_days(0, 1, 89 * DAY, 0), 88);
    assert_eq!(whole_days(0, 0, DAY - 1, 0), 0);
    assert_eq!(whole_days(0, 0, 0, 0), 0);
    assert_eq!(whole_days(DAY - 1, 0, 0, 0), 0);
    assert_eq!(whole_days(DAY, 0, 0, 0), -1);
    assert_eq!(whole_days(DAY, 500, 0, 0), -1);
    assert_eq!(whole_days(2 * DAY - 1, 0, 0, 0), -1);
    assert_eq!(whole_days(1_000_000 + 7 * DAY, 250, 1_000_000, 250), -7);
    assert_eq!(whole_days(i64::MIN, 0, i64::MAX, 0), 213_503_982_334_601);
    assert_eq!(whole_days(i64::MAX, i32::MAX, i64::MIN, i32::MIN), -213_503_982_334_601);
}

#[test]
fn certificate_keeps_both_texts() {
    let key = create_p256_key().unwrap();
    let cert = certificate_pem(&key, unix_now() + 30 * DAY);
    let private_key = key_pem(&key);
    let parsed = Certificate::parse(private_key.clone(), cert.clone()).unwrap();
    assert_eq!(parsed.private_key(), private_key);
    assert_eq!(parsed.certificate(), cert);
    assert_eq!(parsed.private_key_der().unwrap(), key.private_key_to_der().unwrap());
    let x509 = openssl::x509::X509::from_pem(cert.as_bytes()).unwrap();
    assert_eq!(parsed.certificate_der().unwrap(), x509.to_der().unwrap());
}

#[test]
fn certificate_must_be_valid_pem() {
    let key = create_p256_key().unwrap();
    let cert = certificate_pem(&key, unix_now() + 30 * DAY);
    let private_key = key_pem(&key);
    assert!(matches!(
        Certificate::parse("no key".to_string(), cert.clone()),
        Err(Error::Pem(_))
    ));
    assert!(matches!(
        Certificate::parse(private_key.clone(), "no certificate".to_string()),
        Err(Error::Pem(_))
    ));
    assert!(matches!(
        Certificate::parse("no key".to_string(), "no certificate".to_string()),
        Err(Error::Pem(_))
    ));
    assert!(matches!(
        Certificate::from_checked(private_key.clone(), cert.clone(), true, false),
        Err(Error::Pem(_))
    ));
    assert!(matches!(
        Certificate::from_checked(private_key.clone(), cert.clone(), false, true),
        Err(Error::Pem(_))
    ));
    assert!(Certificate::from_checked(private_key, cert, true, true).is_ok());
}

#[test]
fn unchecked_certificate_fails_at_use() {
    let cert = Certificate::new("no key".to_string(), "no certificate".to_string());
    assert_eq!(cert.private_key(), "no key");
    assert_eq!(cert.certificate(), "no certificate");
    assert!(matches!(cert.private_key_der(), Err(Error::Pem(_))));
    assert!(matches!(cert.certificate_der(), Err(Error::Pem(_))));
    assert!(matches!(cert.valid_days_left(), Err(Error::Pem(_))));
}

#[test]
fn fresh_certificate_has_89_days_left() {
    let key = create_p256_key().unwrap();
    let expires = unix_now() + 90 * DAY - 10;
    let cert = Certificate::parse(key_pem(&key), certificate_pem(&key, expires)).unwrap();
    assert_eq!(cert.valid_days_left().unwrap(), 89);
    assert_eq!(cert.not_after().unwrap(), (expires, 0));
}

#[test]
fn expired_certificate_has_negative_days_left() {
    let key = create_p256_key().unwrap();
    let expires = unix_now() - DAY - 10;
    let cert = Certificate::parse(key_pem(&key), certificate_pem(&key, expires)).unwrap();
    assert_eq!(cert.valid_days_left().unwrap(), -1);
    let long_gone = unix_now() - 10 * DAY - 10;
    let cert = Certificate::parse(key_pem(&key), certificate_pem(&key, long_gone)).unwrap();
    assert_eq!(cert.valid_days_left().unwrap(), -10);
}

#[test]
fn request_lists_every_domain_in_order() {
    let key = create_p256_key().unwrap();
    let csr = create_csr(&key, &["example.com", "www.example.com"]).unwrap();
    let public = csr.public_key().unwrap();
    assert!(csr.verify(&public).unwrap());
    assert!(public.public_eq(&key));
    assert!(csr.verify(&key).unwrap());
    let extensions = csr.extensions().unwrap();
    assert_eq!(extensions.len(), 1);
    // subjectAltName (2.5.29.17) with two dNSName entries, in DER.
    let mut expected = vec![0x30u8, 39, 0x06, 0x03, 0x55, 0x1d, 0x11, 0x04, 32, 0x30, 30, 0x82, 11];
    expected.extend_from_slice(b"example.com");
    expected.extend_from_slice(&[0x82, 15]);
    expected.extend_from_slice(b"www.example.com");
    assert_eq!(extensions.get(0).unwrap().to_der().unwrap(), expected);
    let other = create_p256_key().unwrap();
    assert!(!csr.verify(&other).unwrap());
}

#[test]
fn request_for_one_domain_lists_it_alone() {
    let key = create_p384_key().unwrap();
    let csr = create_csr(&key, &["example.org"]).unwrap();
    assert!(csr.verify(&key).unwrap());
    let extensions = csr.extensions().unwrap();
    let mut expected = vec![0x30u8, 22, 0x06, 0x03, 0x55, 0x1d, 0x11, 0x04, 15, 0x30, 13, 0x82, 11];
    expected.extend_from_slice(b"example.org");
    assert_eq!(extensions.get(0).unwrap().to_der().unwrap(), expected);
    let _ = subject_alt_names(&["a.example", "b.example"]);
}

#[test]
fn request_must_name_a_domain() {
    let key = create_p256_key().unwrap();
    assert!(matches!(create_csr(&key, &[]), Err(Error::EmptyDomains)));
}

#[test]
fn keys_are_of_the_kind_asked_for() {
    let rsa = create_rsa_key(2048).unwrap();
    assert_eq!(rsa.rsa().unwrap().size(), 256);
    let p256 = create_p256_key().unwrap();
    assert_eq!(p256.ec_key().unwrap().group().degree(), 256);
    let p384 = create_p384_key().unwrap();
    assert_eq!(p384.ec_key().unwrap().group().degree(), 384);
}

#[test]
fn dates_are_read_in_the_form_of_a_certificate_only() {
    assert!(parse_date("Apr 19 08:48:46 2019 GMT").is_ok());
    assert!(parse_date("Jan  1 00:00:00 2030 GMT").is_ok());
    assert!(matches!(parse_date("2019-04-19 08:48:46"), Err(Error::Date(_))));
    assert!(matches!(parse_date("Apr 32 08:48:46 2019 GMT"), Err(Error::Date(_))));
    assert!(matches!(parse_date("Foo 19 08:48:46 2019 GMT"), Err(Error::Date(_))));
    let x = parse_date("Dec 31 23:59:59 1999 GMT").unwrap();
    assert_eq!((x.tm_year, x.tm_mon, x.tm_mday), (99, 11, 31));
    assert_eq!((x.tm_hour, x.tm_min, x.tm_sec), (23, 59, 59));
}

#[test]
fn days_left_are_counted_from_the_moment_given() {
    assert_eq!(days_left(Ok((89 * DAY, 0)), 0, 0).unwrap(), 89);
    assert_eq!(days_left(Ok((89 * DAY, 0)), 0, 1).unwrap(), 88);
    assert_eq!(days_left(Ok((1_000, 0)), 1_000 + DAY, 0).unwrap(), -1);
    assert_eq!(days_left(Ok((5, 7)), 5, 7).unwrap(), 0);
    assert!(matches!(
        days_left(Err(Error::Date("unreadable".to_string())), 0, 0),
        Err(Error::Date(message)) if message == "unreadable"
    ));
    assert!(matches!(days_left(Err(Error::Pem("p".to_string())), 0, 0), Err(Error::Pem(_))));
}

#[test]
fn openssl_failures_become_errors_of_their_kind() {
    assert_eq!(keygen_outcome(Ok(7)).unwrap(), 7);
    assert_eq!(pem_outcome(Ok("der".to_string())).unwrap(), "der");
    assert!(matches!(
        keygen_outcome::<u8>(Err(openssl::error::ErrorStack::get())),
        Err(Error::Keygen(_))
    ));
    assert!(matches!(
        pem_outcome::<u8>(Err(openssl::error::ErrorStack::get())),
        Err(Error::Pem(_))
    ));
}

#[test]
fn date_names_its_moment() {
    assert_eq!(parse_moment("May  3 07:40:15 2019 GMT").unwrap(), (1556869215, 0));
    assert_eq!(parse_moment("Dec 31 23:59:59 1999 GMT").unwrap(), (946684799, 0));
    assert_eq!(parse_moment("Jan  1 00:00:00 1970 GMT").unwrap(), (0, 0));
    assert_eq!(parse_moment("Jan  1 00:00:00 1970 UTC").unwrap(), (0, 0));
    assert!(matches!(parse_moment("1970-01-01"), Err(Error::Date(_))));
    assert!(matches!(parse_moment(""), Err(Error::Date(_))));
}

#[test]
fn certificate_that_was_read_gives_its_moment_and_its_der() {
    let key = create_p256_key().unwrap();
    let pem = certificate_pem(&key, 1_900_000_000);
    let x509 = openssl::x509::X509::from_pem(pem.as_bytes()).unwrap();
    assert_eq!(not_after_of(&x509).unwrap(), (1_900_000_000, 0));
    assert_eq!(der_of_certificate(&x509).unwrap(), x509.to_der().unwrap());
    assert_eq!(der_of_private_key(&key).unwrap(), key.private_key_to_der().unwrap());
    let cert = Certificate::parse(key_pem(&key), pem).unwrap();
    assert_eq!(cert.not_after().unwrap(), (1_900_000_000, 0));
}
