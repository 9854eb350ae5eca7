use openssl::ec::{EcGroup, EcKey};
use openssl::hash::MessageDigest;
use openssl::nid::Nid;
use openssl::pkey::{PKey, Private};
use openssl::rsa::Rsa;
use openssl::sign::Signer;
use signing_broker::auth::{
    admission, authenticate, canonical_message, counter_signature_valid, is_fresh,
    FRESHNESS_WINDOW_NANOS,
};
use signing_broker::error::BrokerError;
use signing_broker::hexcodec::encode;
use signing_broker::timestamp::{parse_timestamp, Instant};

const IDENTIFIER: &str = "3082010a0282010100";
const TIMESTAMP: &str = "2024-05-17T07:30:00Z";
const STATED_SECONDS: i64 = 1_715_931_000;

fn rsa_key() -> PKey<Private> {
    PKey::from_rsa(Rsa::generate(2048).unwrap()).unwrap()
}

fn ec_key() -> PKey<Private> {
    let group = EcGroup::from_curve_name(Nid::X9_62_PRIME256V1).unwrap();
    PKey::from_ec_key(EcKey::generate(&group).unwrap()).unwrap()
}

fn public_pem(key: &PKey<Private>) -> Vec<u8> {
    key.public_key_to_pem().unwrap()
}

fn sign(key: &PKey<Private>, message: &[u8]) -> String {
    let mut signer = Signer::new(MessageDigest::sha256(), key).unwrap();
    signer.update(message).unwrap();
    encode(&signer.sign_to_vec().unwrap())
}

fn counter_signature(key: &PKey<Private>, identifier: &str, timestamp: &str) -> String {
    sign(key, format!("{}_{}", identifier, timestamp).as_bytes())
}

#[test]
fn the_message_is_identifier_underscore_timestamp() {
    assert_eq!(canonical_message(b"01", b"2024-05-17T07:30:00Z"), b"01_2024-05-17T07:30:00Z".to_vec());
    assert_eq!(canonical_message(b"", b""), b"_".to_vec());
    assert_eq!(canonical_message(b"a_b", b"c"), b"a_b_c".to_vec());
}

#[test]
fn a_fresh_and_signed_request_is_accepted() {
    let key = rsa_key();
    let signature = counter_signature(&key, IDENTIFIER, TIMESTAMP);
    for age in [0i64, 1, 299, 300, -1, -300] {
        let now = Instant::from_unix_seconds(STATED_SECONDS + age);
        assert_eq!(authenticate(IDENTIFIER, TIMESTAMP, &signature, now, &public_pem(&key)), Ok(()));
    }
}

#[test]
fn an_ec_key_is_a_trusted_key_too() {
    let key = ec_key();
    let signature = counter_signature(&key, IDENTIFIER, TIMESTAMP);
    let now = Instant::from_unix_seconds(STATED_SECONDS + 5);
    assert_eq!(authenticate(IDENTIFIER, TIMESTAMP, &signature, now, &public_pem(&key)), Ok(()));
}

#[test]
fn a_request_outside_the_window_is_stale_whatever_its_signature() {
    let key = rsa_key();
    let valid = counter_signature(&key, IDENTIFIER, TIMESTAMP);
    for age in [301i64, 400, -301, -400, 86_400] {
        let now = Instant::from_unix_seconds(STATED_SECONDS + age);
        assert_eq!(
            authenticate(IDENTIFIER, TIMESTAMP, &valid, now, &public_pem(&key)),
            Err(BrokerError::StaleRequest)
        );
        assert_eq!(
            authenticate(IDENTIFIER, TIMESTAMP, "00", now, &public_pem(&key)),
            Err(BrokerError::StaleRequest)
        );
        assert_eq!(
            authenticate(IDENTIFIER, TIMESTAMP, "not hexadecimal", now, b"no key"),
            Err(BrokerError::StaleRequest)
        );
    }
}

#[test]
fn the_window_ends_at_300_seconds_to_the_nanosecond() {
    let key = rsa_key();
    let signature = counter_signature(&key, IDENTIFIER, TIMESTAMP);
    let stated = (STATED_SECONDS as i128) * 1_000_000_000;
    let pem = public_pem(&key);
    let at = |nanos: i128| authenticate(IDENTIFIER, TIMESTAMP, &signature, Instant::from_unix_nanos(nanos), &pem);
    assert_eq!(at(stated + 300_000_000_000), Ok(()));
    assert_eq!(at(stated + 300_000_000_001), Err(BrokerError::StaleRequest));
    assert_eq!(at(stated - 300_000_000_000), Ok(()));
    assert_eq!(at(stated - 300_000_000_001), Err(BrokerError::StaleRequest));
}

#[test]
fn a_fraction_of_a_second_counts_in_the_window() {
    let key = rsa_key();
    let timestamp = "2024-05-17T07:30:00.900Z";
    let signature = counter_signature(&key, IDENTIFIER, timestamp);
    let pem = public_pem(&key);
    // 300.9 seconds ahead of now is outside the window, 299.9 seconds is inside.
    assert_eq!(
        authenticate(IDENTIFIER, timestamp, &signature, Instant::from_unix_seconds(STATED_SECONDS - 300), &pem),
        Err(BrokerError::StaleRequest)
    );
    assert_eq!(
        authenticate(IDENTIFIER, timestamp, &signature, Instant::from_unix_seconds(STATED_SECONDS - 299), &pem),
        Ok(())
    );
}

#[test]
fn a_signature_of_another_key_is_invalid() {
    let trusted = rsa_key();
    let other = rsa_key();
    let now = Instant::from_unix_seconds(STATED_SECONDS);
    let forged = counter_signature(&other, IDENTIFIER, TIMESTAMP);
    assert_eq!(
        authenticate(IDENTIFIER, TIMESTAMP, &forged, now, &public_pem(&trusted)),
        Err(BrokerError::SignatureInvalid)
    );
    for message in [&b""[..], &b"m"[..], &b"3082010a0282010100_2024-05-17T07:30:00Z"[..], &[0u8, 255, 7][..]] {
        let signature = sign(&other, message);
        assert!(!counter_signature_valid(&public_pem(&trusted), message, &signature));
        assert!(counter_signature_valid(&public_pem(&other), message, &signature));
    }
}

#[test]
fn a_signature_over_another_message_is_invalid() {
    let key = rsa_key();
    let now = Instant::from_unix_seconds(STATED_SECONDS);
    let pem = public_pem(&key);
    let other_identifier = counter_signature(&key, "3082010a0282010101", TIMESTAMP);
    let other_timestamp = counter_signature(&key, IDENTIFIER, "2024-05-17T07:30:01Z");
    let no_underscore = sign(&key, format!("{}{}", IDENTIFIER, TIMESTAMP).as_bytes());
    for signature in [other_identifier, other_timestamp, no_underscore] {
        assert_eq!(
            authenticate(IDENTIFIER, TIMESTAMP, &signature, now, &pem),
            Err(BrokerError::SignatureInvalid)
        );
    }
}

#[test]
fn a_signature_or_key_that_does_not_parse_is_invalid() {
    let key = rsa_key();
    let now = Instant::from_unix_seconds(STATED_SECONDS);
    let signature = counter_signature(&key, IDENTIFIER, TIMESTAMP);
    for broken in ["", "zz", "abc", "-----BEGIN PGP SIGNATURE-----"] {
        assert_eq!(
            authenticate(IDENTIFIER, TIMESTAMP, broken, now, &public_pem(&key)),
            Err(BrokerError::SignatureInvalid)
        );
    }
    assert_eq!(
        authenticate(IDENTIFIER, TIMESTAMP, &signature, now, b"not a key"),
        Err(BrokerError::SignatureInvalid)
    );
    assert_eq!(
        authenticate(IDENTIFIER, TIMESTAMP, &signature, now, b""),
        Err(BrokerError::SignatureInvalid)
    );
}

#[test]
fn a_timestamp_that_does_not_parse_is_malformed() {
    let key = rsa_key();
    let now = Instant::from_unix_seconds(STATED_SECONDS);
    for timestamp in ["", "yesterday", "1715931000", "2024-05-17T07:30:00", "2024-05-17"] {
        let signature = counter_signature(&key, IDENTIFIER, timestamp);
        assert_eq!(
            authenticate(IDENTIFIER, timestamp, &signature, now, &public_pem(&key)),
            Err(BrokerError::MalformedTimestamp)
        );
    }
}

#[test]
fn the_verdict_on_parsed_values() {
    let now = Instant::from_unix_seconds(1_000);
    let fresh = Some(Instant::from_unix_seconds(700));
    let stale = Some(Instant::from_unix_seconds(699));
    assert_eq!(admission(fresh, now, true), Ok(()));
    assert_eq!(admission(fresh, now, false), Err(BrokerError::SignatureInvalid));
    assert_eq!(admission(stale, now, true), Err(BrokerError::StaleRequest));
    assert_eq!(admission(stale, now, false), Err(BrokerError::StaleRequest));
    assert_eq!(admission(None, now, true), Err(BrokerError::MalformedTimestamp));
    assert_eq!(admission(None, now, false), Err(BrokerError::MalformedTimestamp));
    assert_eq!(admission(parse_timestamp(b"1970-01-01T00:16:40Z"), now, true), Ok(()));
}

#[test]
fn freshness_at_the_ends_of_the_range() {
    let far_past = Instant::from_unix_nanos(i128::MIN);
    let far_future = Instant::from_unix_nanos(i128::MAX);
    let zero = Instant::from_unix_nanos(0);
    assert!(!is_fresh(far_future, far_past));
    assert!(!is_fresh(far_past, far_future));
    assert!(!is_fresh(zero, far_past));
    assert!(is_fresh(far_future, far_future));
    assert!(is_fresh(zero, Instant::from_unix_nanos(FRESHNESS_WINDOW_NANOS)));
    assert!(!is_fresh(zero, Instant::from_unix_nanos(FRESHNESS_WINDOW_NANOS + 1)));
    assert_eq!(FRESHNESS_WINDOW_NANOS, 300 * 1_000_000_000);
}
