use signing_broker::attributes::ObjectAttributes;
use signing_broker::error::BrokerError;
use signing_broker::mechanism::SigningMechanism;
use signing_broker::signing::{key_identifier, signature_text, signing_mechanism};
use signing_broker::token::{KeyKind, TokenAttribute};

fn certificate_object(id: Option<&[u8]>, value: &[u8]) -> ObjectAttributes {
    ObjectAttributes {
        value: Some(value.to_vec()),
        id: id.map(|v| v.to_vec()),
        label: None,
        key_kind: None,
        modulus: None,
        public_exponent: None,
        ec_point: None,
    }
}

#[test]
fn an_rsa_key_signs_with_sha256_and_pkcs1() {
    assert_eq!(
        signing_mechanism(&vec![TokenAttribute::KeyType(KeyKind::Rsa)]),
        Ok(SigningMechanism::Sha256RsaPkcs)
    );
}

#[test]
fn an_ec_key_signs_with_plain_ecdsa() {
    assert_eq!(signing_mechanism(&vec![TokenAttribute::KeyType(KeyKind::Ec)]), Ok(SigningMechanism::Ecdsa));
}

#[test]
fn the_first_declared_key_type_decides() {
    let attributes = vec![
        TokenAttribute::Other,
        TokenAttribute::KeyType(KeyKind::Ec),
        TokenAttribute::KeyType(KeyKind::Rsa),
    ];
    assert_eq!(signing_mechanism(&attributes), Ok(SigningMechanism::Ecdsa));
}

#[test]
fn a_key_of_another_or_of_no_type_does_not_sign() {
    let other = signing_mechanism(&vec![TokenAttribute::KeyType(KeyKind::Other)]).unwrap_err();
    assert_eq!(other.kind, BrokerError::UnsupportedKeyType);
    assert_eq!(other.detail, "Unsupported key type for signing");
    let none = signing_mechanism(&vec![TokenAttribute::Id(vec![1])]).unwrap_err();
    assert_eq!(none.kind, BrokerError::UnsupportedKeyType);
    assert_eq!(none.detail, "Private key does not have a KeyType attribute");
    assert_eq!(signing_mechanism(&vec![]).unwrap_err().kind, BrokerError::UnsupportedKeyType);
}

#[test]
fn the_key_is_looked_for_under_the_identifier_of_the_matching_certificate() {
    let objects = vec![certificate_object(Some(&[0x0a]), b"one"), certificate_object(Some(&[0x0b]), b"two")];
    assert_eq!(key_identifier(&objects, b"two"), Ok(vec![0x0b]));
    assert_eq!(key_identifier(&objects, b"one"), Ok(vec![0x0a]));
}

#[test]
fn no_matching_certificate_is_a_mismatch() {
    let objects = vec![certificate_object(Some(&[0x0a]), b"one"), certificate_object(None, b"two")];
    assert_eq!(key_identifier(&objects, b"three").unwrap_err().kind, BrokerError::CertificateMismatch);
    assert_eq!(key_identifier(&objects, b"two").unwrap_err().kind, BrokerError::CertificateMismatch);
    assert_eq!(key_identifier(&vec![], b"one").unwrap_err().kind, BrokerError::CertificateMismatch);
}

#[test]
fn the_words_of_a_refusal_say_what_is_wrong() {
    let mismatch = key_identifier(&vec![], b"one").unwrap_err();
    assert_eq!(mismatch.detail, "Certificate matching provided DER not found or missing CKA_ID");
}

#[test]
fn a_signature_travels_as_lower_case_hexadecimal() {
    assert_eq!(signature_text(&[0x5e, 0x6f, 0x00, 0xff]), "5e6f00ff");
    assert_eq!(signature_text(&[7]), "07");
    assert_eq!(signature_text(&[]), "");
    let long: Vec<u8> = (0..=255u8).collect();
    let text = signature_text(&long);
    assert_eq!(text.len(), 512);
    assert!(text.chars().all(|c| c.is_ascii_digit() || ('a'..='f').contains(&c)));
}
