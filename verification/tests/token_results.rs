use cryptoki::error::Error;
use cryptoki::object::{Attribute, AttributeType, KeyType, ObjectClass};
use signing_broker::attributes::ObjectAttributes;
use signing_broker::auth::{counter_signature_valid, MAX_KEY_BYTES};
use signing_broker::broker::{signing_job, SigningJob, SigningRequestData};
use signing_broker::directory::{
    certificate_listing, certificate_value, chosen_certificate, chosen_identifier, join_slots,
    listed_label, value_present, CertificateInfo, CertificateRecord,
};
use signing_broker::hexcodec::encode;
use signing_broker::signing::certificate_encoding;
use signing_broker::error::{BrokerError, Failure};
use signing_broker::token::{
    attribute_names, first_found, module_present, plain_attributes, reported, AttributeKind,
    KeyKind, TokenAttribute, MAX_IDENTIFIER_BYTES,
};
use signing_broker::waiter::sent_or_closed;

#[test]
fn a_value_of_the_binding_is_reported_as_it_is() {
    assert_eq!(reported(Ok(7u8), BrokerError::AuthFailure), Ok(7));
    assert_eq!(reported(Ok(vec![1u8, 2]), BrokerError::NoTokenPresent), Ok(vec![1, 2]));
    assert_eq!(reported(Ok(()), BrokerError::ModuleNotFound), Ok(()));
}

#[test]
fn an_error_of_the_binding_is_reported_under_the_kind_given() {
    let failure = reported::<u8>(Err(Error::NotSupported), BrokerError::AuthFailure).unwrap_err();
    assert_eq!(failure.kind, BrokerError::AuthFailure);
    assert_eq!(failure.detail, "Feature not supported");
    let failure = reported::<()>(Err(Error::PinNotSet), BrokerError::PrivateKeyNotFound).unwrap_err();
    assert_eq!(failure.kind, BrokerError::PrivateKeyNotFound);
    assert_eq!(failure.detail, "Pin has not been set before trying to log in");
}

#[test]
fn the_first_of_what_was_found() {
    assert_eq!(first_found(&vec![4u8, 5, 6], BrokerError::NoTokenPresent, "none"), Ok(4));
    assert_eq!(first_found(&vec![9u8], BrokerError::NoTokenPresent, "none"), Ok(9));
    assert_eq!(
        first_found::<u8>(&vec![], BrokerError::NoTokenPresent, "No token slot available"),
        Err(Failure::new(BrokerError::NoTokenPresent, "No token slot available"))
    );
    assert_eq!(
        first_found::<u8>(&vec![], BrokerError::PrivateKeyNotFound, "none"),
        Err(Failure::new(BrokerError::PrivateKeyNotFound, "none"))
    );
}

#[test]
fn attributes_are_asked_for_by_their_names_in_order() {
    let names = attribute_names(&[
        AttributeKind::Value,
        AttributeKind::Id,
        AttributeKind::Label,
        AttributeKind::KeyType,
        AttributeKind::Modulus,
        AttributeKind::PublicExponent,
        AttributeKind::EcPoint,
        AttributeKind::Id,
    ]);
    assert_eq!(
        names,
        vec![
            AttributeType::Value,
            AttributeType::Id,
            AttributeType::Label,
            AttributeType::KeyType,
            AttributeType::Modulus,
            AttributeType::PublicExponent,
            AttributeType::EcPoint,
            AttributeType::Id,
        ]
    );
    assert_eq!(attribute_names(&[]), vec![]);
}

#[test]
fn attributes_of_the_binding_become_plain_values_one_for_one() {
    let raw = vec![
        Attribute::Label(b"label".to_vec()),
        Attribute::KeyType(KeyType::RSA),
        Attribute::Value(vec![0x30, 0x82]),
        Attribute::Class(ObjectClass::CERTIFICATE),
        Attribute::KeyType(KeyType::EC),
        Attribute::Id(vec![1]),
        Attribute::Modulus(vec![2]),
        Attribute::PublicExponent(vec![1, 0, 1]),
        Attribute::EcPoint(vec![4]),
        Attribute::KeyType(KeyType::DSA),
        Attribute::Token(true),
        Attribute::Subject(vec![7]),
    ];
    assert_eq!(
        plain_attributes(&raw),
        vec![
            TokenAttribute::Label(b"label".to_vec()),
            TokenAttribute::KeyType(KeyKind::Rsa),
            TokenAttribute::Value(vec![0x30, 0x82]),
            TokenAttribute::Other,
            TokenAttribute::KeyType(KeyKind::Ec),
            TokenAttribute::Id(vec![1]),
            TokenAttribute::Modulus(vec![2]),
            TokenAttribute::PublicExponent(vec![1, 0, 1]),
            TokenAttribute::EcPoint(vec![4]),
            TokenAttribute::KeyType(KeyKind::Other),
            TokenAttribute::Other,
            TokenAttribute::Other,
        ]
    );
    assert_eq!(plain_attributes(&vec![]), vec![]);
}

#[test]
fn the_encoding_is_the_first_value_read() {
    let attributes = vec![
        TokenAttribute::Id(vec![1]),
        TokenAttribute::Value(vec![0x30, 0x01]),
        TokenAttribute::Value(vec![0x30, 0x02]),
    ];
    assert_eq!(certificate_value(&attributes), Ok(vec![0x30, 0x01]));
    assert_eq!(certificate_value(&vec![TokenAttribute::Value(vec![])]), Ok(vec![]));
}

#[test]
fn a_certificate_without_a_value_counts_as_not_found() {
    let missing = Failure::new(
        BrokerError::CertificateNotFound,
        "Certificate object found but CKA_VALUE attribute is missing",
    );
    assert_eq!(certificate_value(&vec![]), Err(missing.clone()));
    assert_eq!(certificate_value(&vec![TokenAttribute::Id(vec![1]), TokenAttribute::Other]), Err(missing));
}

#[test]
fn an_outcome_handed_back_means_a_closed_channel() {
    assert_eq!(sent_or_closed(Ok(())), Ok(()));
    let closed = Failure::new(BrokerError::ChannelClosed, "Failed to send the result");
    assert_eq!(sent_or_closed(Err(Ok("unsent".to_string()))), Err(closed.clone()));
    assert_eq!(sent_or_closed(Err(Err(Failure::new(BrokerError::AuthFailure, "wrong PIN")))), Err(closed));
}

#[test]
fn a_file_that_is_not_there_is_a_module_not_found() {
    assert_eq!(module_present(true), Ok(()));
    assert_eq!(
        module_present(false),
        Err(Failure::new(BrokerError::ModuleNotFound, "PKCS#11 library not found"))
    );
}

#[test]
fn the_identifier_chosen_is_what_the_text_spells() {
    assert_eq!(chosen_identifier("0a0B"), Ok(vec![0x0a, 0x0b]));
    assert_eq!(chosen_identifier(""), Ok(vec![]));
    let refused = Failure::new(BrokerError::CertificateNotFound, "Certificate identifier is not hexadecimal");
    assert_eq!(chosen_identifier("0a0"), Err(refused.clone()));
    assert_eq!(chosen_identifier("zz"), Err(refused));
}

#[test]
fn the_encoding_asked_for_is_what_the_text_spells() {
    assert_eq!(certificate_encoding("3082FF"), Ok(vec![0x30, 0x82, 0xff]));
    let refused = Failure::new(BrokerError::CertificateMismatch, "Certificate encoding is not hexadecimal");
    assert_eq!(certificate_encoding("308"), Err(refused.clone()));
    assert_eq!(certificate_encoding("30 82"), Err(refused));
}

#[test]
fn a_certificate_without_a_value_is_not_looked_up_further() {
    let mut certificate = ObjectAttributes {
        value: Some(vec![0x30]),
        id: Some(vec![1]),
        label: None,
        key_kind: None,
        modulus: None,
        public_exponent: None,
        ec_point: None,
    };
    assert_eq!(value_present(&certificate), Ok(()));
    certificate.value = None;
    assert_eq!(
        value_present(&certificate),
        Err(Failure::new(BrokerError::CertificateNotFound, "Certificate value not found"))
    );
}

fn object(id: u8) -> ObjectAttributes {
    ObjectAttributes {
        value: None,
        id: Some(vec![id]),
        label: None,
        key_kind: None,
        modulus: None,
        public_exponent: None,
        ec_point: None,
    }
}

#[test]
fn slots_are_joined_in_their_order_and_nothing_is_sorted() {
    let joined = join_slots(vec![vec![object(9), object(3)], vec![], vec![object(1)], vec![object(9), object(0)]]);
    assert_eq!(joined, vec![object(9), object(3), object(1), object(9), object(0)]);
    assert_eq!(join_slots(vec![]), vec![]);
    assert_eq!(join_slots(vec![vec![], vec![]]), vec![]);
    assert_eq!(join_slots(vec![vec![object(2)]]), vec![object(2)]);
    let lines = certificate_listing(&join_slots(vec![vec![object(0xb0)], vec![object(0x0a), object(0xb0)]]));
    let identifiers: Vec<&str> = lines.iter().map(|line| line.id().as_str()).collect();
    assert_eq!(identifiers, vec!["b0", "0a", "b0"]);
}

#[test]
fn the_label_comes_from_the_list_where_the_list_was_read() {
    let list = vec![
        CertificateInfo::new("0a".to_string(), "first".to_string()),
        CertificateInfo::new("0b".to_string(), "second".to_string()),
    ];
    assert_eq!(listed_label(Ok(list.clone()), "0b"), Some("second".to_string()));
    assert_eq!(listed_label(Ok(list), "0c"), None);
    assert_eq!(listed_label(Err(Failure::new(BrokerError::NoTokenPresent, "gone")), "0a"), None);
}

#[test]
fn the_chosen_certificate_has_the_encoding_found_and_the_label_found() {
    assert_eq!(
        chosen_certificate(vec![1], Some(vec![0x30, 0x82]), Some("Signing key".to_string())),
        Ok(CertificateRecord { identifier: vec![1], label: "Signing key".to_string(), der_bytes: vec![0x30, 0x82] })
    );
    assert_eq!(
        chosen_certificate(vec![1], Some(vec![0x30]), None),
        Ok(CertificateRecord { identifier: vec![1], label: "Unknown Certificate".to_string(), der_bytes: vec![0x30] })
    );
}

#[test]
fn no_slot_with_the_certificate_is_certificate_not_found() {
    let missing = Failure::new(BrokerError::CertificateNotFound, "Certificate not found");
    assert_eq!(chosen_certificate(vec![1], None, None), Err(missing.clone()));
    assert_eq!(chosen_certificate(vec![1], None, Some("a label".to_string())), Err(missing));
}

#[test]
fn the_pending_request_says_what_to_sign() {
    let request = SigningRequestData {
        cert_hash: "3082".to_string(),
        doc_hash: "ab12".to_string(),
        timestamp: "2024-05-17T07:30:00Z".to_string(),
        signed_certificate: "00".to_string(),
    };
    assert_eq!(
        signing_job(Some(&request)),
        Ok(SigningJob { cert_hash: "3082".to_string(), digest: b"ab12".to_vec() })
    );
    assert_eq!(
        signing_job(None),
        Err(Failure::new(BrokerError::NoPendingRequest, "No signing request pending"))
    );
}

#[test]
fn a_signature_in_text_is_not_empty_and_in_lower_case() {
    for signature in [vec![0u8], vec![0xab, 0xcd, 0xef], (0..=255u8).collect::<Vec<u8>>()] {
        let text = encode(&signature);
        assert!(!text.is_empty());
        assert_eq!(text.len(), 2 * signature.len());
        assert!(text.chars().all(|c| c.is_ascii_digit() || ('a'..='f').contains(&c)));
    }
    assert_eq!(encode(&[]), "");
}

#[test]
fn a_key_within_the_limit_is_looked_at() {
    assert_eq!(MAX_KEY_BYTES, 0x7fff_ffff);
    assert_eq!(MAX_IDENTIFIER_BYTES, 0xffff_ffff);
    assert!(!counter_signature_valid(b"", b"message", "00"));
    assert!(!counter_signature_valid(&vec![b'-'; 100_000], b"message", "00"));
}
