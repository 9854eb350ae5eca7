//! Signing with the private key that belongs to a certificate. The key never
//! leaves the token: the token signs the bytes it is given, as they are.

use vstd::prelude::*;
use cryptoki::context::Pkcs11;
use cryptoki::mechanism::Mechanism;
use cryptoki::object::ObjectHandle;
use cryptoki::session::Session;
use crate::attributes::{first_key_kind, spec_first_key_kind, ObjectAttributes};
use crate::broker::{spec_complete, spec_delivery, Delivery, PendingRequest};
use crate::directory::{matching_certificate_id, read_objects, spec_matching_id};
use crate::error::{BrokerError, Failure};
use crate::hexcodec::{
    decode, encode, law_encoding_is_lower_hex, spec_hex_decode, spec_hex_encode, spec_is_hex,
    spec_is_lower_hex,
};
use crate::mechanism::{mechanism_for_key, spec_mechanism_for_key, SigningMechanism};
use crate::token::{
    find_objects, first_found, first_token_slot, login, open_session, read_attributes,
    reported, AttributeKind, ObjectKind, SessionMode, TokenAttribute,
};

verus! {

/// `Session::sign` of `cryptoki`: one signature over the data, made by the
/// token with the key and with the `Mechanism` that stands for the one given.
#[verifier::external_body]
fn session_sign(
    session: &Session,
    mechanism: SigningMechanism,
    key: ObjectHandle,
    data: &[u8],
) -> (signature: Result<Vec<u8>, cryptoki::error::Error>) {
    let mechanism = match mechanism {
        SigningMechanism::RsaPkcs => Mechanism::RsaPkcs,
        SigningMechanism::Sha1RsaPkcs => Mechanism::Sha1RsaPkcs,
        SigningMechanism::Sha224RsaPkcs => Mechanism::Sha224RsaPkcs,
        SigningMechanism::Sha256RsaPkcs => Mechanism::Sha256RsaPkcs,
        SigningMechanism::Sha384RsaPkcs => Mechanism::Sha384RsaPkcs,
        SigningMechanism::Sha512RsaPkcs => Mechanism::Sha512RsaPkcs,
        SigningMechanism::Ecdsa => Mechanism::Ecdsa,
        SigningMechanism::EcdsaSha1 => Mechanism::EcdsaSha1,
        SigningMechanism::EcdsaSha224 => Mechanism::EcdsaSha224,
        SigningMechanism::EcdsaSha256 => Mechanism::EcdsaSha256,
        SigningMechanism::EcdsaSha384 => Mechanism::EcdsaSha384,
        SigningMechanism::EcdsaSha512 => Mechanism::EcdsaSha512,
    };
    session.sign(&mechanism, key, data)
}

/// The mechanism for the private key whose attributes were read: the first
/// declared key type decides, and a key that declares none does not sign.
pub open spec fn spec_signing_mechanism(key_attributes: Seq<TokenAttribute>) -> Result<
    SigningMechanism,
    BrokerError,
> {
    match spec_first_key_kind(key_attributes) {
        Some(kind) => spec_mechanism_for_key(kind),
        None => Err(BrokerError::UnsupportedKeyType),
    }
}

/// What the outcome of choosing a mechanism holds.
pub open spec fn spec_mechanism_outcome(outcome: Result<SigningMechanism, Failure>) -> Result<
    SigningMechanism,
    BrokerError,
> {
    match outcome {
        Ok(mechanism) => Ok(mechanism),
        Err(failure) => Err(failure.kind),
    }
}

/// The mechanism for the private key whose attributes were read. The
/// certificate has no say in it.
pub fn signing_mechanism(key_attributes: &Vec<TokenAttribute>) -> (mechanism: Result<
    SigningMechanism,
    Failure,
>)
    ensures
        spec_mechanism_outcome(mechanism) == spec_signing_mechanism(key_attributes@),
        mechanism matches Err(failure) ==> failure.detail@ == (match spec_first_key_kind(
            key_attributes@,
        ) {
            None => "Private key does not have a KeyType attribute"@,
            Some(_) => "Unsupported key type for signing"@,
        }),
{
    match first_key_kind(key_attributes) {
        None => Err(
            Failure::new(
                BrokerError::UnsupportedKeyType,
                "Private key does not have a KeyType attribute",
            ),
        ),
        Some(kind) => match mechanism_for_key(kind) {
            Ok(mechanism) => Ok(mechanism),
            Err(kind) => Err(Failure::new(kind, "Unsupported key type for signing")),
        },
    }
}

/// The identifier under which the private key of a certificate is found,
/// among the certificate objects read: that of the first whose value is the
/// encoding given.
pub open spec fn spec_key_identifier(objects: Seq<ObjectAttributes>, der: Seq<u8>) -> Result<
    Seq<u8>,
    BrokerError,
> {
    match spec_matching_id(objects, der) {
        Some(id) => Ok(id),
        None => Err(BrokerError::CertificateMismatch),
    }
}

/// What the outcome of a search for an identifier holds.
pub open spec fn spec_identifier_outcome(outcome: Result<Vec<u8>, Failure>) -> Result<
    Seq<u8>,
    BrokerError,
> {
    match outcome {
        Ok(id) => Ok(id@),
        Err(failure) => Err(failure.kind),
    }
}

/// The identifier under which the private key of a certificate is found.
pub fn key_identifier(objects: &Vec<ObjectAttributes>, cert_der: &[u8]) -> (id: Result<
    Vec<u8>,
    Failure,
>)
    ensures
        spec_identifier_outcome(id) == spec_key_identifier(objects@, cert_der@),
        id matches Err(failure) ==> failure.detail@
            == "Certificate matching provided DER not found or missing CKA_ID"@,
{
    match matching_certificate_id(objects, cert_der) {
        Some(id) => Ok(id),
        None => Err(
            Failure::new(
                BrokerError::CertificateMismatch,
                "Certificate matching provided DER not found or missing CKA_ID",
            ),
        ),
    }
}

/// Signs bytes with the private key of a certificate on one slot: a
/// read-write session, login with the PIN, the certificate found by its
/// encoding, the private key by the certificate's identifier, the mechanism by
/// the key's type. A signature that the token refuses to make is reported as
/// a failure to authorise the key's use.
pub fn sign_hash_with_cert(
    module: &Pkcs11,
    slot: cryptoki::slot::Slot,
    user_pin: &str,
    cert_der: &[u8],
    hash: &[u8],
) -> (signature: Result<Vec<u8>, Failure>)
    ensures
        signature matches Err(failure) ==> failure.kind == BrokerError::AuthFailure
            || failure.kind == BrokerError::CertificateMismatch || failure.kind
            == BrokerError::PrivateKeyNotFound || failure.kind == BrokerError::UnsupportedKeyType,
{
    let session = open_session(module, slot, SessionMode::ReadWrite)?;
    login(&session, user_pin)?;
    let certificates = find_objects(
        &session,
        ObjectKind::Certificate,
        None,
        BrokerError::CertificateMismatch,
    )?;
    first_found(
        &certificates,
        BrokerError::CertificateMismatch,
        "No certificate objects found on the token",
    )?;
    let certificate_kinds = [AttributeKind::Value, AttributeKind::Id];
    let objects = read_objects(
        &session,
        &certificates,
        certificate_kinds.as_slice(),
        BrokerError::CertificateMismatch,
    )?;
    let id = key_identifier(&objects, cert_der)?;
    let keys = find_objects(
        &session,
        ObjectKind::PrivateKey,
        Some(&id),
        BrokerError::PrivateKeyNotFound,
    )?;
    let key = first_found(
        &keys,
        BrokerError::PrivateKeyNotFound,
        "No matching private key found on the token",
    )?;
    let key_kinds = [AttributeKind::KeyType];
    let key_attributes = read_attributes(
        &session,
        key,
        key_kinds.as_slice(),
        BrokerError::UnsupportedKeyType,
    )?;
    let mechanism = signing_mechanism(&key_attributes)?;
    reported(session_sign(&session, mechanism, key, hash), BrokerError::AuthFailure)
}

/// Signs bytes with the private key of the certificate whose encoding is given
/// in hexadecimal, on the first token, and gives the signature in lower-case
/// hexadecimal. An encoding that is not hexadecimal is refused before any
/// session is opened.
pub fn sign_hash_wrapper(module: &Pkcs11, user_pin: &str, cert_hash: &str, hash: &[u8]) -> (
    signature_hex: Result<String, Failure>)
    ensures
        signature_hex matches Ok(text) ==> exists|signature: Seq<u8>|
            text@ == #[trigger] spec_hex_encode(signature),
        signature_hex matches Ok(text) ==> spec_is_lower_hex(text@),
        signature_hex matches Err(failure) ==> failure.kind == BrokerError::NoTokenPresent
            || failure.kind == BrokerError::AuthFailure || failure.kind
            == BrokerError::CertificateMismatch || failure.kind == BrokerError::PrivateKeyNotFound
            || failure.kind == BrokerError::UnsupportedKeyType,
        !spec_is_hex(cert_hash@) ==> (signature_hex matches Err(failure) && (failure.kind
            == BrokerError::NoTokenPresent || failure.kind == BrokerError::CertificateMismatch)),
{
    let slot = first_token_slot(module)?;
    let cert_der = certificate_encoding(cert_hash)?;
    let signature = sign_hash_with_cert(module, slot, user_pin, cert_der.as_slice(), hash)?;
    Ok(signature_text(signature.as_slice()))
}

/// The text in which a signature travels: its bytes in lower-case
/// hexadecimal, two digits for each, and so not empty unless the signature is.
pub fn signature_text(signature: &[u8]) -> (text: String)
    ensures
        text@ == spec_hex_encode(signature@),
        text@.len() == 2 * signature@.len(),
        spec_is_lower_hex(text@),
{
    proof {
        law_encoding_is_lower_hex(signature@);
    }
    encode(signature)
}

/// A signing request that is pending, completed with the text of a signature
/// that is not empty: its waiter, and nobody else, is sent a text that is not
/// empty and is an even number of lower-case hexadecimal digits, and the slot
/// is empty after.
pub proof fn law_signature_reaches_the_waiter<D, C>(
    request: PendingRequest<D, C>,
    signature: Seq<u8>,
)
    requires
        signature.len() > 0,
    ensures
        spec_delivery(Some(request), spec_hex_encode(signature)) == Ok::<
            Delivery<D, C, Seq<char>>,
            BrokerError,
        >(
            Delivery {
                data: request.data,
                channel: request.channel,
                outcome: spec_hex_encode(signature),
            },
        ),
        spec_complete(Some(request)) is None,
        spec_hex_encode(signature).len() > 0,
        spec_is_lower_hex(spec_hex_encode(signature)),
{
    law_encoding_is_lower_hex(signature);
}

/// The encoding that a text states in hexadecimal; a text that is not
/// hexadecimal matches no certificate.
pub fn certificate_encoding(cert_hash: &str) -> (encoding: Result<Vec<u8>, Failure>)
    ensures
        match encoding {
            Ok(der) => spec_is_hex(cert_hash@) && der@ == spec_hex_decode(cert_hash@),
            Err(failure) => !spec_is_hex(cert_hash@) && failure.kind
                == BrokerError::CertificateMismatch && failure.detail@
                == "Certificate encoding is not hexadecimal"@,
        },
{
    match decode(cert_hash) {
        Some(der) => Ok(der),
        None => Err(
            Failure::new(
                BrokerError::CertificateMismatch,
                "Certificate encoding is not hexadecimal",
            ),
        ),
    }
}

} // verus!
