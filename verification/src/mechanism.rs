//! Which signing mechanism to ask the token for. There are two ways to decide,
//! and they need not agree: by the signature algorithm that a certificate
//! declares, and by the declared type of the private key. Signing goes by the
//! key type alone.

use vstd::prelude::*;
use crate::error::BrokerError;
use crate::token::KeyKind;

verus! {

/// The parsing errors of `openssl`.
#[verifier::external_type_specification]
#[verifier::external_body]
pub struct ExErrorStack(openssl::error::ErrorStack);

/// A signing algorithm that the token understands.
#[derive(Clone, Copy, Debug, PartialEq, Eq, Structural)]
pub enum SigningMechanism {
    /// RSA PKCS#1 v1.5 over a digest the caller has already wrapped.
    RsaPkcs,
    Sha1RsaPkcs,
    Sha224RsaPkcs,
    Sha256RsaPkcs,
    Sha384RsaPkcs,
    Sha512RsaPkcs,
    /// ECDSA over the bytes as they are given.
    Ecdsa,
    EcdsaSha1,
    EcdsaSha224,
    EcdsaSha256,
    EcdsaSha384,
    EcdsaSha512,
}

/// The numbers under which OpenSSL knows the signature algorithms that have a mechanism.
pub const NID_RSA_ENCRYPTION: i32 = 6;
pub const NID_SHA1_WITH_RSA: i32 = 65;
pub const NID_SHA224_WITH_RSA: i32 = 671;
pub const NID_SHA256_WITH_RSA: i32 = 668;
pub const NID_SHA384_WITH_RSA: i32 = 669;
pub const NID_SHA512_WITH_RSA: i32 = 670;
pub const NID_ECDSA_WITH_SHA1: i32 = 416;
pub const NID_ECDSA_WITH_SHA224: i32 = 793;
pub const NID_ECDSA_WITH_SHA256: i32 = 794;
pub const NID_ECDSA_WITH_SHA384: i32 = 795;
pub const NID_ECDSA_WITH_SHA512: i32 = 796;

/// The mechanism for a private key of a declared type: RSA keys sign with
/// SHA-256 and PKCS#1 v1.5, EC keys with plain ECDSA, whatever the certificate
/// of the key was signed with. No other type of key signs.
pub open spec fn spec_mechanism_for_key(kind: KeyKind) -> Result<SigningMechanism, BrokerError> {
    match kind {
        KeyKind::Rsa => Ok(SigningMechanism::Sha256RsaPkcs),
        KeyKind::Ec => Ok(SigningMechanism::Ecdsa),
        KeyKind::Other => Err(BrokerError::UnsupportedKeyType),
    }
}

/// The mechanism that matches a declared signature algorithm, by OpenSSL's number of it.
pub open spec fn spec_mechanism_for_algorithm(nid: int) -> Result<SigningMechanism, BrokerError> {
    if nid == NID_SHA1_WITH_RSA {
        Ok(SigningMechanism::Sha1RsaPkcs)
    } else if nid == NID_SHA224_WITH_RSA {
        Ok(SigningMechanism::Sha224RsaPkcs)
    } else if nid == NID_SHA256_WITH_RSA {
        Ok(SigningMechanism::Sha256RsaPkcs)
    } else if nid == NID_SHA384_WITH_RSA {
        Ok(SigningMechanism::Sha384RsaPkcs)
    } else if nid == NID_SHA512_WITH_RSA {
        Ok(SigningMechanism::Sha512RsaPkcs)
    } else if nid == NID_RSA_ENCRYPTION {
        Ok(SigningMechanism::RsaPkcs)
    } else if nid == NID_ECDSA_WITH_SHA1 {
        Ok(SigningMechanism::EcdsaSha1)
    } else if nid == NID_ECDSA_WITH_SHA224 {
        Ok(SigningMechanism::EcdsaSha224)
    } else if nid == NID_ECDSA_WITH_SHA256 {
        Ok(SigningMechanism::EcdsaSha256)
    } else if nid == NID_ECDSA_WITH_SHA384 {
        Ok(SigningMechanism::EcdsaSha384)
    } else if nid == NID_ECDSA_WITH_SHA512 {
        Ok(SigningMechanism::EcdsaSha512)
    } else {
        Err(BrokerError::UnsupportedAlgorithm)
    }
}

/// The number of the signature algorithm that a DER-encoded certificate
/// declares, where the encoding parses as a certificate.
pub uninterp spec fn spec_declared_algorithm(certificate_der: Seq<u8>) -> Option<int>;

/// The mechanism that a certificate's own signature was made with.
pub open spec fn spec_mechanism_from_cert(certificate_der: Seq<u8>) -> Result<
    SigningMechanism,
    BrokerError,
> {
    match spec_declared_algorithm(certificate_der) {
        Some(nid) => spec_mechanism_for_algorithm(nid),
        None => Err(BrokerError::UnsupportedAlgorithm),
    }
}

/// `X509::from_der` of `openssl`, then `signature_algorithm`, `object`, `nid`
/// and `as_raw` on what it parsed: the number of the declared signature
/// algorithm, or the parser's error.
#[verifier::external_body]
fn declared_algorithm(certificate_der: &[u8]) -> (nid: Result<i32, openssl::error::ErrorStack>)
    ensures
        nid matches Ok(n) ==> spec_declared_algorithm(certificate_der@) == Some(n as int),
        nid is Err ==> spec_declared_algorithm(certificate_der@) is None,
{
    let certificate = openssl::x509::X509::from_der(certificate_der)?;
    Ok(certificate.signature_algorithm().object().nid().as_raw())
}

/// The mechanism for a private key of a declared type.
pub fn mechanism_for_key(kind: KeyKind) -> (mechanism: Result<SigningMechanism, BrokerError>)
    ensures
        mechanism == spec_mechanism_for_key(kind),
{
    match kind {
        KeyKind::Rsa => Ok(SigningMechanism::Sha256RsaPkcs),
        KeyKind::Ec => Ok(SigningMechanism::Ecdsa),
        KeyKind::Other => Err(BrokerError::UnsupportedKeyType),
    }
}

/// The mechanism that matches a declared signature algorithm.
pub fn mechanism_for_algorithm(nid: i32) -> (mechanism: Result<SigningMechanism, BrokerError>)
    ensures
        mechanism == spec_mechanism_for_algorithm(nid as int),
{
    if nid == NID_SHA1_WITH_RSA {
        Ok(SigningMechanism::Sha1RsaPkcs)
    } else if nid == NID_SHA224_WITH_RSA {
        Ok(SigningMechanism::Sha224RsaPkcs)
    } else if nid == NID_SHA256_WITH_RSA {
        Ok(SigningMechanism::Sha256RsaPkcs)
    } else if nid == NID_SHA384_WITH_RSA {
        Ok(SigningMechanism::Sha384RsaPkcs)
    } else if nid == NID_SHA512_WITH_RSA {
        Ok(SigningMechanism::Sha512RsaPkcs)
    } else if nid == NID_RSA_ENCRYPTION {
        Ok(SigningMechanism::RsaPkcs)
    } else if nid == NID_ECDSA_WITH_SHA1 {
        Ok(SigningMechanism::EcdsaSha1)
    } else if nid == NID_ECDSA_WITH_SHA224 {
        Ok(SigningMechanism::EcdsaSha224)
    } else if nid == NID_ECDSA_WITH_SHA256 {
        Ok(SigningMechanism::EcdsaSha256)
    } else if nid == NID_ECDSA_WITH_SHA384 {
        Ok(SigningMechanism::EcdsaSha384)
    } else if nid == NID_ECDSA_WITH_SHA512 {
        Ok(SigningMechanism::EcdsaSha512)
    } else {
        Err(BrokerError::UnsupportedAlgorithm)
    }
}

/// The mechanism that a certificate's own signature was made with. An
/// encoding that does not parse declares no algorithm.
pub fn mechanism_from_cert(certificate_der: &[u8]) -> (mechanism: Result<
    SigningMechanism,
    BrokerError,
>)
    ensures
        mechanism == spec_mechanism_from_cert(certificate_der@),
{
    match declared_algorithm(certificate_der) {
        Ok(nid) => mechanism_for_algorithm(nid),
        Err(_) => Err(BrokerError::UnsupportedAlgorithm),
    }
}

/// The key type decides alone: an RSA key always signs with SHA-256 and
/// PKCS#1 v1.5 and an EC key with plain ECDSA, also under a certificate that
/// declares another algorithm, such as SHA-384 with RSA.
pub proof fn law_mechanism_goes_by_key_type(certificate_der: Seq<u8>)
    ensures
        spec_mechanism_for_key(KeyKind::Rsa) == Ok::<SigningMechanism, BrokerError>(
            SigningMechanism::Sha256RsaPkcs,
        ),
        spec_mechanism_for_key(KeyKind::Ec) == Ok::<SigningMechanism, BrokerError>(
            SigningMechanism::Ecdsa,
        ),
        spec_declared_algorithm(certificate_der) == Some(NID_SHA384_WITH_RSA as int)
            ==> spec_mechanism_from_cert(certificate_der) != spec_mechanism_for_key(KeyKind::Rsa),
{
}

} // verus!
