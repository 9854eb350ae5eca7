//! The certificates and keys on the token: what is there, the encoding of one
//! certificate, and a certificate together with its public key.

use vstd::prelude::*;
use cryptoki::context::Pkcs11;
use cryptoki::object::ObjectHandle;
use cryptoki::session::Session;
use crate::attributes::{
    collect_attributes, copy_bytes, first_value, same_bytes, spec_bytes, spec_first_value,
    ObjectAttributes, ObjectAttributesView,
};
use crate::error::{BrokerError, Failure};
use crate::hexcodec::{
    decode, encode, law_encoding_is_lower_hex, spec_hex_decode, spec_hex_encode, spec_is_hex,
    spec_is_lower_hex,
};
use crate::token::{
    find_objects, first_found, first_token_slot, login, open_session, read_attributes,
    token_slots, AttributeKind, KeyKind, ObjectKind, SessionMode, TokenAttribute,
};

verus! {

/// The material of a public key. It is shown and checked against; signing never uses it.
#[derive(Clone, Debug, PartialEq, Eq)]
pub enum PublicKey {
    Rsa { modulus: Vec<u8>, exponent: Vec<u8> },
    Ec { ec_point: Vec<u8> },
}

/// What a `PublicKey` holds.
pub enum PublicKeyView {
    Rsa { modulus: Seq<u8>, exponent: Seq<u8> },
    Ec { ec_point: Seq<u8> },
}

impl View for PublicKey {
    type V = PublicKeyView;

    open spec fn view(&self) -> PublicKeyView {
        match self {
            PublicKey::Rsa { modulus, exponent } => PublicKeyView::Rsa {
                modulus: modulus@,
                exponent: exponent@,
            },
            PublicKey::Ec { ec_point } => PublicKeyView::Ec { ec_point: ec_point@ },
        }
    }
}

/// A certificate's encoding with the public key that shares its identifier.
#[derive(Clone, Debug, PartialEq, Eq)]
pub struct CertifiedKey {
    pub certificate: Vec<u8>,
    pub public_key: PublicKey,
}

/// What a `CertifiedKey` holds.
pub struct CertifiedKeyView {
    pub certificate: Seq<u8>,
    pub public_key: PublicKeyView,
}

impl View for CertifiedKey {
    type V = CertifiedKeyView;

    open spec fn view(&self) -> CertifiedKeyView {
        CertifiedKeyView { certificate: self.certificate@, public_key: self.public_key@ }
    }
}

/// One line of the certificate list: the identifier in hexadecimal and the label.
#[derive(Clone, Debug, PartialEq, Eq)]
pub struct CertificateInfo {
    id: String,
    label: String,
}

/// What a `CertificateInfo` holds.
pub struct CertificateInfoView {
    pub id: Seq<char>,
    pub label: Seq<char>,
}

impl View for CertificateInfo {
    type V = CertificateInfoView;

    closed spec fn view(&self) -> CertificateInfoView {
        CertificateInfoView { id: self.id@, label: self.label@ }
    }
}

impl CertificateInfo {
    /// A line with an identifier and a label.
    pub fn new(id: String, label: String) -> (info: CertificateInfo)
        ensures
            info@ == (CertificateInfoView { id: id@, label: label@ }),
    {
        CertificateInfo { id, label }
    }

    /// The identifier, in hexadecimal.
    pub fn id(&self) -> (id: &String)
        ensures
            id@ == self@.id,
    {
        &self.id
    }

    /// The label.
    pub fn label(&self) -> (label: &String)
        ensures
            label@ == self@.label,
    {
        &self.label
    }
}

/// The label shown for a certificate that has none.
pub open spec fn spec_placeholder_label() -> Seq<char> {
    "Unknown Certificate"@
}

/// The text that a label's bytes are shown as. Bytes that are UTF-8 are shown
/// as the text they encode.
pub uninterp spec fn spec_label_text(label: Seq<u8>) -> Seq<char>;

/// `String::from_utf8_lossy` of std: the text that the bytes encode, where
/// they are UTF-8; elsewhere each ill-formed part is replaced.
#[verifier::external_body]
fn label_text(label: &[u8]) -> (text: String)
    ensures
        text@ == spec_label_text(label@),
        vstd::utf8::valid_utf8(label@) ==> text@ == vstd::utf8::decode_utf8(label@),
{
    String::from_utf8_lossy(label).into_owned()
}

/// The text that a label is shown as: the text that its bytes encode, where
/// they are UTF-8, and elsewhere that text with each ill-formed part replaced.
pub open spec fn spec_shown_label(label: Seq<u8>) -> Seq<char> {
    if vstd::utf8::valid_utf8(label) {
        vstd::utf8::decode_utf8(label)
    } else {
        spec_label_text(label)
    }
}

/// The line of the certificate list for an object: none without an
/// identifier; else the identifier in hexadecimal and the label, or the
/// placeholder where there is no label.
pub open spec fn spec_certificate_entry(object: ObjectAttributesView) -> Option<
    CertificateInfoView,
> {
    match object.id {
        None => None,
        Some(id) => Some(
            CertificateInfoView {
                id: spec_hex_encode(id),
                label: match object.label {
                    Some(label) => spec_shown_label(label),
                    None => spec_placeholder_label(),
                },
            },
        ),
    }
}

/// What an optional line holds.
pub open spec fn spec_entry(entry: Option<CertificateInfo>) -> Option<CertificateInfoView> {
    match entry {
        Some(info) => Some(info@),
        None => None,
    }
}

/// What the lines of a list hold.
pub open spec fn spec_entries(list: Seq<CertificateInfo>) -> Seq<CertificateInfoView> {
    list.map_values(|info: CertificateInfo| info@)
}

/// The certificate list for the objects read: one line for each object that
/// has an identifier, in the order of the objects.
pub open spec fn spec_listing(objects: Seq<ObjectAttributes>) -> Seq<CertificateInfoView>
    decreases objects.len(),
{
    if objects.len() == 0 {
        Seq::empty()
    } else {
        let before = spec_listing(objects.drop_last());
        match spec_certificate_entry(objects.last()@) {
            Some(line) => before.push(line),
            None => before,
        }
    }
}

/// The line of the certificate list for an object.
pub fn certificate_entry(object: &ObjectAttributes) -> (entry: Option<CertificateInfo>)
    ensures
        spec_entry(entry) == spec_certificate_entry(object@),
{
    match &object.id {
        None => None,
        Some(id) => {
            let label = match &object.label {
                Some(label) => label_text(label.as_slice()),
                None => "Unknown Certificate".to_owned(),
            };
            Some(CertificateInfo::new(encode(id.as_slice()), label))
        },
    }
}

/// The certificate list for the objects read, in their order and unsorted.
pub fn certificate_listing(objects: &Vec<ObjectAttributes>) -> (list: Vec<CertificateInfo>)
    ensures
        spec_entries(list@) == spec_listing(objects@),
{
    let mut list: Vec<CertificateInfo> = Vec::new();
    let mut i: usize = 0;
    proof {
        assert(spec_entries(list@) =~= Seq::empty());
        assert(objects@.take(0) =~= Seq::empty());
    }
    while i < objects.len()
        invariant
            i <= objects.len(),
            spec_entries(list@) == spec_listing(objects@.take(i as int)),
        decreases objects.len() - i,
    {
        proof {
            let next = objects@.take(i + 1);
            assert(next.drop_last() =~= objects@.take(i as int));
            assert(next.last() == objects@[i as int]);
        }
        let ghost before = list@;
        match certificate_entry(&objects[i]) {
            Some(line) => {
                list.push(line);
                proof {
                    assert(spec_entries(list@) =~= spec_entries(before).push(line@));
                }
            },
            None => {},
        }
        i += 1;
    }
    proof {
        assert(objects@.take(objects.len() as int) =~= objects@);
    }
    list
}

/// The label of the first line with an identifier.
pub open spec fn spec_label_for(list: Seq<CertificateInfo>, id: Seq<char>) -> Option<Seq<char>>
    decreases list.len(),
{
    if list.len() == 0 {
        None
    } else if list.first()@.id == id {
        Some(list.first()@.label)
    } else {
        spec_label_for(list.drop_first(), id)
    }
}

/// What an optional text holds.
pub open spec fn spec_text(text: Option<String>) -> Option<Seq<char>> {
    match text {
        Some(t) => Some(t@),
        None => None,
    }
}

/// The label under which a list shows an identifier: that of the first line that has it.
pub fn label_for(list: &Vec<CertificateInfo>, id: &str) -> (label: Option<String>)
    ensures
        spec_text(label) == spec_label_for(list@, id@),
{
    let wanted = id.to_owned();
    let mut i: usize = 0;
    proof {
        assert(list@.skip(0) =~= list@);
    }
    while i < list.len()
        invariant
            i <= list.len(),
            wanted@ == id@,
            spec_label_for(list@, id@) == spec_label_for(list@.skip(i as int), id@),
        decreases list.len() - i,
    {
        proof {
            let rest = list@.skip(i as int);
            assert(rest.first() == list@[i as int]);
            assert(rest.drop_first() =~= list@.skip(i + 1));
        }
        if *list[i].id() == wanted {
            return Some(list[i].label().clone());
        }
        i += 1;
    }
    None
}

/// The public key that an object's attributes describe: an RSA key needs its
/// modulus and exponent, an EC key its point; without a declared type a point
/// makes an EC key; any other key is not supported.
pub open spec fn spec_decode_public_key(object: ObjectAttributesView) -> Result<
    PublicKeyView,
    BrokerError,
> {
    match object.key_kind {
        Some(KeyKind::Rsa) => match (object.modulus, object.public_exponent) {
            (Some(modulus), Some(exponent)) => Ok(PublicKeyView::Rsa { modulus, exponent }),
            _ => Err(BrokerError::UnsupportedKeyType),
        },
        Some(KeyKind::Ec) => match object.ec_point {
            Some(ec_point) => Ok(PublicKeyView::Ec { ec_point }),
            None => Err(BrokerError::UnsupportedKeyType),
        },
        None => match object.ec_point {
            Some(ec_point) => Ok(PublicKeyView::Ec { ec_point }),
            None => Err(BrokerError::UnsupportedKeyType),
        },
        Some(KeyKind::Other) => Err(BrokerError::UnsupportedKeyType),
    }
}

/// What the outcome of decoding a key holds.
pub open spec fn spec_key_outcome(outcome: Result<PublicKey, Failure>) -> Result<
    PublicKeyView,
    BrokerError,
> {
    match outcome {
        Ok(key) => Ok(key@),
        Err(failure) => Err(failure.kind),
    }
}

/// The words in which a key is refused: what is missing for its declared type,
/// or that the type is not known or not supported.
pub open spec fn spec_key_refusal(object: ObjectAttributesView) -> Seq<char> {
    match object.key_kind {
        Some(KeyKind::Rsa) => "Incomplete RSA public key attributes"@,
        Some(KeyKind::Ec) => "EC public key attribute (EcPoint) not found"@,
        None => "Could not determine public key type"@,
        Some(KeyKind::Other) => "Unsupported public key type"@,
    }
}

/// The public key that an object's attributes describe.
pub fn decode_public_key(object: &ObjectAttributes) -> (key: Result<PublicKey, Failure>)
    ensures
        spec_key_outcome(key) == spec_decode_public_key(object@),
        key matches Err(failure) ==> failure.detail@ == spec_key_refusal(object@),
{
    match object.key_kind {
        Some(KeyKind::Rsa) => match (&object.modulus, &object.public_exponent) {
            (Some(modulus), Some(exponent)) => Ok(
                PublicKey::Rsa { modulus: copy_bytes(modulus), exponent: copy_bytes(exponent) },
            ),
            _ => Err(
                Failure::new(
                    BrokerError::UnsupportedKeyType,
                    "Incomplete RSA public key attributes",
                ),
            ),
        },
        Some(KeyKind::Ec) => match &object.ec_point {
            Some(point) => Ok(PublicKey::Ec { ec_point: copy_bytes(point) }),
            None => Err(
                Failure::new(
                    BrokerError::UnsupportedKeyType,
                    "EC public key attribute (EcPoint) not found",
                ),
            ),
        },
        None => match &object.ec_point {
            Some(point) => Ok(PublicKey::Ec { ec_point: copy_bytes(point) }),
            None => Err(
                Failure::new(
                    BrokerError::UnsupportedKeyType,
                    "Could not determine public key type",
                ),
            ),
        },
        Some(KeyKind::Other) => Err(
            Failure::new(BrokerError::UnsupportedKeyType, "Unsupported public key type"),
        ),
    }
}

/// A certificate with its key, from the attributes of the certificate object
/// and of the public-key object: the certificate must have a value, and the
/// key must decode.
pub open spec fn spec_certified_key(
    certificate: ObjectAttributesView,
    key: ObjectAttributesView,
) -> Result<CertifiedKeyView, BrokerError> {
    match certificate.value {
        None => Err(BrokerError::CertificateNotFound),
        Some(value) => match spec_decode_public_key(key) {
            Ok(public_key) => Ok(CertifiedKeyView { certificate: value, public_key }),
            Err(kind) => Err(kind),
        },
    }
}

/// What the outcome of pairing a certificate with its key holds.
pub open spec fn spec_certified_outcome(outcome: Result<CertifiedKey, Failure>) -> Result<
    CertifiedKeyView,
    BrokerError,
> {
    match outcome {
        Ok(pair) => Ok(pair@),
        Err(failure) => Err(failure.kind),
    }
}

/// A certificate with its key, from the attributes of the two objects.
pub fn certified_key(certificate: &ObjectAttributes, key: &ObjectAttributes) -> (pair: Result<
    CertifiedKey,
    Failure,
>)
    ensures
        spec_certified_outcome(pair) == spec_certified_key(certificate@, key@),
        pair matches Err(failure) ==> failure.detail@ == (if certificate@.value is None {
            "Certificate value not found"@
        } else {
            spec_key_refusal(key@)
        }),
{
    match &certificate.value {
        None => Err(Failure::new(BrokerError::CertificateNotFound, "Certificate value not found")),
        Some(value) => match decode_public_key(key) {
            Ok(public_key) => Ok(CertifiedKey { certificate: copy_bytes(value), public_key }),
            Err(failure) => Err(failure),
        },
    }
}

/// The identifier of the first object whose value is the encoding given; none
/// where no object has that value, or where the first that has it has no identifier.
pub open spec fn spec_matching_id(objects: Seq<ObjectAttributes>, der: Seq<u8>) -> Option<Seq<u8>>
    decreases objects.len(),
{
    if objects.len() == 0 {
        None
    } else if objects.first()@.value == Some(der) {
        objects.first()@.id
    } else {
        spec_matching_id(objects.drop_first(), der)
    }
}

/// The identifier of the certificate whose encoding is byte for byte the one
/// given. Identifiers are not compared.
pub fn matching_certificate_id(objects: &Vec<ObjectAttributes>, der: &[u8]) -> (id: Option<
    Vec<u8>,
>)
    ensures
        spec_bytes(id) == spec_matching_id(objects@, der@),
{
    let mut i: usize = 0;
    proof {
        assert(objects@.skip(0) =~= objects@);
    }
    while i < objects.len()
        invariant
            i <= objects.len(),
            spec_matching_id(objects@, der@) == spec_matching_id(objects@.skip(i as int), der@),
        decreases objects.len() - i,
    {
        proof {
            let rest = objects@.skip(i as int);
            assert(rest.first() == objects@[i as int]);
            assert(rest.drop_first() =~= objects@.skip(i + 1));
        }
        let matches = match &objects[i].value {
            Some(value) => same_bytes(value.as_slice(), der),
            None => false,
        };
        if matches {
            return match &objects[i].id {
                Some(id) => Some(copy_bytes(id)),
                None => None,
            };
        }
        i += 1;
    }
    None
}


/// A certificate as the token holds it: the identifier that it shares with its
/// private key, the label, and the encoding.
#[derive(Clone, Debug, PartialEq, Eq)]
pub struct CertificateRecord {
    pub identifier: Vec<u8>,
    pub label: String,
    pub der_bytes: Vec<u8>,
}

/// What a `CertificateRecord` holds.
pub struct CertificateRecordView {
    pub identifier: Seq<u8>,
    pub label: Seq<char>,
    pub der_bytes: Seq<u8>,
}

impl View for CertificateRecord {
    type V = CertificateRecordView;

    open spec fn view(&self) -> CertificateRecordView {
        CertificateRecordView {
            identifier: self.identifier@,
            label: self.label@,
            der_bytes: self.der_bytes@,
        }
    }
}

/// Reads the attributes asked for of each object in turn, and gathers each
/// list into one object. The first failed read ends it, under `missing`.
pub fn read_objects(
    session: &Session,
    handles: &Vec<ObjectHandle>,
    kinds: &[AttributeKind],
    missing: BrokerError,
) -> (objects: Result<Vec<ObjectAttributes>, Failure>)
    ensures
        objects matches Ok(read) ==> read.len() == handles.len(),
        objects matches Err(failure) ==> failure.kind == missing,
{
    let mut objects: Vec<ObjectAttributes> = Vec::new();
    let mut i: usize = 0;
    while i < handles.len()
        invariant
            i <= handles.len(),
            objects.len() == i,
        decreases handles.len() - i,
    {
        let attributes = read_attributes(session, handles[i], kinds, missing)?;
        objects.push(collect_attributes(&attributes));
        i += 1;
    }
    Ok(objects)
}

/// Reads identifier and label of every certificate object of every slot that
/// holds a token: slot after slot, and within a slot in the order the token
/// finds them. Each slot gets a read-only session of its own, without login.
pub fn read_certificate_objects(module: &Pkcs11) -> (objects: Result<
    Vec<ObjectAttributes>,
    Failure,
>)
    ensures
        objects matches Err(failure) ==> failure.kind == BrokerError::NoTokenPresent
            || failure.kind == BrokerError::AuthFailure || failure.kind
            == BrokerError::CertificateNotFound,
{
    let slots = token_slots(module)?;
    let mut per_slot: Vec<Vec<ObjectAttributes>> = Vec::new();
    let mut s: usize = 0;
    while s < slots.len()
        invariant
            s <= slots.len(),
            per_slot.len() == s,
        decreases slots.len() - s,
    {
        per_slot.push(read_slot_certificates(module, slots[s])?);
        s += 1;
    }
    Ok(join_slots(per_slot))
}

/// The certificates on all tokens, each with its identifier in hexadecimal and
/// its label. Objects without an identifier are left out; nothing is sorted.
/// No consent and no PIN is needed.
pub fn list_certificates(module: &Pkcs11) -> (list: Result<
    Vec<CertificateInfo>,
    Failure,
>)
    ensures
        list matches Ok(lines) ==> exists|objects: Seq<ObjectAttributes>|
            spec_entries(lines@) == #[trigger] spec_listing(objects),
        list matches Err(failure) ==> failure.kind == BrokerError::NoTokenPresent || failure.kind
            == BrokerError::AuthFailure || failure.kind == BrokerError::CertificateNotFound,
{
    let objects = read_certificate_objects(module)?;
    let lines = certificate_listing(&objects);
    proof {
        assert(spec_entries(lines@) == spec_listing(objects@));
    }
    Ok(lines)
}

/// The encoding of the certificate with an identifier on one slot. The search
/// runs in a read-only session without login: certificates are public.
pub fn extract_certificate_by_id(
    module: &Pkcs11,
    slot: cryptoki::slot::Slot,
    cert_id: &[u8],
) -> (der: Result<Vec<u8>, Failure>)
    ensures
        der matches Err(failure) ==> failure.kind == BrokerError::AuthFailure || failure.kind
            == BrokerError::CertificateNotFound,
{
    let session = open_session(module, slot, SessionMode::ReadOnly)?;
    let id = vstd::slice::slice_to_vec(cert_id);
    let handles = find_objects(
        &session,
        ObjectKind::Certificate,
        Some(&id),
        BrokerError::CertificateNotFound,
    )?;
    let certificate = first_found(
        &handles,
        BrokerError::CertificateNotFound,
        "Certificate not found on the token",
    )?;
    let kinds = [AttributeKind::Value];
    let attributes = read_attributes(
        &session,
        certificate,
        kinds.as_slice(),
        BrokerError::CertificateNotFound,
    )?;
    certificate_value(&attributes)
}

/// The encoding of the first certificate on a slot, read after login.
pub fn extract_certificate(
    module: &Pkcs11,
    slot: cryptoki::slot::Slot,
    user_pin: &str,
) -> (der: Result<Vec<u8>, Failure>)
    ensures
        der matches Err(failure) ==> failure.kind == BrokerError::AuthFailure || failure.kind
            == BrokerError::CertificateNotFound,
{
    let session = open_session(module, slot, SessionMode::ReadOnly)?;
    login(&session, user_pin)?;
    let handles = find_objects(
        &session,
        ObjectKind::Certificate,
        None,
        BrokerError::CertificateNotFound,
    )?;
    let certificate = first_found(
        &handles,
        BrokerError::CertificateNotFound,
        "No certificate found on the token",
    )?;
    let kinds = [AttributeKind::Value];
    let attributes = read_attributes(
        &session,
        certificate,
        kinds.as_slice(),
        BrokerError::CertificateNotFound,
    )?;
    certificate_value(&attributes)
}

/// The encoding, in hexadecimal, of the first certificate of the first token.
pub fn extract_certificate_wrapper(module: &Pkcs11, user_pin: &str) -> (der_hex: Result<
    String,
    Failure,
>)
    ensures
        der_hex matches Err(failure) ==> failure.kind == BrokerError::NoTokenPresent
            || failure.kind == BrokerError::AuthFailure || failure.kind
            == BrokerError::CertificateNotFound,
        der_hex matches Ok(text) ==> exists|der: Seq<u8>| text@ == #[trigger] spec_hex_encode(der),
        der_hex matches Ok(text) ==> spec_is_lower_hex(text@),
{
    let slot = first_token_slot(module)?;
    let der = extract_certificate(module, slot, user_pin)?;
    let text = encode(der.as_slice());
    proof {
        assert(text@ == spec_hex_encode(der@));
        law_encoding_is_lower_hex(der@);
    }
    Ok(text)
}

/// The first certificate on a slot with the public key that shares its
/// identifier, read after login.
pub fn extract_certified_key(
    module: &Pkcs11,
    slot: cryptoki::slot::Slot,
    user_pin: &str,
) -> (pair: Result<CertifiedKey, Failure>)
    ensures
        pair matches Err(failure) ==> failure.kind == BrokerError::AuthFailure || failure.kind
            == BrokerError::CertificateNotFound || failure.kind == BrokerError::UnsupportedKeyType,
{
    let session = open_session(module, slot, SessionMode::ReadOnly)?;
    login(&session, user_pin)?;
    let certificates = find_objects(
        &session,
        ObjectKind::Certificate,
        None,
        BrokerError::CertificateNotFound,
    )?;
    let first_certificate = first_found(
        &certificates,
        BrokerError::CertificateNotFound,
        "No certificate found on the token",
    )?;
    let certificate_kinds = [AttributeKind::Value, AttributeKind::Id];
    let certificate_attributes = read_attributes(
        &session,
        first_certificate,
        certificate_kinds.as_slice(),
        BrokerError::CertificateNotFound,
    )?;
    let certificate = collect_attributes(&certificate_attributes);
    value_present(&certificate)?;
    let keys = find_objects(
        &session,
        ObjectKind::PublicKey,
        certificate.id.as_ref(),
        BrokerError::UnsupportedKeyType,
    )?;
    let first_key = first_found(
        &keys,
        BrokerError::UnsupportedKeyType,
        "No matching public key found on the token",
    )?;
    let key_kinds = [
        AttributeKind::KeyType,
        AttributeKind::Modulus,
        AttributeKind::PublicExponent,
        AttributeKind::EcPoint,
    ];
    let key_attributes = read_attributes(
        &session,
        first_key,
        key_kinds.as_slice(),
        BrokerError::UnsupportedKeyType,
    )?;
    let key = collect_attributes(&key_attributes);
    certified_key(&certificate, &key)
}

/// The certificate that the user chose, by its identifier in hexadecimal: its
/// encoding from the first slot that has it, and the label under which the
/// certificate list shows it, or the placeholder.
pub fn select_certificate(module: &Pkcs11, cert_id: &str) -> (record: Result<
    CertificateRecord,
    Failure,
>)
    ensures
        record matches Err(failure) ==> failure.kind == BrokerError::NoTokenPresent
            || failure.kind == BrokerError::CertificateNotFound,
        record matches Ok(found) ==> spec_is_hex(cert_id@) && found.identifier@ == spec_hex_decode(
            cert_id@,
        ),
        !spec_is_hex(cert_id@) ==> record is Err,
{
    let slots = token_slots(module)?;
    let identifier = chosen_identifier(cert_id)?;
    let encoding = first_certificate_encoding(module, &slots, identifier.as_slice());
    let label = match &encoding {
        Some(_) => listed_label(list_certificates(module), cert_id),
        None => None,
    };
    chosen_certificate(identifier, encoding, label)
}

/// The encoding that the attributes read of a certificate object hold: the
/// bytes of the first value among them, and without a value the certificate
/// counts as not found.
pub open spec fn spec_certificate_value(attributes: Seq<TokenAttribute>) -> Result<
    Seq<u8>,
    BrokerError,
> {
    match spec_first_value(attributes) {
        Some(der) => Ok(der),
        None => Err(BrokerError::CertificateNotFound),
    }
}

/// What the outcome of reading an encoding holds.
pub open spec fn spec_value_outcome(outcome: Result<Vec<u8>, Failure>) -> Result<
    Seq<u8>,
    BrokerError,
> {
    match outcome {
        Ok(der) => Ok(der@),
        Err(failure) => Err(failure.kind),
    }
}

/// The encoding that the attributes read of a certificate object hold.
pub fn certificate_value(attributes: &Vec<TokenAttribute>) -> (der: Result<Vec<u8>, Failure>)
    ensures
        spec_value_outcome(der) == spec_certificate_value(attributes@),
        der matches Err(failure) ==> failure.detail@
            == "Certificate object found but CKA_VALUE attribute is missing"@,
{
    match first_value(attributes) {
        Some(der) => Ok(der),
        None => Err(
            Failure::new(
                BrokerError::CertificateNotFound,
                "Certificate object found but CKA_VALUE attribute is missing",
            ),
        ),
    }
}

/// Whether the certificate object read has a value; without one the
/// certificate counts as not found.
pub fn value_present(certificate: &ObjectAttributes) -> (present: Result<(), Failure>)
    ensures
        match present {
            Ok(()) => certificate@.value is Some,
            Err(failure) => certificate@.value is None && failure.kind
                == BrokerError::CertificateNotFound && failure.detail@
                == "Certificate value not found"@,
        },
{
    if certificate.value.is_some() {
        Ok(())
    } else {
        Err(Failure::new(BrokerError::CertificateNotFound, "Certificate value not found"))
    }
}

/// The objects of all slots in one list: those of the first slot first, and
/// within a slot in the order they have there.
pub open spec fn spec_join_slots(per_slot: Seq<Vec<ObjectAttributes>>) -> Seq<ObjectAttributes>
    decreases per_slot.len(),
{
    if per_slot.len() == 0 {
        Seq::empty()
    } else {
        spec_join_slots(per_slot.drop_last()) + per_slot.last()@
    }
}

/// The objects of all slots in one list, slot after slot.
pub fn join_slots(per_slot: Vec<Vec<ObjectAttributes>>) -> (joined: Vec<ObjectAttributes>)
    ensures
        joined@ == spec_join_slots(per_slot@),
{
    let mut rest = per_slot;
    let mut joined: Vec<ObjectAttributes> = Vec::new();
    proof {
        assert(spec_join_slots(rest@) + joined@ =~= spec_join_slots(rest@));
    }
    while rest.len() > 0
        invariant
            spec_join_slots(per_slot@) == spec_join_slots(rest@) + joined@,
        decreases rest.len(),
    {
        let ghost before = rest@;
        let ghost tail = joined@;
        match rest.pop() {
            Some(last) => {
                let mut last = last;
                last.append(&mut joined);
                joined = last;
                proof {
                    assert(rest@ =~= before.drop_last());
                    assert(joined@ == before.last()@ + tail);
                    assert(spec_join_slots(before) == spec_join_slots(before.drop_last())
                        + before.last()@);
                    assert(spec_join_slots(rest@) + joined@ =~= spec_join_slots(before) + tail);
                }
            },
            None => {},
        }
    }
    proof {
        assert(spec_join_slots(rest@) + joined@ =~= joined@);
    }
    joined
}

/// Reads identifier and label of every certificate object of one slot, in the
/// order the token finds them, in a read-only session without login.
pub fn read_slot_certificates(module: &Pkcs11, slot: cryptoki::slot::Slot) -> (objects: Result<
    Vec<ObjectAttributes>,
    Failure,
>)
    ensures
        objects matches Err(failure) ==> failure.kind == BrokerError::AuthFailure || failure.kind
            == BrokerError::CertificateNotFound,
{
    let session = open_session(module, slot, SessionMode::ReadOnly)?;
    let handles = find_objects(
        &session,
        ObjectKind::Certificate,
        None,
        BrokerError::CertificateNotFound,
    )?;
    let kinds = [AttributeKind::Id, AttributeKind::Label];
    read_objects(&session, &handles, kinds.as_slice(), BrokerError::CertificateNotFound)
}

/// The identifier that a text chooses: the bytes it stands for in
/// hexadecimal; a text that is not hexadecimal chooses no certificate.
pub fn chosen_identifier(cert_id: &str) -> (identifier: Result<Vec<u8>, Failure>)
    ensures
        match identifier {
            Ok(bytes) => spec_is_hex(cert_id@) && bytes@ == spec_hex_decode(cert_id@),
            Err(failure) => !spec_is_hex(cert_id@) && failure.kind
                == BrokerError::CertificateNotFound && failure.detail@
                == "Certificate identifier is not hexadecimal"@,
        },
{
    match decode(cert_id) {
        Some(bytes) => Ok(bytes),
        None => Err(
            Failure::new(
                BrokerError::CertificateNotFound,
                "Certificate identifier is not hexadecimal",
            ),
        ),
    }
}

/// The encoding of the certificate with an identifier, from the first of the
/// slots that has it; none where no slot has it, and so where there is no slot.
pub fn first_certificate_encoding(
    module: &Pkcs11,
    slots: &Vec<cryptoki::slot::Slot>,
    identifier: &[u8],
) -> (encoding: Option<Vec<u8>>)
    ensures
        slots.len() == 0 ==> encoding is None,
{
    let mut s: usize = 0;
    while s < slots.len()
        invariant
            s <= slots.len(),
        decreases slots.len() - s,
    {
        match extract_certificate_by_id(module, slots[s], identifier) {
            Ok(der_bytes) => {
                return Some(der_bytes);
            },
            Err(_) => {},
        }
        s += 1;
    }
    None
}

/// The label under which a certificate list shows an identifier; none where
/// the list could not be read, or does not show the identifier.
pub fn listed_label(list: Result<Vec<CertificateInfo>, Failure>, id: &str) -> (label: Option<
    String,
>)
    ensures
        spec_text(label) == (match list {
            Ok(lines) => spec_label_for(lines@, id@),
            Err(_) => None,
        }),
{
    match list {
        Ok(lines) => label_for(&lines, id),
        Err(_) => None,
    }
}

/// The certificate chosen, from what the search found: without an encoding
/// the certificate is not found; with one, the record has the identifier, the
/// encoding, and the label found or else the placeholder.
pub open spec fn spec_chosen_certificate(
    identifier: Seq<u8>,
    encoding: Option<Seq<u8>>,
    label: Option<Seq<char>>,
) -> Result<CertificateRecordView, BrokerError> {
    match encoding {
        None => Err(BrokerError::CertificateNotFound),
        Some(der_bytes) => Ok(
            CertificateRecordView {
                identifier,
                label: match label {
                    Some(text) => text,
                    None => spec_placeholder_label(),
                },
                der_bytes,
            },
        ),
    }
}

/// What the outcome of a choice holds.
pub open spec fn spec_record_outcome(outcome: Result<CertificateRecord, Failure>) -> Result<
    CertificateRecordView,
    BrokerError,
> {
    match outcome {
        Ok(record) => Ok(record@),
        Err(failure) => Err(failure.kind),
    }
}

/// The certificate chosen, from what the search found.
pub fn chosen_certificate(
    identifier: Vec<u8>,
    encoding: Option<Vec<u8>>,
    label: Option<String>,
) -> (record: Result<CertificateRecord, Failure>)
    ensures
        spec_record_outcome(record) == spec_chosen_certificate(
            identifier@,
            spec_bytes(encoding),
            spec_text(label),
        ),
        record matches Err(failure) ==> failure.detail@ == "Certificate not found"@,
{
    match encoding {
        None => Err(Failure::new(BrokerError::CertificateNotFound, "Certificate not found")),
        Some(der_bytes) => {
            let label = match label {
                Some(text) => text,
                None => "Unknown Certificate".to_owned(),
            };
            Ok(CertificateRecord { identifier, label, der_bytes })
        },
    }
}

} // verus!
